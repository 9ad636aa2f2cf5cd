use cards::filter::ApplyTo;
use cards::filter::Filter;
use cards::filter::Level;
use cards::filter::TargetKind;
use cards::render::Attributes;
use cards::subscriber::Subscriber;

const TIME: &str = "2024-05-06 07:08:09";

fn span(name: &str, values: &str) -> Attributes {
    Attributes::from(name, "cards", Level::Info, values)
}

#[test]
fn spans_are_numbered_from_one() {
    let mut sink = Subscriber::new(Vec::new(), true);
    assert!(sink.has_room());
    assert!(!sink.knows(1));
    assert_eq!(sink.new_span(span("a", "")), 1);
    assert_eq!(sink.new_span(span("b", "")), 2);
    assert_eq!(sink.new_span(span("c", "")), 3);
    assert!(sink.knows(1));
    assert!(sink.knows(3));
    assert!(!sink.knows(0));
    assert!(!sink.knows(4));
}

#[test]
fn an_event_outside_every_span_has_an_empty_context() {
    let sink = Subscriber::new(Vec::new(), true);
    let lines = sink.event(Level::Info, "cards", "hello", TIME);
    assert_eq!(
        lines.stdout.unwrap(),
        "\x1b[38;5;14mINFO \x1b[0m [\x1b[38;5;7m2024-05-06 07:08:09\x1b[0m] [\x1b[38;5;4mcards\x1b[0m]  hello"
    );
    assert_eq!(lines.main_log.unwrap(), "INFO  [2024-05-06 07:08:09]  hello");
    assert_eq!(lines.target_log, None);
}

#[test]
fn an_event_shows_the_spans_it_is_in() {
    let mut sink = Subscriber::new(Vec::new(), true);
    let outer = sink.new_span(span("server", "{port=25566}"));
    let inner = sink.new_span(span("session", ""));
    sink.enter(outer);
    sink.enter(inner);
    let lines = sink.event(Level::Warn, "cards", "slow peer", TIME);
    assert_eq!(
        lines.main_log.unwrap(),
        "WARN  [2024-05-06 07:08:09] [server(port=25566)] [session] slow peer"
    );
    assert_eq!(
        lines.stdout.unwrap(),
        "\x1b[38;5;3mWARN \x1b[0m [\x1b[38;5;7m2024-05-06 07:08:09\x1b[0m] [\x1b[38;5;4mcards\x1b[0m] [\x1b[38;5;2mserver\x1b[0m(port=25566)] [\x1b[38;5;2msession\x1b[0m] slow peer"
    );
}

#[test]
fn the_terminal_can_leave_the_values_out() {
    let mut sink = Subscriber::new(Vec::new(), false);
    let id = sink.new_span(span("server", "{port=25566}"));
    sink.enter(id);
    let lines = sink.event(Level::Error, "cards", "down", TIME);
    assert_eq!(
        lines.stdout.unwrap(),
        "\x1b[38;5;1mERROR\x1b[0m [\x1b[38;5;7m2024-05-06 07:08:09\x1b[0m] [\x1b[38;5;4mcards\x1b[0m] [\x1b[38;5;2mserver\x1b[0m] down"
    );
    assert_eq!(lines.main_log.unwrap(), "ERROR [2024-05-06 07:08:09] [server(port=25566)] down");
}

#[test]
fn leaving_a_span_takes_it_off_wherever_it_stands() {
    let mut sink = Subscriber::new(Vec::new(), true);
    let a = sink.new_span(span("a", ""));
    let b = sink.new_span(span("b", ""));
    sink.enter(a);
    sink.enter(b);
    sink.enter(a);
    sink.exit(a);
    let lines = sink.event(Level::Trace, "t", "m", TIME);
    assert_eq!(lines.main_log.unwrap(), "TRACE [2024-05-06 07:08:09] [b] m");
    sink.exit(a);
    sink.exit(b);
    let lines = sink.event(Level::Debug, "t", "m", TIME);
    assert_eq!(lines.main_log.unwrap(), "DEBUG [2024-05-06 07:08:09]  m");
}

#[test]
fn a_target_with_a_log_gets_the_line_there_too() {
    let logs = vec!["cards_server::server".to_string()];
    let sink = Subscriber::new(logs, true);
    assert!(sink.has_log("cards_server::server"));
    assert!(!sink.has_log("cards_server"));
    let lines = sink.event(Level::Info, "cards_server::server", "up", TIME);
    assert_eq!(lines.target_log.unwrap(), "INFO  [2024-05-06 07:08:09]  up");
    assert_eq!(lines.main_log.unwrap(), "INFO  [2024-05-06 07:08:09]  up");
    let lines = sink.event(Level::Info, "cards_server::game", "up", TIME);
    assert_eq!(lines.target_log, None);
    assert!(lines.main_log.is_some());
}

#[test]
fn filters_decide_for_each_output_apart() {
    let sink = Subscriber::new(vec!["cards_protocol".to_string()], true)
        .filter(Filter::new(
            Some(Level::Info),
            Some(TargetKind::Target("cards_protocol")),
            ApplyTo::Stdout,
        ))
        .filter(Filter::new(Some(Level::Error), None, ApplyTo::SpecificLog));
    let lines = sink.event(Level::Debug, "cards_protocol", "m", TIME);
    assert_eq!(lines.stdout, None);
    assert!(lines.main_log.is_some());
    assert_eq!(lines.target_log, None);
    let lines = sink.event(Level::Error, "cards_protocol", "m", TIME);
    assert!(lines.stdout.is_some());
    assert!(lines.main_log.is_some());
    assert!(lines.target_log.is_some());
    let lines = sink.event(Level::Trace, "other", "m", TIME);
    assert!(lines.stdout.is_some());
    assert!(sink.enabled(Level::Trace, "other"));
    assert!(sink.show(Level::Info, "cards_protocol", ApplyTo::Stdout));
    assert!(!sink.show(Level::Debug, "cards_protocol", ApplyTo::Stdout));
}

#[test]
fn a_filter_by_span_looks_at_the_spans_entered() {
    let mut sink = Subscriber::new(Vec::new(), true);
    sink.filter_mut(Filter::new(None, Some(TargetKind::Span("client")), ApplyTo::All));
    let client = sink.new_span(span("client", ""));
    assert!(sink.enabled(Level::Error, "t"));
    sink.enter(client);
    assert!(!sink.enabled(Level::Error, "t"));
    let lines = sink.event(Level::Error, "t", "m", TIME);
    assert_eq!(lines.stdout, None);
    assert_eq!(lines.main_log, None);
    sink.exit(client);
    assert!(sink.enabled(Level::Error, "t"));
}
