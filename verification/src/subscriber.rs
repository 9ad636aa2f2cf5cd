//! The sink of events: the spans that are open, the filters, and the lines
//! that an event comes to.
//!
//! The sink writes nothing itself. It says which lines go where; the
//! caller holds the terminal and the files.

use vstd::prelude::*;
use vstd::string::StringExecFns;
use std::collections::HashMap;
use crate::filter::show;
use crate::filter::shown;
use crate::filter::ApplyTo;
use crate::filter::Filter;
use crate::filter::Level;
use crate::render::format_level;
use crate::render::format_level_colored;
use crate::render::level_name;
use crate::render::level_tint;
use crate::render::paint;
use crate::render::painted;
use crate::render::Attributes;
use crate::render::Tint;
use crate::text::same_text;
use crate::text::views;

verus! {

broadcast use vstd::std_specs::hash::group_hash_axioms;

/// What identifies a span.
pub type SpanId = u64;

/// `stack` without `span`, wherever it stood.
pub open spec fn without(stack: Seq<SpanId>, span: SpanId) -> Seq<SpanId>
    decreases stack.len(),
{
    if stack.len() == 0 {
        stack
    } else if stack.last() == span {
        without(stack.drop_last(), span)
    } else {
        without(stack.drop_last(), span).push(stack.last())
    }
}

/// The names of the spans of `stack`, in its order.
pub open spec fn span_names(stack: Seq<SpanId>, spans: Map<SpanId, Attributes>) -> Seq<Seq<char>> {
    stack.map_values(|span: SpanId| spans[span].name())
}

/// A span as the logs show it: its name and its values, in square brackets.
pub open spec fn plain_piece(span: Attributes) -> Seq<char> {
    seq!['['] + span.name() + span.values() + seq![']']
}

/// A span as the terminal shows it: its name in green, and its values if
/// they are asked for, in square brackets.
pub open spec fn colored_piece(span: Attributes, show_args: bool) -> Seq<char> {
    seq!['['] + painted(Tint::Green, span.name()) + (if show_args {
        span.values()
    } else {
        Seq::<char>::empty()
    }) + seq![']']
}

/// The spans of `stack` as the logs show them, with a space between one and
/// the next.
pub open spec fn plain_context(stack: Seq<SpanId>, spans: Map<SpanId, Attributes>) -> Seq<char>
    decreases stack.len(),
{
    if stack.len() == 0 {
        Seq::<char>::empty()
    } else if stack.len() == 1 {
        plain_piece(spans[stack[0]])
    } else {
        plain_context(stack.drop_last(), spans) + seq![' '] + plain_piece(spans[stack.last()])
    }
}

/// The spans of `stack` as the terminal shows them, with a space between
/// one and the next.
pub open spec fn colored_context(
    stack: Seq<SpanId>,
    spans: Map<SpanId, Attributes>,
    show_args: bool,
) -> Seq<char>
    decreases stack.len(),
{
    if stack.len() == 0 {
        Seq::<char>::empty()
    } else if stack.len() == 1 {
        colored_piece(spans[stack[0]], show_args)
    } else {
        colored_context(stack.drop_last(), spans, show_args) + seq![' '] + colored_piece(
            spans[stack.last()],
            show_args,
        )
    }
}

/// The line of an event in a log: the level, the time in square brackets,
/// the spans, the message.
pub open spec fn log_line(level: Level, time: Seq<char>, context: Seq<char>, message: Seq<char>) -> Seq<
    char,
> {
    level_name(level) + seq![' ', '['] + time + seq![']', ' '] + context + seq![' '] + message
}

/// The line of an event on the terminal: the level in its colour, the time
/// in light gray and the target in blue, each of the two in square
/// brackets, the spans, the message.
pub open spec fn terminal_line(
    level: Level,
    time: Seq<char>,
    target: Seq<char>,
    context: Seq<char>,
    message: Seq<char>,
) -> Seq<char> {
    painted(level_tint(level), level_name(level)) + seq![' ', '['] + painted(Tint::LightGray, time)
        + seq![']', ' ', '['] + painted(Tint::Blue, target) + seq![']', ' '] + context + seq![' ']
        + message
}

/// The characters of a line, if there is one.
pub open spec fn line_view(line: Option<String>) -> Option<Seq<char>> {
    match line {
        Some(text) => Some(text@),
        None => None,
    }
}

/// The lines that one event comes to, each for one output; `None` where
/// the output gets nothing.
#[derive(Debug)]
pub struct Lines {
    /// The line for the terminal.
    pub stdout: Option<String>,
    /// The line for the log that takes everything.
    pub main_log: Option<String>,
    /// The line for the log of the event's target.
    pub target_log: Option<String>,
}

/// The state of the sink.
#[derive(Debug)]
pub struct Subscriber {
    id: u64,
    stack: Vec<SpanId>,
    spans: HashMap<SpanId, Attributes>,
    show_args: bool,
    target_logs: Vec<String>,
    filters: Vec<Filter>,
}

impl Subscriber {
    /// Whether the sink is in order: every span that is entered was made.
    pub closed spec fn wf(&self) -> bool {
        forall|i: int| 0 <= i < self.stack@.len() ==> self.spans@.contains_key(self.stack@[i])
    }

    /// The identifier that was given last; 0 before the first.
    pub closed spec fn last_id(&self) -> u64 {
        self.id
    }

    /// The spans that are entered, the outermost first.
    pub closed spec fn stack(&self) -> Seq<SpanId> {
        self.stack@
    }

    /// The spans that were made, by identifier.
    pub closed spec fn spans(&self) -> Map<SpanId, Attributes> {
        self.spans@
    }

    /// Whether the terminal shows the values of spans.
    pub closed spec fn show_args(&self) -> bool {
        self.show_args
    }

    /// The targets that have a log of their own.
    pub closed spec fn target_logs(&self) -> Seq<Seq<char>> {
        self.target_logs@.map_values(|target: String| target@)
    }

    /// The filters, in the order in which they are asked.
    pub closed spec fn filters(&self) -> Seq<Filter> {
        self.filters@
    }

    /// The names of the spans that are entered, the outermost first.
    pub open spec fn names(&self) -> Seq<Seq<char>> {
        span_names(self.stack(), self.spans())
    }

    /// A sink without spans and without filters.
    pub fn new(custom_target_logs: Vec<String>, show_args: bool) -> (sink: Subscriber)
        ensures
            sink.wf(),
            sink.last_id() == 0,
            sink.stack() == Seq::<SpanId>::empty(),
            sink.spans() == Map::<SpanId, Attributes>::empty(),
            sink.show_args() == show_args,
            sink.target_logs() == custom_target_logs@.map_values(|target: String| target@),
            sink.filters() == Seq::<Filter>::empty(),
    {
        Subscriber {
            id: 0,
            stack: Vec::new(),
            spans: HashMap::new(),
            show_args,
            target_logs: custom_target_logs,
            filters: Vec::new(),
        }
    }

    /// The sink with `filter` behind the filters that it has.
    pub fn filter(self, filter: Filter) -> (sink: Subscriber)
        requires
            self.wf(),
        ensures
            sink.wf(),
            sink.filters() == self.filters().push(filter),
            sink.last_id() == self.last_id(),
            sink.stack() == self.stack(),
            sink.spans() == self.spans(),
            sink.show_args() == self.show_args(),
            sink.target_logs() == self.target_logs(),
    {
        let mut sink = self;
        sink.filter_mut(filter);
        sink
    }

    /// Puts `filter` behind the filters that the sink has.
    pub fn filter_mut(&mut self, filter: Filter)
        requires
            old(self).wf(),
        ensures
            final(self).wf(),
            final(self).filters() == old(self).filters().push(filter),
            final(self).last_id() == old(self).last_id(),
            final(self).stack() == old(self).stack(),
            final(self).spans() == old(self).spans(),
            final(self).show_args() == old(self).show_args(),
            final(self).target_logs() == old(self).target_logs(),
    {
        self.filters.push(filter);
    }

    /// The names of the spans that are entered, the outermost first.
    fn entered_names(&self) -> (names: Vec<&str>)
        requires
            self.wf(),
        ensures
            views(names@) == self.names(),
    {
        let mut names: Vec<&str> = Vec::with_capacity(self.stack.len());
        let mut i: usize = 0;
        while i < self.stack.len()
            invariant
                i <= self.stack@.len(),
                self.wf(),
                names@.len() == i,
                forall|j: int|
                    0 <= j < i ==> (#[trigger] names@[j])@ == self.spans@[self.stack@[j]].name(),
            decreases self.stack@.len() - i,
        {
            let span = self.spans.get(&self.stack[i]).unwrap();
            names.push(span.name_str());
            i = i + 1;
        }
        assert(views(names@) =~= self.names());
        names
    }

    /// Whether an event of this level and target goes to `apply_to`, as the
    /// filters have it for an event raised inside the spans that are
    /// entered.
    pub fn show(&self, level: Level, target: &str, apply_to: ApplyTo) -> (result: bool)
        requires
            self.wf(),
        ensures
            result == shown(self.filters(), level, target@, self.names(), apply_to),
    {
        let names = self.entered_names();
        show(&self.filters, level, target, names.as_slice(), apply_to)
    }

    /// Whether an event of this level and target is wanted at all: whether
    /// the filters for every output let it through.
    pub fn enabled(&self, level: Level, target: &str) -> (result: bool)
        requires
            self.wf(),
        ensures
            result == shown(self.filters(), level, target@, self.names(), ApplyTo::All),
    {
        self.show(level, target, ApplyTo::All)
    }

    /// Whether `span` is the identifier of a span that was made.
    pub fn knows(&self, span: SpanId) -> (known: bool)
        ensures
            known == self.spans().contains_key(span),
    {
        self.spans.contains_key(&span)
    }

    /// Whether one more span can be made: whether an identifier is left.
    pub fn has_room(&self) -> (room: bool)
        ensures
            room == (self.last_id() < u64::MAX),
    {
        self.id < u64::MAX
    }

    /// Makes a span and gives its identifier: one more than the last.
    pub fn new_span(&mut self, span: Attributes) -> (id: SpanId)
        requires
            old(self).wf(),
            old(self).last_id() < u64::MAX,
        ensures
            final(self).wf(),
            id == old(self).last_id() + 1,
            final(self).last_id() == id,
            final(self).spans() == old(self).spans().insert(id, span),
            final(self).stack() == old(self).stack(),
            final(self).filters() == old(self).filters(),
            final(self).show_args() == old(self).show_args(),
            final(self).target_logs() == old(self).target_logs(),
    {
        self.id = self.id + 1;
        self.spans.insert(self.id, span);
        self.id
    }

    /// Enters a span: puts it on the stack, innermost.
    pub fn enter(&mut self, span: SpanId)
        requires
            old(self).wf(),
            old(self).spans().contains_key(span),
        ensures
            final(self).wf(),
            final(self).stack() == old(self).stack().push(span),
            final(self).last_id() == old(self).last_id(),
            final(self).spans() == old(self).spans(),
            final(self).filters() == old(self).filters(),
            final(self).show_args() == old(self).show_args(),
            final(self).target_logs() == old(self).target_logs(),
    {
        self.stack.push(span);
    }

    /// Leaves a span: takes it off the stack, wherever it stands there.
    pub fn exit(&mut self, span: SpanId)
        requires
            old(self).wf(),
        ensures
            final(self).wf(),
            final(self).stack() == without(old(self).stack(), span),
            final(self).last_id() == old(self).last_id(),
            final(self).spans() == old(self).spans(),
            final(self).filters() == old(self).filters(),
            final(self).show_args() == old(self).show_args(),
            final(self).target_logs() == old(self).target_logs(),
    {
        let mut kept: Vec<SpanId> = Vec::with_capacity(self.stack.len());
        let mut i: usize = 0;
        while i < self.stack.len()
            invariant
                i <= self.stack@.len(),
                self.wf(),
                kept@ == without(self.stack@.take(i as int), span),
                forall|j: int| 0 <= j < kept@.len() ==> self.spans@.contains_key(kept@[j]),
            decreases self.stack@.len() - i,
        {
            proof {
                assert(self.stack@.take(i + 1).drop_last() =~= self.stack@.take(i as int));
            }
            if self.stack[i] != span {
                kept.push(self.stack[i]);
            }
            i = i + 1;
        }
        assert(self.stack@.take(i as int) =~= self.stack@);
        self.stack = kept;
    }

    /// Whether `target` has a log of its own.
    pub fn has_log(&self, target: &str) -> (found: bool)
        ensures
            found == self.target_logs().contains(target@),
    {
        let mut i: usize = 0;
        while i < self.target_logs.len()
            invariant
                i <= self.target_logs@.len(),
                forall|j: int| 0 <= j < i ==> self.target_logs()[j] != target@,
            decreases self.target_logs@.len() - i,
        {
            if same_text(self.target_logs[i].as_str(), target) {
                assert(self.target_logs()[i as int] == target@);
                return true;
            }
            i = i + 1;
        }
        false
    }

    /// The spans that are entered as the logs show them.
    fn plain_stack(&self) -> (context: String)
        requires
            self.wf(),
        ensures
            context@ == plain_context(self.stack(), self.spans()),
    {
        proof {
            reveal_strlit("[");
            reveal_strlit("]");
            reveal_strlit(" ");
        }
        let mut context: String = String::new();
        let mut i: usize = 0;
        while i < self.stack.len()
            invariant
                i <= self.stack@.len(),
                self.wf(),
                "["@ == seq!['['],
                "]"@ == seq![']'],
                " "@ == seq![' '],
                context@ == plain_context(self.stack@.take(i as int), self.spans@),
            decreases self.stack@.len() - i,
        {
            let ghost before = context@;
            let ghost upto = self.stack@.take(i + 1);
            let span = self.spans.get(&self.stack[i]).unwrap();
            if i > 0 {
                context.append(" ");
            }
            context.append("[");
            context.append(span.name_str());
            context.append(span.values_str());
            context.append("]");
            proof {
                assert(upto.drop_last() =~= self.stack@.take(i as int));
                assert(upto.last() == self.stack@[i as int]);
                if i == 0 {
                    assert(context@ =~= plain_piece(*span));
                } else {
                    assert(context@ =~= before + seq![' '] + plain_piece(*span));
                }
            }
            i = i + 1;
        }
        assert(self.stack@.take(i as int) =~= self.stack@);
        context
    }

    /// The spans that are entered as the terminal shows them.
    fn colored_stack(&self) -> (context: String)
        requires
            self.wf(),
        ensures
            context@ == colored_context(self.stack(), self.spans(), self.show_args()),
    {
        proof {
            reveal_strlit("[");
            reveal_strlit("]");
            reveal_strlit(" ");
        }
        let mut context: String = String::new();
        let mut i: usize = 0;
        while i < self.stack.len()
            invariant
                i <= self.stack@.len(),
                self.wf(),
                "["@ == seq!['['],
                "]"@ == seq![']'],
                " "@ == seq![' '],
                context@ == colored_context(
                    self.stack@.take(i as int),
                    self.spans@,
                    self.show_args,
                ),
            decreases self.stack@.len() - i,
        {
            let ghost before = context@;
            let ghost upto = self.stack@.take(i + 1);
            let span = self.spans.get(&self.stack[i]).unwrap();
            let name = paint(span.name_str(), Tint::Green);
            if i > 0 {
                context.append(" ");
            }
            context.append("[");
            context.append(name.as_str());
            if self.show_args {
                context.append(span.values_str());
            }
            context.append("]");
            proof {
                assert(upto.drop_last() =~= self.stack@.take(i as int));
                assert(upto.last() == self.stack@[i as int]);
                if i == 0 {
                    assert(context@ =~= colored_piece(*span, self.show_args));
                } else {
                    assert(context@ =~= before + seq![' '] + colored_piece(
                        *span,
                        self.show_args,
                    ));
                }
            }
            i = i + 1;
        }
        assert(self.stack@.take(i as int) =~= self.stack@);
        context
    }

    /// The lines that an event of this level and target comes to, raised at
    /// `time` with `message` inside the spans that are entered.
    ///
    /// The terminal and the log that takes everything each get their line
    /// if the filters for them let the event through; the log of the target
    /// gets the line of the logs if the target has a log and its filters
    /// let the event through.
    pub fn event(&self, level: Level, target: &str, message: &str, time: &str) -> (lines: Lines)
        requires
            self.wf(),
        ensures
            line_view(lines.stdout) == if shown(
                self.filters(),
                level,
                target@,
                self.names(),
                ApplyTo::Stdout,
            ) {
                Some(
                    terminal_line(
                        level,
                        time@,
                        target@,
                        colored_context(self.stack(), self.spans(), self.show_args()),
                        message@,
                    ),
                )
            } else {
                None
            },
            line_view(lines.main_log) == if shown(
                self.filters(),
                level,
                target@,
                self.names(),
                ApplyTo::MainLog,
            ) {
                Some(
                    log_line(level, time@, plain_context(self.stack(), self.spans()), message@),
                )
            } else {
                None
            },
            line_view(lines.target_log) == if self.target_logs().contains(target@) && shown(
                self.filters(),
                level,
                target@,
                self.names(),
                ApplyTo::SpecificLog,
            ) {
                Some(
                    log_line(level, time@, plain_context(self.stack(), self.spans()), message@),
                )
            } else {
                None
            },
    {
        proof {
            reveal_strlit(" [");
            reveal_strlit("] ");
            reveal_strlit("] [");
            reveal_strlit(" ");
        }
        let stdout = if self.show(level, target, ApplyTo::Stdout) {
            let colored_ctx = self.colored_stack();
            let mut line = format_level_colored(level);
            line.append(" [");
            line.append(paint(time, Tint::LightGray).as_str());
            line.append("] [");
            line.append(paint(target, Tint::Blue).as_str());
            line.append("] ");
            line.append(colored_ctx.as_str());
            line.append(" ");
            line.append(message);
            assert(line@ =~= terminal_line(level, time@, target@, colored_ctx@, message@));
            Some(line)
        } else {
            None
        };
        let to_main = self.show(level, target, ApplyTo::MainLog);
        let to_target = self.has_log(target) && self.show(level, target, ApplyTo::SpecificLog);
        let main_log = if to_main {
            Some(self.file_line(level, message, time))
        } else {
            None
        };
        let target_log = if to_target {
            Some(self.file_line(level, message, time))
        } else {
            None
        };
        Lines { stdout, main_log, target_log }
    }

    /// The line of an event in a log.
    fn file_line(&self, level: Level, message: &str, time: &str) -> (line: String)
        requires
            self.wf(),
        ensures
            line@ == log_line(level, time@, plain_context(self.stack(), self.spans()), message@),
    {
        proof {
            reveal_strlit(" [");
            reveal_strlit("] ");
            reveal_strlit(" ");
        }
        let ctx = self.plain_stack();
        let mut line = String::from_str(format_level(level));
        line.append(" [");
        line.append(time);
        line.append("] ");
        line.append(ctx.as_str());
        line.append(" ");
        line.append(message);
        assert(line@ =~= log_line(level, time@, ctx@, message@));
        line
    }
}

} // verus!
