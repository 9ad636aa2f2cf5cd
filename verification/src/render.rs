//! How an event is written out: level names, colours, and the values of a
//! span.

use vstd::prelude::*;
use vstd::string::StringExecFns;
use colorful::Color;
use colorful::Colorful;
use crate::filter::Level;
use crate::text::dot_path;
use crate::text::dotted;
use crate::text::same_text;
use crate::text::trim_braces;
use crate::text::without_braces;

verus! {

/// The colours in which the terminal shows parts of an event.
#[derive(Clone, Copy, Debug, PartialEq, Eq, Structural)]
pub enum Tint {
    Red,
    Green,
    Yellow,
    Blue,
    LightGray,
    LightGreen,
    LightCyan,
    White,
}

/// The number of a colour among the 256 colours of a terminal, in digits.
pub open spec fn color_code(tint: Tint) -> Seq<char> {
    match tint {
        Tint::Red => seq!['1'],
        Tint::Green => seq!['2'],
        Tint::Yellow => seq!['3'],
        Tint::Blue => seq!['4'],
        Tint::LightGray => seq!['7'],
        Tint::LightGreen => seq!['1', '0'],
        Tint::LightCyan => seq!['1', '4'],
        Tint::White => seq!['1', '5'],
    }
}

/// `text` between the escape sequence that sets the foreground colour and
/// the one that resets it.
pub open spec fn painted(tint: Tint, text: Seq<char>) -> Seq<char> {
    seq!['\x1b', '[', '3', '8', ';', '5', ';'] + color_code(tint) + seq!['m'] + text + seq![
        '\x1b',
        '[',
        '0',
        'm',
    ]
}

/// `colorful::Colorful::color` on a string slice, written out through the
/// `Display` of the `CString` that it gives: the text with a foreground
/// colour and nothing else set. The claim is that this writes the escape
/// sequence for one of the 256 colours with the colour's number, then the
/// text, then the reset sequence.
#[verifier::external_body]
pub(crate) fn paint(text: &str, tint: Tint) -> (colored: String)
    ensures
        colored@ == painted(tint, text@),
{
    let color = match tint {
        Tint::Red => Color::Red,
        Tint::Green => Color::Green,
        Tint::Yellow => Color::Yellow,
        Tint::Blue => Color::Blue,
        Tint::LightGray => Color::LightGray,
        Tint::LightGreen => Color::LightGreen,
        Tint::LightCyan => Color::LightCyan,
        Tint::White => Color::White,
    };
    text.color(color).to_string()
}

/// The name of a level, five characters wide.
pub open spec fn level_name(level: Level) -> Seq<char> {
    match level {
        Level::Trace => seq!['T', 'R', 'A', 'C', 'E'],
        Level::Debug => seq!['D', 'E', 'B', 'U', 'G'],
        Level::Info => seq!['I', 'N', 'F', 'O', ' '],
        Level::Warn => seq!['W', 'A', 'R', 'N', ' '],
        Level::Error => seq!['E', 'R', 'R', 'O', 'R'],
    }
}

/// The colour in which the terminal shows a level.
pub open spec fn level_tint(level: Level) -> Tint {
    match level {
        Level::Trace => Tint::White,
        Level::Debug => Tint::LightGreen,
        Level::Info => Tint::LightCyan,
        Level::Warn => Tint::Yellow,
        Level::Error => Tint::Red,
    }
}

/// The name of a level, five characters wide.
pub fn format_level(level: Level) -> (name: &'static str)
    ensures
        name@ == level_name(level),
{
    proof {
        reveal_strlit("TRACE");
        reveal_strlit("DEBUG");
        reveal_strlit("INFO ");
        reveal_strlit("WARN ");
        reveal_strlit("ERROR");
    }
    let name = match level {
        Level::Trace => "TRACE",
        Level::Debug => "DEBUG",
        Level::Info => "INFO ",
        Level::Warn => "WARN ",
        Level::Error => "ERROR",
    };
    assert(name@ =~= level_name(level));
    name
}

/// The name of a level in the level's colour.
pub fn format_level_colored(level: Level) -> (name: String)
    ensures
        name@ == painted(level_tint(level), level_name(level)),
{
    let tint = match level {
        Level::Trace => Tint::White,
        Level::Debug => Tint::LightGreen,
        Level::Info => Tint::LightCyan,
        Level::Warn => Tint::Yellow,
        Level::Error => Tint::Red,
    };
    paint(format_level(level), tint)
}

/// The name of the log that takes everything.
pub const MAIN_LOG: &'static str = "main.log";

/// The name of the log of `target`: the target with dots for its pairs of
/// colons, then `.log`.
pub open spec fn log_name(target: Seq<char>) -> Seq<char> {
    dotted(target) + seq!['.', 'l', 'o', 'g']
}

/// The name of the log of `target`.
pub fn log_file_name(target: &str) -> (name: String)
    ensures
        name@ == log_name(target@),
{
    proof {
        reveal_strlit(".log");
    }
    let mut name = dot_path(target);
    name.append(".log");
    assert(name@ =~= log_name(target@));
    name
}

/// The values of a span as they are shown: what is left of `raw` without
/// the braces at its ends, in round brackets; nothing where nothing is
/// left.
pub open spec fn shown_values(raw: Seq<char>) -> Seq<char> {
    let inner = without_braces(raw);
    if inner.len() == 0 {
        inner
    } else {
        seq!['('] + inner + seq![')']
    }
}

/// What is kept of a span: its name, target and level, and its values as
/// they are shown.
#[derive(Debug)]
pub struct Attributes {
    name: String,
    target: String,
    level: Level,
    values: String,
}

impl Attributes {
    /// The name of the span.
    pub closed spec fn name(&self) -> Seq<char> {
        self.name@
    }

    /// The target of the span.
    pub closed spec fn target(&self) -> Seq<char> {
        self.target@
    }

    /// The level of the span.
    pub closed spec fn level(&self) -> Level {
        self.level
    }

    /// The values of the span, as they are shown.
    pub closed spec fn values(&self) -> Seq<char> {
        self.values@
    }

    /// What is kept of a span of this name, target and level whose values
    /// are written `values`.
    pub fn from(name: &str, target: &str, level: Level, values: &str) -> (attributes: Attributes)
        ensures
            attributes.name() == name@,
            attributes.target() == target@,
            attributes.level() == level,
            attributes.values() == shown_values(values@),
    {
        proof {
            reveal_strlit("(");
            reveal_strlit(")");
        }
        let inner = trim_braces(values);
        let shown = if inner.as_str().is_empty() {
            inner
        } else {
            let mut wrapped = String::from_str("(");
            wrapped.append(inner.as_str());
            wrapped.append(")");
            assert(wrapped@ =~= shown_values(values@));
            wrapped
        };
        Attributes {
            name: String::from_str(name),
            target: String::from_str(target),
            level,
            values: shown,
        }
    }

    /// The name of the span.
    pub fn name_str(&self) -> (name: &str)
        ensures
            name@ == self.name(),
    {
        self.name.as_str()
    }

    /// The values of the span, as they are shown.
    pub fn values_str(&self) -> (values: &str)
        ensures
            values@ == self.values(),
    {
        self.values.as_str()
    }
}

/// Picks the value of one field out of the fields of an event.
#[derive(Debug)]
pub struct MessageVisitor {
    message: String,
    field_name: &'static str,
}

impl MessageVisitor {
    /// The value that was picked; empty until the field has been seen.
    pub closed spec fn message(&self) -> Seq<char> {
        self.message@
    }

    /// The name of the field to pick.
    pub closed spec fn field_name(&self) -> Seq<char> {
        self.field_name@
    }

    /// A visitor that picks the field `field_name`.
    pub fn new(field_name: &'static str) -> (visitor: MessageVisitor)
        ensures
            visitor.message() == Seq::<char>::empty(),
            visitor.field_name() == field_name@,
    {
        MessageVisitor { message: String::new(), field_name }
    }

    /// Sees the field `field` with the value written `value`: keeps the
    /// value if the field is the one to pick.
    pub fn record_debug(&mut self, field: &str, value: String)
        ensures
            final(self).field_name() == old(self).field_name(),
            final(self).message() == if field@ == old(self).field_name() {
                value@
            } else {
                old(self).message()
            },
    {
        if same_text(field, self.field_name) {
            self.message = value;
        }
    }

    /// The value that was picked.
    pub fn into_message(self) -> (message: String)
        ensures
            message@ == self.message(),
    {
        self.message
    }
}

} // verus!
