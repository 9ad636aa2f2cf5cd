//! Which events a sink shows: filters by level, by target and by span.

use vstd::prelude::*;
use crate::text::holds_text;
use crate::text::same_text;
use crate::text::views;

verus! {

/// How grave an event is, the gravest first.
#[derive(Clone, Copy, Debug, PartialEq, Eq, Structural)]
pub enum Level {
    /// Something went wrong.
    Error,
    /// Something may go wrong.
    Warn,
    /// Worth knowing.
    Info,
    /// For whoever looks for a fault.
    Debug,
    /// Every step.
    Trace,
}

impl Level {
    /// The place of the level in the order: 0 for the gravest, 4 for the
    /// wordiest.
    pub open spec fn rank(self) -> nat {
        match self {
            Level::Error => 0,
            Level::Warn => 1,
            Level::Info => 2,
            Level::Debug => 3,
            Level::Trace => 4,
        }
    }

    fn rank_of(self) -> (rank: u8)
        ensures
            rank == self.rank(),
    {
        match self {
            Level::Error => 0,
            Level::Warn => 1,
            Level::Info => 2,
            Level::Debug => 3,
            Level::Trace => 4,
        }
    }

    /// Whether this level is no wordier than `limit`.
    pub fn within(self, limit: Level) -> (within: bool)
        ensures
            within == (self.rank() <= limit.rank()),
    {
        self.rank_of() <= limit.rank_of()
    }
}

/// The output that a filter speaks of.
#[derive(Clone, Copy, Debug, PartialEq, Eq, Structural)]
pub enum ApplyTo {
    /// The terminal.
    Stdout,
    /// The log that takes everything.
    MainLog,
    /// The log of one target.
    SpecificLog,
    /// Every output.
    All,
}

/// The events that a filter speaks of, by where they come from.
#[derive(Debug)]
pub enum TargetKind {
    /// Events of this target.
    Target(&'static str),
    /// Events of any of these targets.
    Targets(Vec<&'static str>),
    /// Events inside a span of this name.
    Span(&'static str),
    /// Events inside a span of any of these names.
    Spans(Vec<&'static str>),
}

impl TargetKind {
    /// Whether an event of `target`, raised inside the spans named `spans`,
    /// is one that this kind speaks of.
    pub open spec fn covers(&self, target: Seq<char>, spans: Seq<Seq<char>>) -> bool {
        match self {
            TargetKind::Target(t) => t@ == target,
            TargetKind::Targets(ts) => views(ts@).contains(target),
            TargetKind::Span(s) => spans.contains(s@),
            TargetKind::Spans(ss) => exists|i: int|
                0 <= i < ss@.len() && spans.contains(#[trigger] views(ss@)[i]),
        }
    }

    /// Whether an event of `target`, raised inside the spans named `spans`,
    /// is one that this kind speaks of.
    pub fn matches(&self, target: &str, spans: &[&str]) -> (covered: bool)
        ensures
            covered == self.covers(target@, views(spans@)),
    {
        match self {
            TargetKind::Target(t) => same_text(t, target),
            TargetKind::Targets(ts) => holds_text(ts.as_slice(), target),
            TargetKind::Span(s) => holds_text(spans, s),
            TargetKind::Spans(ss) => {
                let mut i: usize = 0;
                while i < ss.len()
                    invariant
                        i <= ss@.len(),
                        *self == TargetKind::Spans(*ss),
                        forall|j: int|
                            0 <= j < i ==> !views(spans@).contains(#[trigger] views(ss@)[j]),
                    decreases ss@.len() - i,
                {
                    if holds_text(spans, ss[i]) {
                        assert(self matches TargetKind::Spans(list) && list@ == ss@);
                        assert(views(spans@).contains(views(ss@)[i as int]));
                        return true;
                    }
                    i = i + 1;
                }
                false
            },
        }
    }
}

/// A rule on what one output shows.
#[derive(Debug)]
pub struct Filter {
    level: Option<Level>,
    target: Option<TargetKind>,
    apply_to: ApplyTo,
}

impl Filter {
    /// The wordiest level that the filter lets through; `None` lets
    /// nothing through.
    pub closed spec fn level(&self) -> Option<Level> {
        self.level
    }

    /// The events that the filter speaks of; `None` is all of them.
    pub closed spec fn target(&self) -> Option<TargetKind> {
        self.target
    }

    /// The output that the filter speaks of.
    pub closed spec fn apply_to(&self) -> ApplyTo {
        self.apply_to
    }

    /// A filter for the output `apply_to`.
    ///
    /// With no level, nothing of the target is shown; `Some(Level::Trace)`
    /// shows all of it. With no target, the filter speaks of every event.
    pub fn new(level: Option<Level>, target: Option<TargetKind>, apply_to: ApplyTo) -> (filter:
        Filter)
        ensures
            filter.level() == level,
            filter.target() == target,
            filter.apply_to() == apply_to,
    {
        Filter { level, target, apply_to }
    }

    /// Whether the filter is one of those asked when something may go to
    /// `output`: those for that output and those for every output.
    pub open spec fn concerns(&self, output: ApplyTo) -> bool {
        self.apply_to() == output || self.apply_to() == ApplyTo::All
    }

    /// What the filter says of an event of this level and target, raised
    /// inside the spans named `spans`: nothing where it does not speak of
    /// the event, else whether the level is let through.
    pub open spec fn verdict(
        &self,
        level: Level,
        target: Seq<char>,
        spans: Seq<Seq<char>>,
    ) -> Option<bool> {
        let covered = match self.target() {
            None => true,
            Some(kind) => kind.covers(target, spans),
        };
        if covered {
            Some(
                match self.level() {
                    None => false,
                    Some(limit) => level.rank() <= limit.rank(),
                },
            )
        } else {
            None
        }
    }

    /// Whether the filter is asked when something may go to `output`.
    pub fn applies(&self, output: ApplyTo) -> (asked: bool)
        ensures
            asked == self.concerns(output),
    {
        self.apply_to == output || self.apply_to == ApplyTo::All
    }

    /// What the filter says of an event: see `verdict`.
    pub fn should_show(&self, level: Level, target: &str, spans: &[&str]) -> (shown: Option<bool>)
        ensures
            shown == self.verdict(level, target@, views(spans@)),
    {
        let should_show_level = match &self.level {
            None => false,
            Some(limit) => level.within(*limit),
        };
        let should_show_target = match &self.target {
            None => true,
            Some(kind) => kind.matches(target, spans),
        };
        if should_show_target {
            Some(should_show_level)
        } else {
            None
        }
    }
}

/// Whether an event of this level and target, raised inside the spans named
/// `spans`, goes to `output` under `filters`: the first filter for that
/// output that speaks of the event decides; where none does, it is shown.
pub open spec fn shown(
    filters: Seq<Filter>,
    level: Level,
    target: Seq<char>,
    spans: Seq<Seq<char>>,
    output: ApplyTo,
) -> bool
    decreases filters.len(),
{
    if filters.len() == 0 {
        true
    } else if filters[0].concerns(output) && filters[0].verdict(level, target, spans) is Some {
        filters[0].verdict(level, target, spans)->Some_0
    } else {
        shown(filters.skip(1), level, target, spans, output)
    }
}

/// Whether an event goes to `output` under `filters`: see `shown`.
pub fn show(filters: &Vec<Filter>, level: Level, target: &str, spans: &[&str], output: ApplyTo) -> (
    result: bool
)
    ensures
        result == shown(filters@, level, target@, views(spans@), output),
{
    let mut i: usize = 0;
    assert(filters@.skip(0) =~= filters@);
    while i < filters.len()
        invariant
            i <= filters@.len(),
            shown(filters@, level, target@, views(spans@), output) == shown(
                filters@.skip(i as int),
                level,
                target@,
                views(spans@),
                output,
            ),
        decreases filters@.len() - i,
    {
        let ghost rest = filters@.skip(i as int);
        assert(rest[0] == filters@[i as int]);
        assert(rest.skip(1) =~= filters@.skip(i + 1));
        if filters[i].applies(output) {
            match filters[i].should_show(level, target, spans) {
                Some(verdict) => {
                    return verdict;
                },
                None => {},
            }
        }
        i = i + 1;
    }
    true
}

} // verus!
