use vstd::prelude::*;

verus! {

/// The kind of a timed interval: a work period, a short break, or a long break.
#[derive(Clone, Copy, Debug, PartialEq, Eq, Structural)]
pub enum IntervalKind {
    Work,
    ShortBreak,
    LongBreak,
}

/// One interval to run: its kind, its length in seconds, and the messages
/// shown when it starts and when it ends.
pub struct State {
    pub kind: IntervalKind,
    pub duration_secs: u64,
    pub start_message: String,
    pub end_message: String,
}

impl State {
    pub fn new(
        kind: IntervalKind,
        duration_secs: u64,
        start_message: String,
        end_message: String,
    ) -> (s: State)
        ensures
            s.kind == kind,
            s.duration_secs == duration_secs,
            s.start_message@ == start_message@,
            s.end_message@ == end_message@,
    {
        State { kind, duration_secs, start_message, end_message }
    }
}

} // verus!
