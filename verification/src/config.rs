use vstd::prelude::*;
use crate::interval::IntervalKind;
use crate::interval::State;

verus! {

/// The fixed settings of the timer: one duration and one pair of start/end
/// messages for each interval kind. Built once and never changed.
///
/// Note: the long-break duration equals the work duration here; the
/// configured values are kept as given.
pub struct Config {
    pub pomodoro_duration_secs: u64,
    pub short_break_duration_secs: u64,
    pub long_break_duration_secs: u64,
    pub pomodoro_start_msg: String,
    pub pomodoro_end_msg: String,
    pub short_break_start_msg: String,
    pub short_break_end_msg: String,
    pub long_break_start_msg: String,
    pub long_break_end_msg: String,
}

impl Config {
    /// The configured duration, in seconds, of an interval of the given kind.
    pub open spec fn duration_of(self, kind: IntervalKind) -> u64 {
        match kind {
            IntervalKind::Work => self.pomodoro_duration_secs,
            IntervalKind::ShortBreak => self.short_break_duration_secs,
            IntervalKind::LongBreak => self.long_break_duration_secs,
        }
    }

    /// The message printed when an interval of the given kind starts.
    pub open spec fn start_message_of(self, kind: IntervalKind) -> Seq<char> {
        match kind {
            IntervalKind::Work => self.pomodoro_start_msg@,
            IntervalKind::ShortBreak => self.short_break_start_msg@,
            IntervalKind::LongBreak => self.long_break_start_msg@,
        }
    }

    /// The message printed when an interval of the given kind ends.
    pub open spec fn end_message_of(self, kind: IntervalKind) -> Seq<char> {
        match kind {
            IntervalKind::Work => self.pomodoro_end_msg@,
            IntervalKind::ShortBreak => self.short_break_end_msg@,
            IntervalKind::LongBreak => self.long_break_end_msg@,
        }
    }

    /// Every duration is strictly positive.
    pub open spec fn wf(self) -> bool {
        &&& self.pomodoro_duration_secs > 0
        &&& self.short_break_duration_secs > 0
        &&& self.long_break_duration_secs > 0
    }

    pub fn new() -> (c: Config)
        ensures
            c.wf(),
            c.pomodoro_duration_secs == 25 * 60,
            c.short_break_duration_secs == 5 * 60,
            c.long_break_duration_secs == 25 * 60,
            c.pomodoro_start_msg@ == "Time to work!"@,
            c.pomodoro_end_msg@ == "Time to rest."@,
            c.short_break_start_msg@ == "Short break."@,
            c.short_break_end_msg@ == "Break is over."@,
            c.long_break_start_msg@ == "Long break."@,
            c.long_break_end_msg@ == "Break is over."@,
    {
        Config {
            pomodoro_duration_secs: 25 * 60,
            short_break_duration_secs: 5 * 60,
            long_break_duration_secs: 25 * 60,
            pomodoro_start_msg: String::from_str("Time to work!"),
            pomodoro_end_msg: String::from_str("Time to rest."),
            short_break_start_msg: String::from_str("Short break."),
            short_break_end_msg: String::from_str("Break is over."),
            long_break_start_msg: String::from_str("Long break."),
            long_break_end_msg: String::from_str("Break is over."),
        }
    }

    /// Builds the descriptor for one interval of the given kind, copying the
    /// configured duration and messages.
    pub fn descriptor_for(&self, kind: IntervalKind) -> (s: State)
        ensures
            s.kind == kind,
            s.duration_secs == self.duration_of(kind),
            s.start_message@ == self.start_message_of(kind),
            s.end_message@ == self.end_message_of(kind),
    {
        match kind {
            IntervalKind::Work => State::new(
                kind,
                self.pomodoro_duration_secs,
                self.pomodoro_start_msg.clone(),
                self.pomodoro_end_msg.clone(),
            ),
            IntervalKind::ShortBreak => State::new(
                kind,
                self.short_break_duration_secs,
                self.short_break_start_msg.clone(),
                self.short_break_end_msg.clone(),
            ),
            IntervalKind::LongBreak => State::new(
                kind,
                self.long_break_duration_secs,
                self.long_break_start_msg.clone(),
                self.long_break_end_msg.clone(),
            ),
        }
    }
}

} // verus!
