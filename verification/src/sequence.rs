use vstd::prelude::*;
use vstd::arithmetic::div_mod::lemma_fundamental_div_mod;
use vstd::arithmetic::div_mod::lemma_fundamental_div_mod_converse;
use crate::config::Config;
use crate::interval::IntervalKind;
use crate::interval::State;

verus! {

/// The kind of the `n`-th interval produced (0-indexed): even positions are
/// work; every fourth break — position 7 modulo 8 — is the long one; the
/// other odd positions are short breaks.
pub open spec fn kind_at(n: nat) -> IntervalKind {
    if n % 2 == 0 {
        IntervalKind::Work
    } else if n % 8 == 7 {
        IntervalKind::LongBreak
    } else {
        IntervalKind::ShortBreak
    }
}

/// The sequencing cursor: whether the previous interval was a break, and how
/// many short breaks have run since the last long one. The ghost count of
/// intervals produced so far determines both fields.
pub struct SequenceState {
    prev_was_break: bool,
    breaks_taken: usize,
    produced: Ghost<nat>,
}

impl SequenceState {
    #[verifier::type_invariant]
    spec fn inv(self) -> bool {
        &&& self.breaks_taken <= 3
        &&& self.prev_was_break == (self.produced@ % 2 == 0)
        &&& self.breaks_taken as nat == (self.produced@ / 2) % 4
    }

    /// How many intervals have been produced so far.
    pub closed spec fn produced(self) -> nat {
        self.produced@
    }
}

/// The generator of the interval sequence: it owns the configuration and a
/// `SequenceState` cursor, and hands out one descriptor per call to `next`,
/// forever.
pub struct Workflow {
    cfg: Config,
    state: SequenceState,
}

impl Workflow {
    /// How many intervals this generator has produced so far.
    pub closed spec fn produced(self) -> nat {
        self.state.produced()
    }

    /// The configuration the descriptors are built from.
    pub closed spec fn config(self) -> Config {
        self.cfg
    }

    /// Whether the previous interval was a break — equivalently, whether a
    /// work interval comes next. A fresh generator behaves as if the previous
    /// interval had been a break, so the first interval is work.
    pub open spec fn was_break(self) -> bool {
        self.produced() % 2 == 0
    }

    /// The break counter: how many short breaks have run since the last long
    /// break. Always in [0, 3]; it reads 3 exactly when the next break is the
    /// long one.
    pub open spec fn break_counter(self) -> nat {
        (self.produced() / 2) % 4
    }

    pub fn new(config: Config) -> (w: Workflow)
        ensures
            w.produced() == 0,
            w.config() == config,
            w.was_break(),
            w.break_counter() == 0,
    {
        Workflow {
            cfg: config,
            state: SequenceState {
                prev_was_break: true,
                breaks_taken: 0,
                produced: Ghost(0),
            },
        }
    }

    /// Produces the next interval of the schedule. Never returns `None`: the
    /// sequence is infinite. The descriptor's kind is `kind_at` of the number
    /// of intervals produced before this call, and its duration and messages
    /// are the configured ones for that kind.
    pub fn next(&mut self) -> (r: Option<State>)
        ensures
            final(self).produced() == old(self).produced() + 1,
            final(self).config() == old(self).config(),
            ({
                &&& r matches Some(s)
                &&& s.kind == kind_at(old(self).produced())
                &&& s.duration_secs == old(self).config().duration_of(s.kind)
                &&& s.start_message@ == old(self).config().start_message_of(s.kind)
                &&& s.end_message@ == old(self).config().end_message_of(s.kind)
            }),
            final(self).break_counter() <= 3,
            (kind_at(old(self).produced()) == IntervalKind::LongBreak) <==> (!old(self).was_break()
                && old(self).break_counter() == 3),
            kind_at(old(self).produced()) == IntervalKind::LongBreak
                ==> final(self).break_counter() == 0,
            kind_at(old(self).produced()) == IntervalKind::ShortBreak
                ==> final(self).break_counter() == old(self).break_counter() + 1,
            kind_at(old(self).produced()) == IntervalKind::Work
                ==> final(self).break_counter() == old(self).break_counter(),
    {
        let ghost n = self.state.produced@;
        proof {
            use_type_invariant(&self.state);
            lemma_advance(n);
        }
        let descriptor: State;
        let new_state: SequenceState;
        if self.state.prev_was_break {
            descriptor = self.cfg.descriptor_for(IntervalKind::Work);
            new_state = SequenceState {
                prev_was_break: false,
                breaks_taken: self.state.breaks_taken,
                produced: Ghost(n + 1),
            };
        } else if self.state.breaks_taken < 3 {
            descriptor = self.cfg.descriptor_for(IntervalKind::ShortBreak);
            new_state = SequenceState {
                prev_was_break: true,
                breaks_taken: self.state.breaks_taken + 1,
                produced: Ghost(n + 1),
            };
        } else {
            descriptor = self.cfg.descriptor_for(IntervalKind::LongBreak);
            new_state = SequenceState {
                prev_was_break: true,
                breaks_taken: 0,
                produced: Ghost(n + 1),
            };
        }
        self.state = new_state;
        Some(descriptor)
    }
}

/// The schedule repeats with period eight: four work intervals alternating
/// with three short breaks, then the long break.
pub proof fn lemma_schedule_period(n: nat)
    ensures
        kind_at(n + 8) == kind_at(n),
{
    let ni = n as int;
    lemma_fundamental_div_mod(ni, 2);
    lemma_fundamental_div_mod_converse(ni + 8, 2, ni / 2 + 4, ni % 2);
    lemma_fundamental_div_mod(ni, 8);
    lemma_fundamental_div_mod_converse(ni + 8, 8, ni / 8 + 1, ni % 8);
}

/// The first eight intervals: work at the even positions, short breaks at
/// positions 1, 3 and 5, and the long break at position 7.
pub proof fn lemma_first_cycle()
    ensures
        kind_at(0) == IntervalKind::Work,
        kind_at(1) == IntervalKind::ShortBreak,
        kind_at(2) == IntervalKind::Work,
        kind_at(3) == IntervalKind::ShortBreak,
        kind_at(4) == IntervalKind::Work,
        kind_at(5) == IntervalKind::ShortBreak,
        kind_at(6) == IntervalKind::Work,
        kind_at(7) == IntervalKind::LongBreak,
{
}

/// The break counter never leaves [0, 3], and it reads 3 — with a break due —
/// exactly when the interval about to be produced is the long break.
pub proof fn lemma_break_counter_invariant(w: Workflow)
    ensures
        w.break_counter() <= 3,
        (w.break_counter() == 3 && !w.was_break()) <==> kind_at(w.produced())
            == IntervalKind::LongBreak,
{
    lemma_advance(w.produced());
}

/// Determinism: two generators that have produced the same number of
/// intervals agree on the whole sequencing cursor and on the kind of every
/// interval still to come, whatever configurations they carry.
pub proof fn lemma_deterministic(a: Workflow, b: Workflow, k: nat)
    requires
        a.produced() == b.produced(),
    ensures
        a.was_break() == b.was_break(),
        a.break_counter() == b.break_counter(),
        kind_at(a.produced() + k) == kind_at(b.produced() + k),
{
}

/// How one production step moves the counters: advancing from `n` produced
/// intervals to `n + 1` flips the parity, and the break counter — `(n / 2)`
/// modulo 4 — steps up after a short break and wraps to 0 after the long one,
/// which comes exactly at positions 7 modulo 8.
proof fn lemma_advance(n: nat)
    ensures
        n % 2 == 0 ==> (n + 1) % 2 == 1 && (n + 1) / 2 == n / 2,
        n % 2 == 1 ==> (n + 1) % 2 == 0 && (n + 1) / 2 == n / 2 + 1,
        n % 2 == 1 && (n / 2) % 4 < 3 ==> n % 8 != 7 && ((n + 1) / 2) % 4 == (n / 2) % 4 + 1,
        n % 2 == 1 && (n / 2) % 4 == 3 ==> n % 8 == 7 && ((n + 1) / 2) % 4 == 0,
{
    let ni = n as int;
    lemma_fundamental_div_mod(ni, 2);
    if n % 2 == 0 {
        lemma_fundamental_div_mod_converse(ni + 1, 2, ni / 2, 1);
    } else {
        lemma_fundamental_div_mod_converse(ni + 1, 2, ni / 2 + 1, 0);
        let q = ni / 2;
        lemma_fundamental_div_mod(q, 4);
        let p = q / 4;
        let c = q % 4;
        lemma_fundamental_div_mod_converse(ni, 8, p, 2 * c + 1);
        if c < 3 {
            lemma_fundamental_div_mod_converse(q + 1, 4, p, c + 1);
        } else {
            lemma_fundamental_div_mod_converse(q + 1, 4, p + 1, 0);
        }
    }
}

} // verus!
