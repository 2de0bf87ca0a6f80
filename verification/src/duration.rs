//! The stopwatch of an attempt and the record of a run.

use vstd::prelude::*;
use crate::history::History;
use crate::level::{level_in_range, LEVEL_COUNT};

verus! {

/// A span of time in nanoseconds.
pub type Nanos = u128;

/// The longest span that is ever measured: `u64::MAX` seconds and
/// 999,999,999 nanoseconds. A stopwatch that reaches it stays there.
pub const MAX_NANOS: Nanos = 18_446_744_073_709_551_615_999_999_999;

/// The reading of a stopwatch at `elapsed` after `delta` more has passed.
pub open spec fn ticked(elapsed: nat, delta: nat) -> nat {
    if elapsed + delta > MAX_NANOS {
        MAX_NANOS as nat
    } else {
        elapsed + delta
    }
}

/// Sum of a sequence of spans.
pub open spec fn sum_of(spans: Seq<nat>) -> nat
    decreases spans.len(),
{
    if spans.len() == 0 {
        0
    } else {
        sum_of(spans.drop_last()) + spans.last()
    }
}

/// The stopwatch of the current attempt. It only moves forward, and only
/// when it is ticked.
#[derive(Debug)]
pub struct LevelDuration {
    elapsed: Nanos,
}

impl View for LevelDuration {
    type V = nat;

    closed spec fn view(&self) -> nat {
        self.elapsed as nat
    }
}

impl LevelDuration {
    #[verifier::type_invariant]
    closed spec fn bounded(self) -> bool {
        self.elapsed <= MAX_NANOS
    }

    /// A stopwatch at zero.
    pub fn new() -> (w: LevelDuration)
        ensures
            w@ == 0,
    {
        LevelDuration { elapsed: 0 }
    }

    /// The time measured so far.
    pub fn elapsed(&self) -> (t: Nanos)
        ensures
            t == self@,
            t <= MAX_NANOS,
    {
        proof {
            use_type_invariant(self);
        }
        self.elapsed
    }

    /// Moves the stopwatch forward by `delta`, stopping at the longest span.
    pub fn tick(&mut self, delta: Nanos)
        ensures
            final(self)@ == ticked(old(self)@, delta as nat),
            final(self)@ >= old(self)@,
    {
        proof {
            use_type_invariant(&*self);
        }
        if delta >= MAX_NANOS - self.elapsed {
            self.elapsed = MAX_NANOS;
        } else {
            self.elapsed = self.elapsed + delta;
        }
    }

    /// Puts the stopwatch back to zero.
    pub fn reset(&mut self)
        ensures
            final(self)@ == 0,
    {
        self.elapsed = 0;
    }
}

/// The time each level of the run took: one slot per level, zero until the
/// level is left.
#[derive(Debug)]
pub struct RunDuration {
    results: [Nanos; LEVEL_COUNT],
}

impl View for RunDuration {
    type V = Seq<nat>;

    closed spec fn view(&self) -> Seq<nat> {
        Seq::new(LEVEL_COUNT as nat, |i: int| self.results@[i] as nat)
    }
}

impl RunDuration {
    #[verifier::type_invariant]
    closed spec fn bounded(self) -> bool {
        forall|i: int| 0 <= i < LEVEL_COUNT ==> #[trigger] self.results@[i] <= MAX_NANOS
    }

    /// A run in which no level has been left yet.
    pub fn new() -> (r: RunDuration)
        ensures
            r@ == Seq::new(LEVEL_COUNT as nat, |i: int| 0nat),
    {
        let r: RunDuration = RunDuration { results: [0; LEVEL_COUNT] };
        assert(r@ =~= Seq::new(LEVEL_COUNT as nat, |i: int| 0nat));
        r
    }

    /// Puts every slot back to zero.
    pub fn reset(&mut self)
        ensures
            final(self)@ == Seq::new(LEVEL_COUNT as nat, |i: int| 0nat),
    {
        self.results = [0; LEVEL_COUNT];
        assert(self@ =~= Seq::new(LEVEL_COUNT as nat, |i: int| 0nat));
    }

    /// Writes the reading of `stopwatch` into the slot of `level`. No other
    /// slot changes.
    pub fn record(&mut self, level: usize, stopwatch: &LevelDuration)
        requires
            level_in_range(level as int),
        ensures
            final(self)@ == old(self)@.update(level - 1, stopwatch@),
    {
        proof {
            use_type_invariant(&*self);
            use_type_invariant(stopwatch);
        }
        let t: Nanos = stopwatch.elapsed();
        self.results[level - 1] = t;
        assert(self@ =~= old(self)@.update(level - 1, stopwatch@));
    }

    /// The time recorded for `level`.
    pub fn get(&self, level: usize) -> (t: Nanos)
        requires
            level_in_range(level as int),
        ensures
            t == self@[level - 1],
            t <= MAX_NANOS,
    {
        proof {
            use_type_invariant(self);
        }
        self.results[level - 1]
    }

    /// The slots in level order.
    pub fn results(&self) -> (all: Vec<Nanos>)
        ensures
            all@.len() == LEVEL_COUNT,
            forall|i: int| 0 <= i < LEVEL_COUNT ==> all@[i] == self@[i],
    {
        let mut all: Vec<Nanos> = Vec::new();
        let mut i: usize = 0;
        while i < LEVEL_COUNT
            invariant
                i <= LEVEL_COUNT,
                all@.len() == i,
                forall|j: int| 0 <= j < i ==> all@[j] == self@[j],
            decreases LEVEL_COUNT - i,
        {
            all.push(self.results[i]);
            i = i + 1;
        }
        all
    }

    /// Total time of the run so far: every recorded level and the attempt in
    /// progress.
    pub fn total(&self, stopwatch: &LevelDuration) -> (t: Nanos)
        ensures
            t == sum_of(self@) + stopwatch@,
    {
        proof {
            use_type_invariant(self);
            use_type_invariant(stopwatch);
        }
        let mut t: Nanos = 0;
        let mut i: usize = 0;
        while i < LEVEL_COUNT
            invariant
                i <= LEVEL_COUNT,
                t == sum_of(self@.take(i as int)),
                t <= i * MAX_NANOS,
                forall|j: int| 0 <= j < LEVEL_COUNT ==> #[trigger] self.results@[j] <= MAX_NANOS,
            decreases LEVEL_COUNT - i,
        {
            assert(self@.take(i + 1).drop_last() =~= self@.take(i as int));
            assert(self@.take(i + 1).last() == self.results@[i as int]);
            t = t + self.results[i];
            i = i + 1;
        }
        assert(self@.take(LEVEL_COUNT as int) =~= self@);
        t + stopwatch.elapsed()
    }
}

/// Clears the record of a run; done whenever a session starts.
pub fn reset_run_duration(run_duration: &mut RunDuration)
    ensures
        final(run_duration)@ == Seq::new(LEVEL_COUNT as nat, |i: int| 0nat),
{
    run_duration.reset();
}

/// Reacts to `respawns` respawn events: the stopwatch goes back to zero when
/// at least one arrived and no checkpoint is on record, which is a true
/// restart. A respawn at a checkpoint never touches it.
pub fn reset_timer(respawns: usize, timer: &mut LevelDuration, history: &History)
    ensures
        final(timer)@ == if history@.len() == 0 && respawns > 0 {
            0
        } else {
            old(timer)@
        },
{
    if !history.empty() {
        return ;
    }
    if respawns > 0 {
        timer.reset();
    }
}

/// Ticking moves a stopwatch forward, never back, and ticking by nothing
/// leaves it where it is.
pub proof fn lemma_tick_monotonic(elapsed: nat, delta: nat)
    requires
        elapsed <= MAX_NANOS,
    ensures
        elapsed <= ticked(elapsed, delta) <= MAX_NANOS,
        ticked(elapsed, 0) == elapsed,
{
}

} // verus!
