use vstd::prelude::*;

verus! {

/// Whole seconds elapsed since `start`, never less than one.
pub open spec fn elapsed_seconds(start: int, now: int) -> int {
    if now - start >= 1 {
        now - start
    } else {
        1
    }
}

/// Share of the text typed, in whole percent, capped at 100; 0 for an empty text.
pub open spec fn progress_of(typed: int, total: int) -> int {
    if total > 0 {
        if 100 * typed / total > 100 {
            100
        } else {
            100 * typed / total
        }
    } else {
        0
    }
}

/// Characters per minute: whole characters per second, then times sixty.
pub open spec fn speed_of(typed: int, start: int, now: int) -> int {
    (typed / elapsed_seconds(start, now)) * 60
}

/// Running counters of a practice session.
pub struct SessionStats {
    pub total: u64,
    pub typed: u64,
    pub precise: u64,
    pub mistakes: u64,
    pub start_time: u64,
}

impl SessionStats {
    /// Every keystroke counted is either precise or a mistake.
    pub open spec fn wf(&self) -> bool {
        self.precise + self.mistakes == self.typed
    }

    pub fn new(total: u64, start_time: u64) -> (r: SessionStats)
        ensures
            r.wf(),
            r.total == total,
            r.start_time == start_time,
            r.typed == 0,
            r.precise == 0,
            r.mistakes == 0,
    {
        SessionStats { total, typed: 0, precise: 0, mistakes: 0, start_time }
    }

    pub fn on_correct(&mut self)
        requires
            old(self).wf(),
            old(self).typed < u64::MAX,
        ensures
            final(self).wf(),
            final(self).precise == old(self).precise + 1,
            final(self).typed == old(self).typed + 1,
            final(self).mistakes == old(self).mistakes,
            final(self).total == old(self).total,
            final(self).start_time == old(self).start_time,
    {
        self.precise = self.precise + 1;
        self.typed = self.typed + 1;
    }

    pub fn on_mistake(&mut self)
        requires
            old(self).wf(),
            old(self).typed < u64::MAX,
        ensures
            final(self).wf(),
            final(self).mistakes == old(self).mistakes + 1,
            final(self).typed == old(self).typed + 1,
            final(self).precise == old(self).precise,
            final(self).total == old(self).total,
            final(self).start_time == old(self).start_time,
    {
        self.mistakes = self.mistakes + 1;
        self.typed = self.typed + 1;
    }

    pub fn progress_percent(&self) -> (r: u64)
        ensures
            r == progress_of(self.typed as int, self.total as int),
            r <= 100,
    {
        if self.total == 0 {
            return 0;
        }
        let t: u128 = self.typed as u128;
        proof {
            assert(t * 100 <= u64::MAX as int * 100) by (nonlinear_arith)
                requires t <= u64::MAX;
        }
        let q: u128 = t * 100 / (self.total as u128);
        if q > 100 {
            100
        } else {
            q as u64
        }
    }

    pub fn speed_cpm(&self, now: u64) -> (r: u128)
        ensures
            r == speed_of(self.typed as int, self.start_time as int, now as int),
    {
        let sec: u64 = if now > self.start_time && now - self.start_time >= 1 {
            now - self.start_time
        } else {
            1
        };
        let t: u64 = self.typed;
        let per_sec: u64 = t / sec;
        proof {
            assert(per_sec <= t) by (nonlinear_arith)
                requires sec >= 1, per_sec == t / sec, t >= 0;
        }
        (per_sec as u128) * 60
    }
}

/// The progress shown never leaves 0 to 100.
pub proof fn lemma_progress_in_range(typed: nat, total: nat)
    ensures
        0 <= progress_of(typed as int, total as int) <= 100,
{
    if total > 0 {
        assert(100 * typed / total >= 0) by (nonlinear_arith)
            requires total > 0;
    }
}

/// With nothing to type the progress is 0, with no division by zero.
pub proof fn lemma_progress_of_empty_text(typed: nat)
    ensures
        progress_of(typed as int, 0) == 0,
{
}

/// The speed is never negative, and two readings with the same count and the
/// same elapsed seconds agree.
pub proof fn lemma_speed_by_typed_and_elapsed(typed: nat, start1: int, now1: int, start2: int, now2: int)
    requires
        elapsed_seconds(start1, now1) == elapsed_seconds(start2, now2),
    ensures
        speed_of(typed as int, start1, now1) >= 0,
        speed_of(typed as int, start1, now1) == speed_of(typed as int, start2, now2),
{
    let s = elapsed_seconds(start1, now1);
    assert(typed as int / s >= 0) by (nonlinear_arith)
        requires s >= 1;
}

} // verus!
