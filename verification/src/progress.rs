use vstd::prelude::*;

verus! {

/// Fatigue added by each shot, in milliseconds of confirmation delay.
pub const FATIGUE_STEP_MS: u32 = 200;

/// Largest fatigue, in milliseconds of confirmation delay.
pub const FATIGUE_MAX_MS: u32 = 1000;

/// The score of a run: shots, losses, fatigue, whether the hole is reached,
/// and the run clock.
#[derive(Debug)]
pub struct Progress {
    hits: usize,
    deaths: usize,
    fatigue_ms: u32,
    finished: bool,
    run_ms: u64,
}

/// Mathematical value of a `Progress`.
pub struct ProgressView {
    pub hits: nat,
    pub deaths: nat,
    pub fatigue_ms: nat,
    pub finished: bool,
    pub run_ms: nat,
}

impl View for Progress {
    type V = ProgressView;

    closed spec fn view(&self) -> ProgressView {
        ProgressView {
            hits: self.hits as nat,
            deaths: self.deaths as nat,
            fatigue_ms: self.fatigue_ms as nat,
            finished: self.finished,
            run_ms: self.run_ms as nat,
        }
    }
}

/// The fatigue after one more shot: one step more, but never above the maximum.
pub open spec fn fatigue_after_hit(fatigue_ms: nat) -> nat {
    if fatigue_ms + FATIGUE_STEP_MS <= FATIGUE_MAX_MS {
        fatigue_ms + (FATIGUE_STEP_MS as nat)
    } else {
        FATIGUE_MAX_MS as nat
    }
}

/// The progress at the start of a run.
pub open spec fn initial_progress() -> ProgressView {
    ProgressView { hits: 0, deaths: 0, fatigue_ms: 0, finished: false, run_ms: 0 }
}

/// Fatigue is a whole number of steps, at most the maximum.
pub open spec fn fatigue_valid(fatigue_ms: nat) -> bool {
    fatigue_ms <= FATIGUE_MAX_MS && fatigue_ms % (FATIGUE_STEP_MS as nat) == 0
}

impl Progress {
    #[verifier::type_invariant]
    closed spec fn inv(self) -> bool {
        fatigue_valid(self.fatigue_ms as nat)
    }

    /// The progress of a new run: no shots, no losses, no fatigue, not finished,
    /// clock at zero.
    pub fn new() -> (p: Self)
        ensures
            p@ == initial_progress(),
    {
        Progress { hits: 0, deaths: 0, fatigue_ms: 0, finished: false, run_ms: 0 }
    }

    /// Number of shots played.
    pub fn hits(&self) -> (r: usize)
        ensures
            r == self@.hits,
    {
        self.hits
    }

    /// Number of times the ball was lost.
    pub fn deaths(&self) -> (r: usize)
        ensures
            r == self@.deaths,
    {
        self.deaths
    }

    /// Current fatigue: the delay, in milliseconds, before a gauge click takes effect.
    pub fn fatigue_ms(&self) -> (r: u32)
        ensures
            r == self@.fatigue_ms,
            fatigue_valid(r as nat),
    {
        proof {
            use_type_invariant(self);
        }
        self.fatigue_ms
    }

    /// Whether the hole has been reached.
    pub fn finished(&self) -> (r: bool)
        ensures
            r == self@.finished,
    {
        self.finished
    }

    /// Time run so far, in milliseconds.
    pub fn run_ms(&self) -> (r: u64)
        ensures
            r == self@.run_ms,
    {
        self.run_ms
    }

    /// Records a shot: one more hit, and one more step of fatigue up to the maximum.
    pub fn record_hit(&mut self)
        requires
            old(self)@.hits < usize::MAX,
        ensures
            final(self)@.hits == old(self)@.hits + 1,
            final(self)@.fatigue_ms == fatigue_after_hit(old(self)@.fatigue_ms),
            final(self)@.deaths == old(self)@.deaths,
            final(self)@.finished == old(self)@.finished,
            final(self)@.run_ms == old(self)@.run_ms,
    {
        proof {
            use_type_invariant(&*self);
        }
        let fatigue_ms = if self.fatigue_ms <= FATIGUE_MAX_MS - FATIGUE_STEP_MS {
            self.fatigue_ms + FATIGUE_STEP_MS
        } else {
            FATIGUE_MAX_MS
        };
        assert(fatigue_valid(fatigue_ms as nat)) by {
            assert((self.fatigue_ms + FATIGUE_STEP_MS) % 200 == 0) by {
                assert(self.fatigue_ms % 200 == 0);
            }
        }
        *self = Progress {
            hits: self.hits + 1,
            deaths: self.deaths,
            fatigue_ms,
            finished: self.finished,
            run_ms: self.run_ms,
        };
    }

    /// Records a lost ball: one more loss, and the fatigue is gone.
    pub fn record_death(&mut self)
        requires
            old(self)@.deaths < usize::MAX,
        ensures
            final(self)@.deaths == old(self)@.deaths + 1,
            final(self)@.fatigue_ms == 0,
            final(self)@.hits == old(self)@.hits,
            final(self)@.finished == old(self)@.finished,
            final(self)@.run_ms == old(self)@.run_ms,
    {
        *self = Progress {
            hits: self.hits,
            deaths: self.deaths + 1,
            fatigue_ms: 0,
            finished: self.finished,
            run_ms: self.run_ms,
        };
    }

    /// Marks the hole as reached.
    pub fn finish(&mut self)
        ensures
            final(self)@.finished,
            final(self)@.hits == old(self)@.hits,
            final(self)@.deaths == old(self)@.deaths,
            final(self)@.fatigue_ms == old(self)@.fatigue_ms,
            final(self)@.run_ms == old(self)@.run_ms,
    {
        proof {
            use_type_invariant(&*self);
        }
        *self = Progress {
            hits: self.hits,
            deaths: self.deaths,
            fatigue_ms: self.fatigue_ms,
            finished: true,
            run_ms: self.run_ms,
        };
    }

    /// Advances the run clock by `elapsed_ms`, unless the hole is reached.
    pub fn advance_clock(&mut self, elapsed_ms: u64)
        requires
            old(self)@.finished || old(self)@.run_ms + elapsed_ms <= u64::MAX,
        ensures
            final(self)@.run_ms == if old(self)@.finished {
                old(self)@.run_ms
            } else {
                old(self)@.run_ms + (elapsed_ms as nat)
            },
            final(self)@.hits == old(self)@.hits,
            final(self)@.deaths == old(self)@.deaths,
            final(self)@.fatigue_ms == old(self)@.fatigue_ms,
            final(self)@.finished == old(self)@.finished,
    {
        proof {
            use_type_invariant(&*self);
        }
        if !self.finished {
            *self = Progress {
                hits: self.hits,
                deaths: self.deaths,
                fatigue_ms: self.fatigue_ms,
                finished: self.finished,
                run_ms: self.run_ms + elapsed_ms,
            };
        }
    }

    /// Starts the run over.
    pub fn reset(&mut self)
        ensures
            final(self)@ == initial_progress(),
    {
        *self = Progress::new();
    }
}

impl Clone for Progress {
    fn clone(&self) -> (p: Self)
        ensures
            p@ == self@,
    {
        proof {
            use_type_invariant(self);
        }
        Progress {
            hits: self.hits,
            deaths: self.deaths,
            fatigue_ms: self.fatigue_ms,
            finished: self.finished,
            run_ms: self.run_ms,
        }
    }
}

impl Default for Progress {
    fn default() -> (p: Self)
        ensures
            p@ == initial_progress(),
    {
        Progress::new()
    }
}

/// A shot keeps the fatigue a whole number of steps within the maximum, never
/// lowers it, adds exactly one step below the maximum, and leaves it at the
/// maximum once reached.
pub proof fn law_fatigue_after_hit(fatigue_ms: nat)
    requires
        fatigue_valid(fatigue_ms),
    ensures
        fatigue_valid(fatigue_after_hit(fatigue_ms)),
        fatigue_after_hit(fatigue_ms) >= fatigue_ms,
        fatigue_ms < FATIGUE_MAX_MS ==> fatigue_after_hit(fatigue_ms) == fatigue_ms + FATIGUE_STEP_MS,
        fatigue_ms == FATIGUE_MAX_MS ==> fatigue_after_hit(fatigue_ms) == FATIGUE_MAX_MS,
{
}

/// Starting from no fatigue, five shots reach the maximum fatigue.
pub proof fn law_fatigue_saturates()
    ensures
        fatigue_after_hit(fatigue_after_hit(fatigue_after_hit(fatigue_after_hit(fatigue_after_hit(0)))))
            == FATIGUE_MAX_MS,
{
}

} // verus!
