//! Adaptive dispatch jitter: the delay shrinks as recent traffic grows.
//!
//! Instants are nanoseconds on a monotonic clock, and durations are
//! nanoseconds too.
use rand::Rng;
use vstd::prelude::*;

verus! {

/// How many successful dispatches are sampled for the frequency estimate.
pub const HISTORY_CAPACITY: usize = 25;

/// Below this many samples the bootstrap frequency is used.
pub const MIN_SAMPLES: usize = 4;

/// The bootstrap frequency, 0.25 per second, as one sample per four seconds.
pub const BOOTSTRAP_PERIOD_NANOS: u64 = 4_000_000_000;

/// `1 / a` with `a = (2 - sqrt 2) / 2`, that is `2 + sqrt 2`, scaled by
/// `SCALE`.
pub const INV_A_SCALED: u128 = 3_414_213_562_373_095_049;

/// The fixed-point scale of `INV_A_SCALED`.
pub const SCALE: u128 = 1_000_000_000_000_000_000;

/// The jitter bound, in nanoseconds, for a traffic frequency of `samples`
/// per `period` nanoseconds: `1 / (freq * a)`, rounded to the nearest
/// nanosecond and cut off at `u64::MAX`.
pub open spec fn jitter_spec(samples: nat, period: nat) -> nat
    recommends
        samples > 0,
{
    let den = samples * SCALE;
    let v = (period * INV_A_SCALED + den / 2) / den;
    if v > u64::MAX {
        u64::MAX as nat
    } else {
        v as nat
    }
}

/// `s` is in ascending order.
pub open spec fn sorted(s: Seq<u64>) -> bool {
    forall|i: int, j: int| 0 <= i <= j < s.len() ==> s[i] <= s[j]
}

/// `k` is where `x` goes in the ascending `s`: after every sample not later
/// than `x`, before every later one.
pub open spec fn insertion_point(s: Seq<u64>, x: u64, k: int) -> bool {
    &&& 0 <= k <= s.len()
    &&& forall|i: int| 0 <= i < k ==> s[i] <= x
    &&& forall|i: int| k <= i < s.len() ==> x < s[i]
}

/// Drops the oldest sample of `s` when it holds more than the capacity.
pub open spec fn evict_oldest(s: Seq<u64>) -> Seq<u64> {
    if s.len() > HISTORY_CAPACITY {
        s.remove(0)
    } else {
        s
    }
}

/// The largest delay that `get_jitter_delay` may draw, given the sampled
/// history, the ceiling and the current instant.
pub open spec fn delay_bound_spec(history: Seq<u64>, max_jitter: u64, now: u64) -> nat {
    let raw = if history.len() < MIN_SAMPLES {
        jitter_spec(1, BOOTSTRAP_PERIOD_NANOS as nat)
    } else {
        let age = if now >= history[0] {
            now - history[0]
        } else {
            0
        };
        jitter_spec(history.len(), age as nat)
    };
    if raw > max_jitter {
        max_jitter as nat
    } else {
        raw
    }
}

/// Relies on rand's `thread_rng().gen_range(0..=bound)`: a uniformly drawn
/// value of the closed range, which is never empty here.
#[verifier::external_body]
fn random_up_to(bound: u64) -> (r: u64)
    ensures
        r <= bound,
{
    rand::thread_rng().gen_range(0..=bound)
}

/// Tracks the instants of recent successful dispatches and derives a
/// randomized pre-dispatch delay from their frequency.
#[derive(Debug)]
pub struct Jitter {
    /// Completion instants of the most recent successful dispatches, in
    /// ascending order, so the oldest comes first.
    past_jitters: Vec<u64>,
    /// The largest delay ever handed out.
    max_jitter: u64,
}

impl Jitter {
    /// The sampled instants, oldest first.
    pub closed spec fn history(&self) -> Seq<u64> {
        self.past_jitters@
    }

    /// The ceiling on every delay.
    pub closed spec fn max_jitter_spec(&self) -> u64 {
        self.max_jitter
    }

    /// The history is bounded and ordered.
    pub open spec fn wf(&self) -> bool {
        &&& self.history().len() <= HISTORY_CAPACITY
        &&& sorted(self.history())
    }

    /// The jitter bound, in nanoseconds, for a traffic frequency of
    /// `samples` per `period_nanos` nanoseconds.
    pub fn jitter(samples: u64, period_nanos: u64) -> (r: u64)
        requires
            samples > 0,
        ensures
            r == jitter_spec(samples as nat, period_nanos as nat),
    {
        let p = period_nanos as u128;
        let s = samples as u128;
        assert(p * INV_A_SCALED <= u64::MAX * INV_A_SCALED) by (nonlinear_arith)
            requires
                p <= u64::MAX,
        ;
        assert(s * SCALE <= u64::MAX * SCALE) by (nonlinear_arith)
            requires
                s <= u64::MAX,
        ;
        assert(s * SCALE >= SCALE) by (nonlinear_arith)
            requires
                s >= 1,
        ;
        let den = s * SCALE;
        let v = (p * INV_A_SCALED + den / 2) / den;
        if v > u64::MAX as u128 {
            u64::MAX
        } else {
            v as u64
        }
    }

    /// A tracker with no history and the given delay ceiling.
    pub fn new(max_jitter: u64) -> (r: Self)
        ensures
            r.wf(),
            r.history() == Seq::<u64>::empty(),
            r.max_jitter_spec() == max_jitter,
    {
        Jitter { past_jitters: Vec::new(), max_jitter }
    }

    /// The delay ceiling.
    pub fn max_jitter(&self) -> (r: u64)
        ensures
            r == self.max_jitter_spec(),
    {
        self.max_jitter
    }

    /// The number of sampled instants.
    pub fn sample_count(&self) -> (r: usize)
        ensures
            r == self.history().len(),
    {
        self.past_jitters.len()
    }

    /// Records the instant of a successful dispatch. Only successes are
    /// recorded, so that failing requests cannot shrink the delay.
    pub fn push_successful_jitter(&mut self, when: u64)
        requires
            old(self).wf(),
        ensures
            final(self).wf(),
            final(self).max_jitter_spec() == old(self).max_jitter_spec(),
            exists|k: int|
                insertion_point(old(self).history(), when, k) && final(self).history()
                    == evict_oldest(#[trigger] old(self).history().insert(k, when)),
    {
        let ghost old_h = self.past_jitters@;
        let mut k: usize = 0;
        while k < self.past_jitters.len() && self.past_jitters[k] <= when
            invariant
                self.past_jitters@ == old_h,
                0 <= k <= old_h.len(),
                forall|i: int| 0 <= i < k ==> old_h[i] <= when,
            decreases old_h.len() - k,
        {
            k = k + 1;
        }
        proof {
            if k < old_h.len() {
                assert forall|i: int| k <= i < old_h.len() implies when < old_h[i] by {
                    assert(old_h[k as int] <= old_h[i]);
                }
            }
        }
        self.past_jitters.insert(k, when);
        let ghost ins = self.past_jitters@;
        assert(ins == old_h.insert(k as int, when));
        assert(sorted(ins)) by {
            assert forall|i: int, j: int| 0 <= i <= j < ins.len() implies ins[i] <= ins[j] by {
                if i < k && j > k {
                    assert(ins[j] == old_h[j - 1]);
                } else if i == k && j > k {
                    assert(ins[j] == old_h[j - 1]);
                } else if i > k {
                    assert(ins[i] == old_h[i - 1] && ins[j] == old_h[j - 1]);
                }
            }
        }
        if self.past_jitters.len() > HISTORY_CAPACITY {
            self.past_jitters.remove(0);
        }
        assert(insertion_point(old_h, when, k as int));
    }

    /// The largest delay that may be drawn at instant `now`.
    pub fn delay_bound(&self, now: u64) -> (r: u64)
        requires
            self.wf(),
        ensures
            r == delay_bound_spec(self.history(), self.max_jitter_spec(), now),
            r <= self.max_jitter_spec(),
    {
        let raw = if self.past_jitters.len() < MIN_SAMPLES {
            Jitter::jitter(1, BOOTSTRAP_PERIOD_NANOS)
        } else {
            let age = now.saturating_sub(self.past_jitters[0]);
            Jitter::jitter(self.past_jitters.len() as u64, age)
        };
        if raw > self.max_jitter {
            self.max_jitter
        } else {
            raw
        }
    }

    /// A delay drawn uniformly from `[0, delay_bound(now)]`, which never
    /// exceeds the ceiling; a ceiling of zero disables the delay.
    pub fn get_jitter_delay(&self, now: u64) -> (r: u64)
        requires
            self.wf(),
        ensures
            r <= delay_bound_spec(self.history(), self.max_jitter_spec(), now),
            r <= self.max_jitter_spec(),
            self.max_jitter_spec() == 0 ==> r == 0,
    {
        let bound = self.delay_bound(now);
        random_up_to(bound)
    }
}

} // verus!
