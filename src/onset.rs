//! Per-channel onset latch: remembers the last time each channel's loudness
//! was above a threshold.
use vstd::prelude::*;

use crate::rms::{lemma_silent_window, lemma_window_bounds, window_sum, RollingRms, MAX_SQUARE};
use crate::{SampleFrame, CHANNELS, FULL_SCALE, WINDOW_LEN};

verus! {

/// A loudness threshold, as the fraction `num / den` of full scale.
#[derive(Clone, Copy, Debug, PartialEq, Eq)]
pub struct Threshold {
    num: u32,
    den: u32,
}

impl View for Threshold {
    type V = (nat, nat);

    closed spec fn view(&self) -> (nat, nat) {
        (self.num as nat, self.den as nat)
    }
}

/// A window whose squares sum to `sum` is louder than the threshold `th`:
/// `sqrt(sum / WINDOW_LEN) / FULL_SCALE > th.0 / th.1`, both sides squared.
pub open spec fn exceeds(sum: int, th: (nat, nat)) -> bool {
    sum * th.1 * th.1 > th.0 * th.0 * WINDOW_LEN * (FULL_SCALE * FULL_SCALE)
}

/// The new last-hit time of a channel: `now` when it crossed, else unchanged.
pub open spec fn latch(prev: u64, crossed: bool, now: u64) -> u64 {
    if crossed {
        now
    } else {
        prev
    }
}

impl Threshold {
    /// The denominator is not zero.
    pub closed spec fn wf(&self) -> bool {
        self.den > 0
    }

    /// The threshold `num / den` of full scale; `None` when `den` is zero.
    pub fn ratio(num: u32, den: u32) -> (r: Option<Threshold>)
        ensures
            den == 0 <==> r is None,
            r matches Some(t) ==> t.wf() && t@ == (num as nat, den as nat),
    {
        if den == 0 {
            None
        } else {
            Some(Threshold { num, den })
        }
    }

    /// The default onset level, 0.15 of full scale.
    pub fn standard() -> (r: Threshold)
        ensures
            r.wf(),
            r@ == (3nat, 20nat),
    {
        Threshold { num: 3, den: 20 }
    }

    /// Whether a window whose squares sum to `sum` is louder than this level.
    pub fn is_exceeded_by(&self, sum: u64) -> (r: bool)
        requires
            self.wf(),
            sum <= WINDOW_LEN * MAX_SQUARE,
        ensures
            r == exceeds(sum as int, self@),
    {
        let s = sum as u128;
        let n = self.num as u128;
        let d = self.den as u128;
        assert(s * d <= 137438953472 * 4294967295) by (nonlinear_arith)
            requires
                s <= 137438953472,
                d <= 4294967295,
        ;
        assert(s * d * d <= 137438953472 * 4294967295 * 4294967295) by (nonlinear_arith)
            requires
                s <= 137438953472,
                d <= 4294967295,
        ;
        assert(n * n <= 4294967295 * 4294967295) by (nonlinear_arith)
            requires
                n <= 4294967295,
        ;
        assert(n * n * 137438953472 <= 4294967295 * 4294967295 * 137438953472) by (nonlinear_arith)
            requires
                n <= 4294967295,
        ;
        let lhs = s * d * d;
        let rhs = n * n * 137438953472u128;
        proof {
            assert(WINDOW_LEN * (FULL_SCALE * FULL_SCALE) == 137438953472);
            assert(n * n * WINDOW_LEN * (FULL_SCALE * FULL_SCALE) == n * n * 137438953472) by (nonlinear_arith)
                requires
                    WINDOW_LEN * (FULL_SCALE * FULL_SCALE) == 137438953472,
            ;
        }
        lhs > rhs
    }
}

/// Onset state: per channel, the last time its RMS exceeded the threshold.
pub struct OnsetDetector {
    threshold: Threshold,
    last_hit: Vec<u64>,
}

impl View for OnsetDetector {
    type V = Seq<u64>;

    /// The last-hit time of each channel.
    closed spec fn view(&self) -> Seq<u64> {
        self.last_hit@
    }
}

impl OnsetDetector {
    /// One last-hit time per channel, against a well-formed threshold.
    pub closed spec fn wf(&self) -> bool {
        &&& self.threshold.wf()
        &&& self.last_hit@.len() == CHANNELS
    }

    /// The level a channel must exceed to latch.
    pub closed spec fn threshold(&self) -> Threshold {
        self.threshold
    }

    /// A detector with every last-hit time at zero.
    pub fn new(threshold: Threshold) -> (r: OnsetDetector)
        requires
            threshold.wf(),
        ensures
            r.wf(),
            r.threshold() == threshold,
            r@ == Seq::new(CHANNELS as nat, |c: int| 0u64),
    {
        let mut last_hit: Vec<u64> = Vec::new();
        let mut c: usize = 0;
        while c < CHANNELS
            invariant
                c <= CHANNELS,
                last_hit@ == Seq::new(c as nat, |k: int| 0u64),
            decreases CHANNELS - c,
        {
            last_hit.push(0);
            c = c + 1;
            assert(last_hit@ =~= Seq::new(c as nat, |k: int| 0u64));
        }
        OnsetDetector { threshold, last_hit }
    }

    /// The last-hit time of channel `c`.
    pub fn last_hit(&self, c: usize) -> (r: u64)
        requires
            self.wf(),
            c < CHANNELS,
        ensures
            r == self@[c as int],
    {
        self.last_hit[c]
    }

    /// Marks `now` on every channel whose RMS is above the threshold; the
    /// other channels keep their last-hit time.
    pub fn detect(&mut self, rms: &RollingRms, now: u64)
        requires
            old(self).wf(),
            rms.wf(),
        ensures
            final(self).wf(),
            final(self).threshold() == old(self).threshold(),
            final(self)@.len() == CHANNELS,
            forall|c: int|
                0 <= c < CHANNELS ==> #[trigger] final(self)@[c] == latch(
                    old(self)@[c],
                    exceeds(window_sum(rms@, c), old(self).threshold()@),
                    now,
                ),
    {
        let ghost start = self.last_hit@;
        let mut c: usize = 0;
        while c < CHANNELS
            invariant
                self.wf(),
                self.threshold == old(self).threshold,
                start == old(self).last_hit@,
                rms.wf(),
                c <= CHANNELS,
                forall|k: int|
                    0 <= k < c ==> #[trigger] self.last_hit@[k] == latch(
                        start[k],
                        exceeds(window_sum(rms@, k), self.threshold@),
                        now,
                    ),
                forall|k: int| c <= k < CHANNELS ==> #[trigger] self.last_hit@[k] == start[k],
            decreases CHANNELS - c,
        {
            proof {
                lemma_window_bounds(rms@, c as int);
            }
            let sum = rms.square_sum(c);
            if self.threshold.is_exceeded_by(sum) {
                self.last_hit.set(c, now);
            }
            c = c + 1;
        }
    }
}

/// A channel's last-hit time after a run of ticks, from `start`, where tick
/// `i` came at `times[i]` and crossed the threshold when `crossed[i]`.
pub open spec fn latch_run(start: u64, crossed: Seq<bool>, times: Seq<u64>) -> u64
    decreases crossed.len(),
{
    if crossed.len() == 0 || times.len() != crossed.len() {
        start
    } else {
        latch(latch_run(start, crossed.drop_last(), times.drop_last()), crossed.last(), times.last())
    }
}

/// Once a channel crosses the threshold at tick `k`, its last-hit time is
/// that tick's time for as long as it does not cross again (so the elapsed
/// time at a later tick is that tick's time less the time of tick `k`).
pub proof fn lemma_latch_holds(start: u64, crossed: Seq<bool>, times: Seq<u64>, k: int)
    requires
        crossed.len() == times.len(),
        0 <= k < crossed.len(),
        crossed[k],
        forall|j: int| k < j < crossed.len() ==> !#[trigger] crossed[j],
    ensures
        latch_run(start, crossed, times) == times[k],
    decreases crossed.len(),
{
    if k < crossed.len() - 1 {
        let c2 = crossed.drop_last();
        assert forall|j: int| k < j < c2.len() implies !#[trigger] c2[j] by {
            assert(c2[j] == crossed[j]);
        }
        lemma_latch_holds(start, c2, times.drop_last(), k);
        assert(!crossed[crossed.len() - 1]);
    }
}

/// A channel that never crosses keeps its starting last-hit time.
pub proof fn lemma_latch_quiet(start: u64, crossed: Seq<bool>, times: Seq<u64>)
    requires
        forall|j: int| 0 <= j < crossed.len() ==> !#[trigger] crossed[j],
    ensures
        latch_run(start, crossed, times) == start,
    decreases crossed.len(),
{
    if crossed.len() > 0 && times.len() == crossed.len() {
        let c2 = crossed.drop_last();
        assert forall|j: int| 0 <= j < c2.len() implies !#[trigger] c2[j] by {
            assert(c2[j] == crossed[j]);
        }
        lemma_latch_quiet(start, c2, times.drop_last());
        assert(!crossed[crossed.len() - 1]);
    }
}

/// A channel that has only ever received zero samples is never above any
/// threshold.
pub proof fn lemma_silent_channel_never_crosses(pushed: Seq<SampleFrame>, c: int, th: (nat, nat))
    requires
        forall|k: int| 0 <= k < pushed.len() ==> (#[trigger] pushed[k])@[c] == 0,
    ensures
        !exceeds(window_sum(pushed, c), th),
{
    lemma_silent_window(pushed, c);
    assert(th.0 * th.0 * WINDOW_LEN * (FULL_SCALE * FULL_SCALE) >= 0) by (nonlinear_arith);
}

} // verus!
