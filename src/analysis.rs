//! The per-tick analysis step and the capability context handed to a mode.
use vstd::prelude::*;

use crate::canvas::WindowRect;
use crate::onset::{exceeds, latch, OnsetDetector, Threshold};
use crate::rms::{is_floor_rms, window_channel, window_sum, RollingRms};
use crate::{SampleFrame, CHANNELS};

verus! {

/// Analysis state owned by the render loop: the loudness window, the onset
/// latch, the time of the last tick and the frames that tick drained.
pub struct Analyzer {
    rms: RollingRms,
    onset: OnsetDetector,
    time: u64,
    recent: Vec<SampleFrame>,
}

impl Analyzer {
    /// Both parts are well formed and no last hit lies after the last tick.
    pub closed spec fn wf(&self) -> bool {
        &&& self.rms.wf()
        &&& self.onset.wf()
        &&& forall|c: int| 0 <= c < CHANNELS ==> #[trigger] self.onset@[c] <= self.time
    }

    /// Every frame pushed so far, oldest first.
    pub closed spec fn pushed(&self) -> Seq<SampleFrame> {
        self.rms@
    }

    /// The last-hit time of each channel.
    pub closed spec fn last_hits(&self) -> Seq<u64> {
        self.onset@
    }

    /// The time of the last tick.
    pub closed spec fn now(&self) -> u64 {
        self.time
    }

    /// The frames drained on the last tick.
    pub closed spec fn recent(&self) -> Seq<SampleFrame> {
        self.recent@
    }

    /// The onset level.
    pub closed spec fn threshold(&self) -> Threshold {
        self.onset.threshold()
    }

    /// Fresh state at time zero: a silent window and every last hit at zero.
    pub fn new(threshold: Threshold) -> (r: Analyzer)
        requires
            threshold.wf(),
        ensures
            r.wf(),
            r.pushed() == Seq::<SampleFrame>::empty(),
            r.last_hits() == Seq::new(CHANNELS as nat, |c: int| 0u64),
            r.now() == 0,
            r.recent() == Seq::<SampleFrame>::empty(),
            r.threshold() == threshold,
    {
        Analyzer {
            rms: RollingRms::new(),
            onset: OnsetDetector::new(threshold),
            time: 0,
            recent: Vec::new(),
        }
    }

    /// One analysis tick at time `now`: pushes the drained frames in order,
    /// then latches `now` on every channel whose RMS is above the threshold.
    pub fn tick(&mut self, drained: Vec<SampleFrame>, now: u64)
        requires
            old(self).wf(),
            old(self).now() <= now,
        ensures
            final(self).wf(),
            final(self).pushed() == old(self).pushed() + drained@,
            final(self).now() == now,
            final(self).recent() == drained@,
            final(self).threshold() == old(self).threshold(),
            final(self).last_hits().len() == CHANNELS,
            forall|c: int|
                0 <= c < CHANNELS ==> #[trigger] final(self).last_hits()[c] == latch(
                    old(self).last_hits()[c],
                    exceeds(window_sum(final(self).pushed(), c), old(self).threshold()@),
                    now,
                ),
    {
        self.rms.push_all(&drained);
        self.onset.detect(&self.rms, now);
        self.time = now;
        self.recent = drained;
    }

    /// The time of the last tick.
    pub fn time(&self) -> (r: u64)
        ensures
            r == self.now(),
    {
        self.time
    }

    /// The last-hit time of channel `c`.
    pub fn last_hit(&self, c: usize) -> (r: u64)
        requires
            self.wf(),
            c < CHANNELS,
        ensures
            r == self.last_hits()[c as int],
    {
        self.onset.last_hit(c)
    }

    /// Time since channel `c` last crossed the threshold.
    pub fn elapsed(&self, c: usize) -> (r: u64)
        requires
            self.wf(),
            c < CHANNELS,
        ensures
            r == self.now() - self.last_hits()[c as int],
    {
        self.time - self.onset.last_hit(c)
    }

    /// The RMS of channel `c`, in sample units, rounded down.
    pub fn rms(&self, c: usize) -> (r: u32)
        requires
            self.wf(),
            c < CHANNELS,
        ensures
            is_floor_rms(r as int, window_sum(self.pushed(), c as int)),
    {
        self.rms.rms(c)
    }

    /// The RMS of every channel, in sample units, rounded down.
    pub fn current(&self) -> (r: Vec<u32>)
        requires
            self.wf(),
        ensures
            r@.len() == CHANNELS,
            forall|c: int|
                0 <= c < CHANNELS ==> is_floor_rms(
                    #[trigger] r@[c] as int,
                    window_sum(self.pushed(), c),
                ),
    {
        self.rms.current()
    }

    /// The capability context for this tick's draw.
    pub fn context<'a, S>(&self, window: WindowRect, model: &'a S) -> (r: FrameContext<'a, S>)
        requires
            self.wf(),
        ensures
            r.wf(),
            r.spec_window() == window,
            r.spec_time() == self.now(),
            r.spec_model() == model,
            r.recent() == self.recent(),
            r.levels().len() == CHANNELS,
            r.elapsed().len() == CHANNELS,
            forall|c: int|
                0 <= c < CHANNELS ==> is_floor_rms(
                    #[trigger] r.levels()[c] as int,
                    window_sum(self.pushed(), c),
                ),
            forall|c: int|
                0 <= c < CHANNELS ==> #[trigger] r.elapsed()[c] == self.now()
                    - self.last_hits()[c],
    {
        let levels = self.rms.current();
        let mut elapsed: Vec<u64> = Vec::new();
        let mut c: usize = 0;
        while c < CHANNELS
            invariant
                self.wf(),
                c <= CHANNELS,
                elapsed@.len() == c,
                forall|k: int|
                    0 <= k < c ==> #[trigger] elapsed@[k] == self.now() - self.last_hits()[k],
            decreases CHANNELS - c,
        {
            elapsed.push(self.elapsed(c));
            c = c + 1;
        }
        let mut recent: Vec<SampleFrame> = Vec::new();
        let mut i: usize = 0;
        while i < self.recent.len()
            invariant
                i <= self.recent@.len(),
                recent@ == self.recent@.subrange(0, i as int),
            decreases self.recent@.len() - i,
        {
            recent.push(self.recent[i]);
            i = i + 1;
            assert(recent@ =~= self.recent@.subrange(0, i as int));
        }
        assert(self.recent@.subrange(0, i as int) =~= self.recent@);
        FrameContext { window, time: self.time, model, levels, elapsed, recent }
    }
}

/// What a mode sees during one tick's draw. It borrows the mode's state and
/// cannot outlive the tick.
pub struct FrameContext<'a, S> {
    window: WindowRect,
    time: u64,
    model: &'a S,
    levels: Vec<u32>,
    elapsed: Vec<u64>,
    recent: Vec<SampleFrame>,
}

/// Channel `c` of each frame, as samples.
pub open spec fn samples_of(frames: Seq<SampleFrame>, c: int) -> Seq<i16> {
    Seq::new(frames.len(), |i: int| frames[i]@[c])
}

impl<'a, S> FrameContext<'a, S> {
    /// One level and one elapsed time per channel.
    pub closed spec fn wf(&self) -> bool {
        &&& self.levels@.len() == CHANNELS
        &&& self.elapsed@.len() == CHANNELS
    }

    pub closed spec fn spec_window(&self) -> WindowRect {
        self.window
    }

    pub closed spec fn spec_time(&self) -> u64 {
        self.time
    }

    pub closed spec fn spec_model(&self) -> &'a S {
        self.model
    }

    /// The drawing window's geometry.
    pub fn window(&self) -> (r: WindowRect)
        ensures
            r == self.spec_window(),
    {
        self.window
    }

    /// The time of this tick.
    pub fn time(&self) -> (r: u64)
        ensures
            r == self.spec_time(),
    {
        self.time
    }

    /// The mode's state, read-only.
    pub fn model(&self) -> (r: &'a S)
        ensures
            r == self.spec_model(),
    {
        self.model
    }

    /// Each channel's RMS, in sample units, rounded down.
    pub closed spec fn levels(&self) -> Seq<u32> {
        self.levels@
    }

    /// Each channel's time since its last hit.
    pub closed spec fn elapsed(&self) -> Seq<u64> {
        self.elapsed@
    }

    /// The frames drained on this tick.
    pub closed spec fn recent(&self) -> Seq<SampleFrame> {
        self.recent@
    }

    /// Calls `callback` once with channel `c`'s RMS.
    pub fn meter<R, F: FnOnce(u32) -> R>(&self, c: usize, callback: F) -> (r: R)
        requires
            self.wf(),
            c < CHANNELS,
            callback.requires((self.levels()[c as int],)),
        ensures
            callback.ensures((self.levels()[c as int],), r),
    {
        callback(self.levels[c])
    }

    /// Calls `callback` once with the time since channel `c` last crossed
    /// the onset threshold.
    pub fn audio_trigger<R, F: FnOnce(u64) -> R>(&self, c: usize, callback: F) -> (r: R)
        requires
            self.wf(),
            c < CHANNELS,
            callback.requires((self.elapsed()[c as int],)),
        ensures
            callback.ensures((self.elapsed()[c as int],), r),
    {
        callback(self.elapsed[c])
    }

    /// Calls `callback` once with the time since channel `c`'s last trigger;
    /// no separate MIDI source exists, so this is the audio trigger.
    pub fn midi_trigger<R, F: FnOnce(u64) -> R>(&self, c: usize, callback: F) -> (r: R)
        requires
            self.wf(),
            c < CHANNELS,
            callback.requires((self.elapsed()[c as int],)),
        ensures
            callback.ensures((self.elapsed()[c as int],), r),
    {
        callback(self.elapsed[c])
    }

    /// Calls `callback` once with channel `c`'s samples drained this tick,
    /// oldest first.
    pub fn scope<R, F: FnOnce(Vec<i16>) -> R>(&self, c: usize, callback: F) -> (r: R)
        requires
            c < CHANNELS,
            forall|v: Vec<i16>| v@ == samples_of(self.recent(), c as int) ==> callback.requires((v,)),
        ensures
            exists|v: Vec<i16>| v@ == samples_of(self.recent(), c as int) && callback.ensures((v,), r),
    {
        let mut samples: Vec<i16> = Vec::new();
        let mut i: usize = 0;
        while i < self.recent.len()
            invariant
                c < CHANNELS,
                i <= self.recent@.len(),
                samples@ == samples_of(self.recent@.subrange(0, i as int), c as int),
            decreases self.recent@.len() - i,
        {
            let frame = self.recent[i];
            samples.push(frame[c]);
            i = i + 1;
            assert(samples@ =~= samples_of(self.recent@.subrange(0, i as int), c as int));
        }
        assert(self.recent@.subrange(0, i as int) =~= self.recent@);
        let ghost v = samples;
        let r = callback(samples);
        assert(v@ == samples_of(self.recent(), c as int) && callback.ensures((v,), r));
        r
    }
}

/// Draining no frames leaves every channel's window as it was, and with no
/// channel above the threshold it leaves every last-hit time as it was too.
/// (A channel still above the threshold re-latches on every tick.)
pub proof fn lemma_empty_drain(pushed: Seq<SampleFrame>, last_hits: Seq<u64>, th: (nat, nat), now: u64)
    requires
        last_hits.len() == CHANNELS,
        forall|c: int| 0 <= c < CHANNELS ==> !exceeds(#[trigger] window_sum(pushed, c), th),
    ensures
        pushed + Seq::<SampleFrame>::empty() == pushed,
        forall|c: int|
            0 <= c < CHANNELS ==> #[trigger] window_channel(pushed + Seq::<SampleFrame>::empty(), c)
                == window_channel(pushed, c),
        Seq::new(
            CHANNELS as nat,
            |c: int|
                latch(
                    last_hits[c],
                    exceeds(window_sum(pushed + Seq::<SampleFrame>::empty(), c), th),
                    now,
                ),
        ) == last_hits,
{
    assert(pushed + Seq::<SampleFrame>::empty() =~= pushed);
    assert(Seq::new(
        CHANNELS as nat,
        |c: int|
            latch(
                last_hits[c],
                exceeds(window_sum(pushed + Seq::<SampleFrame>::empty(), c), th),
                now,
            ),
    ) =~= last_hits);
}

} // verus!
