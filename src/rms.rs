//! Rolling root-mean-square loudness over the last `WINDOW_LEN` frames.
use vstd::prelude::*;

use crate::ring::{ring_contents, ring_from, ring_push, FrameRing};
use crate::{SampleFrame, CHANNELS, WINDOW_LEN};
use vstd::math::abs;

verus! {

/// The largest square of a 16-bit sample.
pub const MAX_SQUARE: u64 = 1073741824;

/// Sum of the squares of a sequence of samples.
pub open spec fn sum_squares(s: Seq<int>) -> int
    decreases s.len(),
{
    if s.len() == 0 {
        0
    } else {
        sum_squares(s.drop_last()) + s.last() * s.last()
    }
}

/// Sample `i` of channel `c` in the window after `pushed` frames: the last
/// `WINDOW_LEN` frames, with zeros in place of frames never pushed.
pub open spec fn window_sample(pushed: Seq<SampleFrame>, i: int, c: int) -> int {
    let k = pushed.len() - WINDOW_LEN + i;
    if k < 0 {
        0
    } else {
        pushed[k]@[c] as int
    }
}

/// The window of channel `c` after `pushed` frames, oldest first.
pub open spec fn window_channel(pushed: Seq<SampleFrame>, c: int) -> Seq<int> {
    Seq::new(WINDOW_LEN as nat, |i: int| window_sample(pushed, i, c))
}

/// Sum of squares over the window of channel `c`.
pub open spec fn window_sum(pushed: Seq<SampleFrame>, c: int) -> int {
    sum_squares(window_channel(pushed, c))
}

/// `r` is the RMS of a window whose squares sum to `sum`, rounded down to a
/// whole sample value: `r == floor(sqrt(sum / WINDOW_LEN))`.
pub open spec fn is_floor_rms(r: int, sum: int) -> bool {
    &&& 0 <= r
    &&& r * r * WINDOW_LEN <= sum
    &&& sum < (r + 1) * (r + 1) * WINDOW_LEN
}

/// Channel `c` of each frame in `frames`.
pub open spec fn channel_of(frames: Seq<SampleFrame>, c: int) -> Seq<int> {
    Seq::new(frames.len(), |i: int| frames[i]@[c] as int)
}

/// The sum of squares, split at the first sample instead of the last.
pub proof fn lemma_sum_squares_first(s: Seq<int>)
    requires
        s.len() > 0,
    ensures
        sum_squares(s) == s[0] * s[0] + sum_squares(s.drop_first()),
    decreases s.len(),
{
    if s.len() > 1 {
        lemma_sum_squares_first(s.drop_last());
        assert(s.drop_last().drop_first() =~= s.drop_first().drop_last());
    } else {
        assert(s.drop_last() =~= Seq::<int>::empty());
        assert(s.drop_first() =~= Seq::<int>::empty());
    }
}

/// A sum of squares of 16-bit samples is non-negative and at most
/// `MAX_SQUARE` per sample.
pub proof fn lemma_sum_squares_bounds(s: Seq<int>)
    requires
        forall|i: int| 0 <= i < s.len() ==> -32768 <= #[trigger] s[i] <= 32767,
    ensures
        0 <= sum_squares(s) <= s.len() * MAX_SQUARE,
    decreases s.len(),
{
    if s.len() > 0 {
        lemma_sum_squares_bounds(s.drop_last());
        let x = s.last();
        assert(-32768 <= x <= 32767);
        assert(0 <= x * x <= MAX_SQUARE) by (nonlinear_arith)
            requires
                -32768 <= x <= 32767,
                MAX_SQUARE == 1073741824,
        ;
    }
}

/// A window's sum of squares fits the running sums kept by the engine.
pub proof fn lemma_window_bounds(pushed: Seq<SampleFrame>, c: int)
    requires
        0 <= c < CHANNELS,
    ensures
        0 <= window_sum(pushed, c) <= WINDOW_LEN * MAX_SQUARE,
{
    let w = window_channel(pushed, c);
    assert forall|i: int| 0 <= i < w.len() implies -32768 <= #[trigger] w[i] <= 32767 by {
        let k = pushed.len() - WINDOW_LEN + i;
        if k >= 0 {
            assert(-32768 <= pushed[k]@[c] <= 32767);
        }
    }
    lemma_sum_squares_bounds(w);
}

/// Pushing a frame slides every channel's window by one sample.
pub proof fn lemma_window_push(pushed: Seq<SampleFrame>, f: SampleFrame, c: int)
    ensures
        window_channel(pushed.push(f), c) =~= window_channel(pushed, c).drop_first().push(
            f@[c] as int,
        ),
{
}

/// A window whose samples are all zero (including one never pushed to) has
/// RMS zero.
pub proof fn lemma_silent_window(pushed: Seq<SampleFrame>, c: int)
    requires
        forall|k: int| 0 <= k < pushed.len() ==> (#[trigger] pushed[k])@[c] == 0,
    ensures
        window_sum(pushed, c) == 0,
        is_floor_rms(0, window_sum(pushed, c)),
        forall|r: int| is_floor_rms(r, window_sum(pushed, c)) ==> r == 0,
{
    let w = window_channel(pushed, c);
    assert(w =~= Seq::new(WINDOW_LEN as nat, |i: int| 0int));
    lemma_sum_squares_constant(WINDOW_LEN as nat, 0);
    assert forall|r: int| is_floor_rms(r, window_sum(pushed, c)) implies r == 0 by {
        lemma_floor_rms_unique(r, 0, 0);
    }
}

/// A window whose samples all have the value `a` has RMS `|a|`.
pub proof fn lemma_constant_window(pushed: Seq<SampleFrame>, c: int, a: i16)
    requires
        pushed.len() >= WINDOW_LEN,
        forall|k: int|
            pushed.len() - WINDOW_LEN <= k < pushed.len() ==> (#[trigger] pushed[k])@[c] == a,
    ensures
        window_sum(pushed, c) == WINDOW_LEN * (a * a),
        forall|r: int| is_floor_rms(r, window_sum(pushed, c)) <==> r == abs(a as int) as int,
{
    let w = window_channel(pushed, c);
    assert(w =~= Seq::new(WINDOW_LEN as nat, |i: int| a as int));
    lemma_sum_squares_constant(WINDOW_LEN as nat, a as int);
    let m: int = abs(a as int) as int;
    let s = window_sum(pushed, c);
    assert(m * m == a * a) by (nonlinear_arith)
        requires
            m == abs(a as int) as int,
    ;
    assert(is_floor_rms(m, s)) by (nonlinear_arith)
        requires
            m >= 0,
            s == WINDOW_LEN * (m * m),
            WINDOW_LEN == 128,
    ;
    assert forall|r: int| is_floor_rms(r, s) implies r == m by {
        lemma_floor_rms_unique(r, m, s);
    }
}

/// `n` copies of `a` have the sum of squares `n * a^2`.
pub proof fn lemma_sum_squares_constant(n: nat, a: int)
    ensures
        sum_squares(Seq::new(n, |i: int| a)) == n * (a * a),
    decreases n,
{
    let s = Seq::new(n, |i: int| a);
    if n > 0 {
        lemma_sum_squares_constant((n - 1) as nat, a);
        assert(s.drop_last() =~= Seq::new((n - 1) as nat, |i: int| a));
        assert(s.last() == a);
        assert(n * (a * a) == (n - 1) * (a * a) + a * a) by (nonlinear_arith);
    } else {
        assert(n * (a * a) == 0) by (nonlinear_arith)
            requires
                n == 0,
        ;
    }
}

/// At most one whole value is the floor RMS of a given sum.
pub proof fn lemma_floor_rms_unique(r1: int, r2: int, sum: int)
    requires
        is_floor_rms(r1, sum),
        is_floor_rms(r2, sum),
    ensures
        r1 == r2,
{
    if r1 < r2 {
        assert((r1 + 1) * (r1 + 1) <= r2 * r2) by (nonlinear_arith)
            requires
                0 <= r1 < r2,
        ;
    } else if r2 < r1 {
        assert((r2 + 1) * (r2 + 1) <= r1 * r1) by (nonlinear_arith)
            requires
                0 <= r2 < r1,
        ;
    }
}

/// Rolling RMS engine: the last `WINDOW_LEN` frames in a ring, with a running
/// sum of squares per channel so that a push costs constant time.
pub struct RollingRms {
    ring: FrameRing,
    square_sums: Vec<u64>,
    pushed: Ghost<Seq<SampleFrame>>,
}

impl View for RollingRms {
    type V = Seq<SampleFrame>;

    /// Every frame pushed since the engine was made, oldest first.
    closed spec fn view(&self) -> Seq<SampleFrame> {
        self.pushed@
    }
}

impl RollingRms {
    /// The ring holds the zero-padded window of what was pushed, and each
    /// running sum is that window's sum of squares.
    pub closed spec fn wf(&self) -> bool {
        &&& ring_contents(self.ring).len() == WINDOW_LEN
        &&& forall|c: int|
            0 <= c < CHANNELS ==> #[trigger] channel_of(ring_contents(self.ring), c)
                == window_channel(self.pushed@, c)
        &&& self.square_sums@.len() == CHANNELS
        &&& forall|c: int|
            0 <= c < CHANNELS ==> self.square_sums@[c] as int == #[trigger] window_sum(
                self.pushed@,
                c,
            )
    }

    /// An engine whose window holds silence on every channel.
    pub fn new() -> (r: RollingRms)
        ensures
            r.wf(),
            r@ == Seq::<SampleFrame>::empty(),
    {
        let zero: SampleFrame = [0i16; 16];
        let mut data: Vec<SampleFrame> = Vec::new();
        let mut i: usize = 0;
        while i < WINDOW_LEN
            invariant
                i <= WINDOW_LEN,
                data@.len() == i,
                forall|k: int| 0 <= k < i ==> #[trigger] data@[k] == zero,
            decreases WINDOW_LEN - i,
        {
            data.push(zero);
            i = i + 1;
        }
        let mut square_sums: Vec<u64> = Vec::new();
        let mut c: usize = 0;
        while c < CHANNELS
            invariant
                c <= CHANNELS,
                square_sums@.len() == c,
                forall|k: int| 0 <= k < c ==> #[trigger] square_sums@[k] == 0,
            decreases CHANNELS - c,
        {
            square_sums.push(0);
            c = c + 1;
        }
        let ghost pushed = Seq::<SampleFrame>::empty();
        let ring = ring_from(data);
        let r = RollingRms { ring, square_sums, pushed: Ghost(pushed) };
        assert(ring_contents(r.ring).len() == WINDOW_LEN);
        assert(r.square_sums@.len() == CHANNELS);
        assert forall|c: int| 0 <= c < CHANNELS implies #[trigger] channel_of(
            ring_contents(r.ring),
            c,
        ) == window_channel(r.pushed@, c) by {
            assert(zero@[c] == 0);
            assert(channel_of(ring_contents(r.ring), c) =~= window_channel(pushed, c));
        }
        assert forall|c: int| 0 <= c < CHANNELS implies r.square_sums@[c] as int
            == #[trigger] window_sum(r.pushed@, c) by {
            lemma_silent_window(pushed, c);
        }
        r
    }

    /// Inserts one frame, evicting the oldest from the window.
    pub fn push(&mut self, frame: SampleFrame)
        requires
            old(self).wf(),
        ensures
            final(self).wf(),
            final(self)@ == old(self)@.push(frame),
    {
        let ghost old_pushed = self.pushed@;
        let ghost old_ring = ring_contents(self.ring);
        let evicted = ring_push(&mut self.ring, frame);
        let ghost new_pushed = old_pushed.push(frame);
        self.pushed = Ghost(new_pushed);
        let mut c: usize = 0;
        while c < CHANNELS
            invariant
                c <= CHANNELS,
                self.square_sums@.len() == CHANNELS,
                self.pushed@ == new_pushed,
                new_pushed == old_pushed.push(frame),
                evicted == old_ring[0],
                old_ring.len() == WINDOW_LEN,
                ring_contents(self.ring) == old_ring.drop_first().push(frame),
                forall|k: int|
                    0 <= k < CHANNELS ==> #[trigger] channel_of(old_ring, k) == window_channel(
                        old_pushed,
                        k,
                    ),
                forall|k: int|
                    0 <= k < c ==> self.square_sums@[k] as int == #[trigger] window_sum(
                        new_pushed,
                        k,
                    ),
                forall|k: int|
                    c <= k < CHANNELS ==> self.square_sums@[k] as int == #[trigger] window_sum(
                        old_pushed,
                        k,
                    ),
            decreases CHANNELS - c,
        {
            let ghost w = window_channel(old_pushed, c as int);
            let out = evicted[c] as i64;
            let inn = frame[c] as i64;
            let old_sum = self.square_sums[c];
            proof {
                lemma_window_push(old_pushed, frame, c as int);
                assert(channel_of(old_ring, c as int)[0] == w[0]);
                assert(out == w[0]);
                lemma_sum_squares_first(w);
                let tail = w.drop_first();
                let nw = tail.push(inn as int);
                assert(nw.drop_last() =~= tail);
                assert(inn == frame@[c as int]);
                assert(nw.last() == inn);
                assert(window_channel(new_pushed, c as int) =~= nw);
                lemma_window_bounds(old_pushed, c as int);
                lemma_window_bounds(new_pushed, c as int);
                assert(0 <= out * out <= MAX_SQUARE) by (nonlinear_arith)
                    requires
                        -32768 <= out <= 32767,
                        MAX_SQUARE == 1073741824,
                ;
                assert(0 <= inn * inn <= MAX_SQUARE) by (nonlinear_arith)
                    requires
                        -32768 <= inn <= 32767,
                        MAX_SQUARE == 1073741824,
                ;
                assert(sum_squares(tail) >= 0) by {
                    assert forall|i: int| 0 <= i < tail.len() implies -32768 <= #[trigger] tail[i]
                        <= 32767 by {
                        assert(tail[i] == w[i + 1]);
                        assert(nw[i] == tail[i]);
                        let k = old_pushed.len() - WINDOW_LEN + i + 1;
                        if k >= 0 {
                            assert(-32768 <= old_pushed[k]@[c as int] <= 32767);
                        }
                    }
                    lemma_sum_squares_bounds(tail);
                }
            }
            let removed = old_sum - (out * out) as u64;
            let updated = removed + (inn * inn) as u64;
            self.square_sums.set(c, updated);
            c = c + 1;
        }
        proof {
            assert forall|k: int| 0 <= k < CHANNELS implies #[trigger] channel_of(
                ring_contents(self.ring),
                k,
            ) == window_channel(new_pushed, k) by {
                lemma_window_push(old_pushed, frame, k);
                assert(channel_of(ring_contents(self.ring), k) =~= channel_of(old_ring, k).drop_first().push(
                    frame@[k] as int));
            }
        }
    }

    /// Pushes each frame of `frames`, in order.
    pub fn push_all(&mut self, frames: &Vec<SampleFrame>)
        requires
            old(self).wf(),
        ensures
            final(self).wf(),
            final(self)@ == old(self)@ + frames@,
    {
        let ghost start = self@;
        let mut i: usize = 0;
        while i < frames.len()
            invariant
                self.wf(),
                i <= frames@.len(),
                self@ == start + frames@.subrange(0, i as int),
            decreases frames@.len() - i,
        {
            self.push(frames[i]);
            proof {
                assert(frames@.subrange(0, i + 1) =~= frames@.subrange(0, i as int).push(frames@[i as int]));
            }
            i = i + 1;
        }
        assert(frames@.subrange(0, i as int) =~= frames@);
    }

    /// The sum of squares over channel `c`'s window.
    pub fn square_sum(&self, c: usize) -> (r: u64)
        requires
            self.wf(),
            c < CHANNELS,
        ensures
            r == window_sum(self@, c as int),
    {
        self.square_sums[c]
    }

    /// The RMS of channel `c`'s window, in sample units, rounded down.
    pub fn rms(&self, c: usize) -> (r: u32)
        requires
            self.wf(),
            c < CHANNELS,
        ensures
            is_floor_rms(r as int, window_sum(self@, c as int)),
    {
        proof {
            lemma_window_bounds(self@, c as int);
        }
        floor_rms(self.square_sums[c])
    }

    /// The RMS of every channel's window, in sample units, rounded down.
    pub fn current(&self) -> (r: Vec<u32>)
        requires
            self.wf(),
        ensures
            r@.len() == CHANNELS,
            forall|c: int| 0 <= c < CHANNELS ==> is_floor_rms(#[trigger] r@[c] as int, window_sum(self@, c)),
    {
        let mut r: Vec<u32> = Vec::new();
        let mut c: usize = 0;
        while c < CHANNELS
            invariant
                self.wf(),
                c <= CHANNELS,
                r@.len() == c,
                forall|k: int| 0 <= k < c ==> is_floor_rms(#[trigger] r@[k] as int, window_sum(self@, k)),
            decreases CHANNELS - c,
        {
            let v = self.rms(c);
            r.push(v);
            c = c + 1;
        }
        r
    }
}

/// Floor of `sqrt(sum / WINDOW_LEN)`, by bisection.
pub fn floor_rms(sum: u64) -> (r: u32)
    requires
        sum <= WINDOW_LEN * MAX_SQUARE,
    ensures
        is_floor_rms(r as int, sum as int),
{
    let mut lo: u64 = 0;
    let mut hi: u64 = 32769;
    assert(sum < hi * hi * WINDOW_LEN) by (nonlinear_arith)
        requires
            sum <= WINDOW_LEN * MAX_SQUARE,
            hi == 32769,
            MAX_SQUARE == 1073741824,
            WINDOW_LEN == 128,
    ;
    while hi - lo > 1
        invariant
            lo < hi <= 32769,
            lo * lo * WINDOW_LEN <= sum,
            sum < hi * hi * WINDOW_LEN,
        decreases hi - lo,
    {
        let mid = lo + (hi - lo) / 2;
        assert(mid * mid * WINDOW_LEN <= 32769 * 32769 * 128) by (nonlinear_arith)
            requires
                mid < 32769,
                WINDOW_LEN == 128,
        ;
        if mid * mid * (WINDOW_LEN as u64) <= sum {
            lo = mid;
        } else {
            hi = mid;
        }
    }
    lo as u32
}

} // verus!