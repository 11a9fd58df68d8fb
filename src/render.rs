//! The mode contract and the per-tick render/analysis step that drives it.
use vstd::prelude::*;

use crate::analysis::{Analyzer, FrameContext};
use crate::canvas::{DrawCommand, WindowRect};
use crate::onset::{exceeds, latch};
use crate::rms::{is_floor_rms, window_sum};
use crate::{SampleFrame, CHANNELS};

verus! {

/// A replaceable unit of visual behaviour. Exactly one is bound to the
/// render loop in a build.
pub trait Mode {
    /// The mode's own state, threaded by value from tick to tick.
    type State;

    /// The state for the tick at `time`, from the previous tick's state.
    spec fn spec_update(time: u64, state: Self::State) -> Self::State;

    /// The commands drawn for a tick with the given window, time and state,
    /// per-channel levels and elapsed times, and drained frames.
    spec fn spec_draw(
        window: WindowRect,
        time: u64,
        state: Self::State,
        levels: Seq<u32>,
        elapsed: Seq<u64>,
        recent: Seq<SampleFrame>,
    ) -> Seq<DrawCommand>;

    /// The state at startup.
    fn setup() -> Self::State;

    /// The state for the tick at `time`.
    fn update(time: u64, state: Self::State) -> (r: Self::State)
        ensures
            r == Self::spec_update(time, state),
    ;

    /// The draw commands for one tick.
    fn draw(ctx: &FrameContext<Self::State>) -> (r: Vec<DrawCommand>)
        requires
            ctx.wf(),
        ensures
            r@ == Self::spec_draw(
                ctx.spec_window(),
                ctx.spec_time(),
                *ctx.spec_model(),
                ctx.levels(),
                ctx.elapsed(),
                ctx.recent(),
            ),
    ;
}

/// Each channel's time since its last hit, at `now`.
pub open spec fn elapsed_since(now: u64, last_hits: Seq<u64>) -> Seq<u64> {
    Seq::new(last_hits.len(), |c: int| (now - last_hits[c]) as u64)
}

/// One tick of the render loop: analyse the drained frames, advance the
/// mode's state, and have the mode draw against this tick's context.
/// Returns the new mode state and what the mode drew.
pub fn render_tick<M: Mode>(
    analyzer: &mut Analyzer,
    drained: Vec<SampleFrame>,
    now: u64,
    window: WindowRect,
    state: M::State,
) -> (r: (M::State, Vec<DrawCommand>))
    requires
        old(analyzer).wf(),
        old(analyzer).now() <= now,
    ensures
        final(analyzer).wf(),
        final(analyzer).pushed() == old(analyzer).pushed() + drained@,
        final(analyzer).now() == now,
        final(analyzer).recent() == drained@,
        final(analyzer).threshold() == old(analyzer).threshold(),
        final(analyzer).last_hits().len() == CHANNELS,
        forall|c: int|
            0 <= c < CHANNELS ==> #[trigger] final(analyzer).last_hits()[c] == latch(
                old(analyzer).last_hits()[c],
                exceeds(window_sum(final(analyzer).pushed(), c), old(analyzer).threshold()@),
                now,
            ),
        r.0 == M::spec_update(now, state),
        exists|levels: Seq<u32>|
            {
                &&& levels.len() == CHANNELS
                &&& forall|c: int|
                    0 <= c < CHANNELS ==> is_floor_rms(
                        #[trigger] levels[c] as int,
                        window_sum(final(analyzer).pushed(), c),
                    )
                &&& r.1@ == M::spec_draw(
                    window,
                    now,
                    r.0,
                    levels,
                    elapsed_since(now, final(analyzer).last_hits()),
                    drained@,
                )
            },
{
    analyzer.tick(drained, now);
    let next = M::update(now, state);
    let commands = {
        let ctx = analyzer.context(window, &next);
        assert(ctx.elapsed() =~= elapsed_since(now, analyzer.last_hits()));
        let commands = M::draw(&ctx);
        assert(ctx.levels().len() == CHANNELS && forall|c: int|
            0 <= c < CHANNELS ==> is_floor_rms(
                #[trigger] ctx.levels()[c] as int,
                window_sum(analyzer.pushed(), c),
            ));
        commands
    };
    (next, commands)
}

} // verus!
