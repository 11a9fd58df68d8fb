//! A mode with a kick ellipse on one channel, a snare flash of the
//! background on another, and a level meter of the snare channel.
use vstd::prelude::*;

use crate::analysis::FrameContext;
use crate::canvas::{DrawCommand, Hsl, WindowRect};
use crate::modes::example_mode::{
    kick_color, kick_radius, meter_bar, render_kick_ellipse, render_meter, ModeModel,
};
use crate::render::Mode;
use crate::SampleFrame;

verus! {

/// The channel whose onsets pulse the ellipse.
pub const KICK_CHANNEL: usize = 2;

/// The channel whose onsets flash the background, and whose level the meter
/// shows.
pub const SNARE_CHANNEL: usize = 3;

/// The background's saturation right at an onset, in thousandths.
pub const SNARE_SATURATION: u64 = 1000;

/// Time units (microseconds) for the saturation to fall by one thousandth.
pub const SNARE_FADE_PERIOD: u64 = 1000;

/// The background's saturation `elapsed` microseconds after an onset: one
/// whole unit per second less, and never below zero.
pub open spec fn snare_saturation(elapsed: u64) -> u64 {
    if elapsed / SNARE_FADE_PERIOD >= SNARE_SATURATION {
        0
    } else {
        (SNARE_SATURATION - elapsed / SNARE_FADE_PERIOD) as u64
    }
}

pub open spec fn snare_background(elapsed: u64) -> DrawCommand {
    DrawCommand::Background {
        color: Hsl { hue: 100, saturation: snare_saturation(elapsed) as u32, lightness: 500 },
    }
}

/// The scene: the kick ellipse, then the snare background, then the snare
/// meter.
pub open spec fn drum_scene(window: WindowRect, levels: Seq<u32>, elapsed: Seq<u64>) -> Seq<DrawCommand> {
    seq![
        DrawCommand::Ellipse {
            radius: kick_radius(elapsed[KICK_CHANNEL as int]),
            color: kick_color(),
        },
        snare_background(elapsed[SNARE_CHANNEL as int]),
        meter_bar(window, levels[SNARE_CHANNEL as int]),
    ]
}

/// The background flash `elapsed` microseconds after a snare onset.
pub fn render_snare_animation(elapsed: u64) -> (r: DrawCommand)
    ensures
        r == snare_background(elapsed),
{
    let fade = elapsed / SNARE_FADE_PERIOD;
    let saturation = if fade >= SNARE_SATURATION {
        0
    } else {
        SNARE_SATURATION - fade
    };
    DrawCommand::Background {
        color: Hsl { hue: 100, saturation: saturation as u32, lightness: 500 },
    }
}

/// The drum mode, as bound to the render loop. It keeps no state.
pub struct DrumMode;

impl DrumMode {
    /// The kick ellipse, then the snare background, then the snare meter.
    pub fn draw_scene(ctx: &FrameContext<ModeModel>) -> (r: Vec<DrawCommand>)
        requires
            ctx.wf(),
        ensures
            r@ == drum_scene(ctx.spec_window(), ctx.levels(), ctx.elapsed()),
    {
        let window = ctx.window();
        let kick_fn = |elapsed: u64| -> (d: DrawCommand)
            ensures
                d == (DrawCommand::Ellipse { radius: kick_radius(elapsed), color: kick_color() }),
            {
                render_kick_ellipse(elapsed)
            };
        let snare_fn = |elapsed: u64| -> (d: DrawCommand)
            ensures
                d == snare_background(elapsed),
            {
                render_snare_animation(elapsed)
            };
        let meter_fn = |level: u32| -> (d: DrawCommand)
            ensures
                d == meter_bar(window, level),
            {
                render_meter(window, level)
            };
        let mut r: Vec<DrawCommand> = Vec::new();
        r.push(ctx.audio_trigger(KICK_CHANNEL, kick_fn));
        r.push(ctx.audio_trigger(SNARE_CHANNEL, snare_fn));
        r.push(ctx.meter(SNARE_CHANNEL, meter_fn));
        r
    }
}

impl Mode for DrumMode {
    type State = ModeModel;

    open spec fn spec_update(time: u64, state: ModeModel) -> ModeModel {
        state
    }

    open spec fn spec_draw(
        window: WindowRect,
        time: u64,
        state: ModeModel,
        levels: Seq<u32>,
        elapsed: Seq<u64>,
        recent: Seq<SampleFrame>,
    ) -> Seq<DrawCommand> {
        drum_scene(window, levels, elapsed)
    }

    fn setup() -> ModeModel {
        ModeModel {}
    }

    fn update(time: u64, state: ModeModel) -> ModeModel {
        state
    }

    fn draw(ctx: &FrameContext<ModeModel>) -> Vec<DrawCommand> {
        DrumMode::draw_scene(ctx)
    }
}

} // verus!
