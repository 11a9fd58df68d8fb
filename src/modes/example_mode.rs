//! A mode that draws a level meter for one channel and a kick ellipse that
//! shrinks after each onset on another.
use vstd::prelude::*;

use crate::analysis::FrameContext;
use crate::canvas::{DrawCommand, Hsl, WindowRect};
use crate::render::Mode;
use crate::{SampleFrame, FULL_SCALE};

verus! {

/// The channel whose loudness the meter shows.
pub const METER_CHANNEL: usize = 3;

/// The channel whose onsets pulse the ellipse.
pub const KICK_CHANNEL: usize = 4;

/// Half the meter's width, in pixels.
pub const METER_HALF_WIDTH: i64 = 25;

/// The ellipse's radius right at an onset, in pixels.
pub const KICK_RADIUS: u64 = 50;

/// Time units (microseconds) for the ellipse to shrink by one pixel.
pub const KICK_SHRINK_PERIOD: u64 = 10000;

/// This mode's state; it keeps nothing between ticks.
#[derive(Clone, Copy, Debug, PartialEq, Eq)]
pub struct ModeModel {}

pub open spec fn background_color() -> Hsl {
    Hsl { hue: 100, saturation: 500, lightness: 500 }
}

pub open spec fn meter_color() -> Hsl {
    Hsl { hue: 200, saturation: 300, lightness: 200 }
}

pub open spec fn kick_color() -> Hsl {
    Hsl { hue: 800, saturation: 400, lightness: 2000 }
}

/// The meter: a bar rising from the window's bottom edge to the height that
/// `level` takes of full scale.
pub open spec fn meter_bar(window: WindowRect, level: u32) -> DrawCommand {
    let h = window.height as int;
    DrawCommand::Rect {
        left: (-METER_HALF_WIDTH) as i64,
        bottom: (-(h / 2)) as i64,
        right: METER_HALF_WIDTH,
        top: (level as int * h / FULL_SCALE as int - h / 2) as i64,
        color: meter_color(),
    }
}

/// The ellipse's radius `elapsed` microseconds after an onset: 100 pixels
/// per second smaller, and never below zero.
pub open spec fn kick_radius(elapsed: u64) -> u64 {
    if elapsed / KICK_SHRINK_PERIOD >= KICK_RADIUS {
        0
    } else {
        (KICK_RADIUS - elapsed / KICK_SHRINK_PERIOD) as u64
    }
}

/// The scene this mode draws for one tick.
pub open spec fn scene(window: WindowRect, level: u32, elapsed: u64) -> Seq<DrawCommand> {
    seq![
        DrawCommand::Background { color: background_color() },
        meter_bar(window, level),
        DrawCommand::Ellipse { radius: kick_radius(elapsed), color: kick_color() },
    ]
}

/// The example mode, as bound to the render loop.
pub struct ExampleMode;

impl Mode for ExampleMode {
    type State = ModeModel;

    open spec fn spec_update(time: u64, state: ModeModel) -> ModeModel {
        state
    }

    open spec fn spec_draw(
        window: WindowRect,
        time: u64,
        state: ModeModel,
        levels: Seq<u32>,
        elapsed: Seq<u64>,
        recent: Seq<SampleFrame>,
    ) -> Seq<DrawCommand> {
        scene(window, levels[METER_CHANNEL as int], elapsed[KICK_CHANNEL as int])
    }

    fn setup() -> ModeModel {
        setup()
    }

    fn update(time: u64, state: ModeModel) -> ModeModel {
        update(time, state)
    }

    fn draw(ctx: &FrameContext<ModeModel>) -> Vec<DrawCommand> {
        draw(ctx)
    }
}

/// The mode's state at startup.
pub fn setup() -> (r: ModeModel)
    ensures
        r == (ModeModel {}),
{
    ModeModel {}
}

/// Advances the state by one tick; this mode's state does not change.
pub fn update(time: u64, mode_model: ModeModel) -> (r: ModeModel)
    ensures
        r == mode_model,
{
    mode_model
}

/// Draws the background, the meter of `METER_CHANNEL` and the ellipse of
/// `KICK_CHANNEL`.
pub fn draw(ctx: &FrameContext<ModeModel>) -> (r: Vec<DrawCommand>)
    requires
        ctx.wf(),
    ensures
        r@ == scene(
            ctx.spec_window(),
            ctx.levels()[METER_CHANNEL as int],
            ctx.elapsed()[KICK_CHANNEL as int],
        ),
{
    let window = ctx.window();
    let meter_fn = |level: u32| -> (d: DrawCommand)
        ensures
            d == meter_bar(window, level),
        {
            render_meter(window, level)
        };
    let kick_fn = |elapsed: u64| -> (d: DrawCommand)
        ensures
            d == (DrawCommand::Ellipse { radius: kick_radius(elapsed), color: kick_color() }),
        {
            render_kick_ellipse(elapsed)
        };
    let bar = ctx.meter(METER_CHANNEL, meter_fn);
    let ellipse = ctx.audio_trigger(KICK_CHANNEL, kick_fn);
    let mut r: Vec<DrawCommand> = Vec::new();
    r.push(DrawCommand::Background { color: Hsl { hue: 100, saturation: 500, lightness: 500 } });
    r.push(bar);
    r.push(ellipse);
    assert(r@ =~= scene(
        ctx.spec_window(),
        ctx.levels()[METER_CHANNEL as int],
        ctx.elapsed()[KICK_CHANNEL as int],
    ));
    r
}

/// The meter bar for `level`.
pub fn render_meter(window: WindowRect, level: u32) -> (r: DrawCommand)
    ensures
        r == meter_bar(window, level),
{
    let h = window.height as i64;
    assert(level as int * window.height as int <= 4294967295 * 4294967295) by (nonlinear_arith)
        requires
            level <= 4294967295,
            window.height <= 4294967295,
    ;
    let product = (level as u128) * (window.height as u128);
    assert(product / 32768 <= 4294967295 * 4294967295 / 32768) by (nonlinear_arith)
        requires
            product <= 4294967295 * 4294967295,
    ;
    let rise = (product / (FULL_SCALE as u128)) as i64;
    DrawCommand::Rect {
        left: -METER_HALF_WIDTH,
        bottom: -(h / 2),
        right: METER_HALF_WIDTH,
        top: rise - h / 2,
        color: Hsl { hue: 200, saturation: 300, lightness: 200 },
    }
}

/// The kick ellipse `elapsed` microseconds after an onset.
pub fn render_kick_ellipse(elapsed: u64) -> (r: DrawCommand)
    ensures
        r == (DrawCommand::Ellipse { radius: kick_radius(elapsed), color: kick_color() }),
{
    let shrink = elapsed / KICK_SHRINK_PERIOD;
    let radius = if shrink >= KICK_RADIUS {
        0
    } else {
        KICK_RADIUS - shrink
    };
    DrawCommand::Ellipse { radius, color: Hsl { hue: 800, saturation: 400, lightness: 2000 } }
}

} // verus!
