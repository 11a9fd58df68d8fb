use reyesy::analysis::Analyzer;
use reyesy::canvas::{DrawCommand, Hsl, WindowRect};
use reyesy::modes::example_mode::{
    draw, render_kick_ellipse, render_meter, setup, update, ModeModel,
};
use reyesy::modes::drum_mode::{render_snare_animation, DrumMode};
use reyesy::modes::example_mode::ExampleMode;
use reyesy::onset::{OnsetDetector, Threshold};
use reyesy::render::{render_tick, Mode};
use reyesy::rms::{floor_rms, RollingRms};
use reyesy::transport::{capture_channel, TransportError};
use reyesy::{SampleFrame, CHANNELS, FULL_SCALE, WINDOW_LEN};

fn frame_on(channel: usize, value: i16) -> SampleFrame {
    let mut f = [0i16; 16];
    f[channel] = value;
    f
}

fn amplitude(level: u32) -> f64 {
    level as f64 / FULL_SCALE as f64
}

#[test]
fn single_impulse_after_silence() {
    let mut a = Analyzer::new(Threshold::standard());
    let mut frames = vec![[0i16; 16]; 127];
    frames.push(frame_on(0, i16::MAX));
    a.tick(frames, 1);
    let rms = a.current();
    assert_eq!(rms[0], 2896);
    assert!((amplitude(rms[0]) - (1.0f64 / 128.0).sqrt()).abs() < 1e-3);
    assert!((amplitude(rms[0]) - 0.0884).abs() < 1e-3);
    for c in 1..CHANNELS {
        assert_eq!(rms[c], 0);
    }
}

#[test]
fn filling_window_latches_hit_on_that_tick() {
    let level = (0.2f32 * FULL_SCALE as f32) as i16;
    let mut a = Analyzer::new(Threshold::standard());
    a.tick(vec![frame_on(5, level); WINDOW_LEN], 1_000);
    assert_eq!(a.last_hit(5), 1_000);
    assert!((amplitude(a.rms(5)) - 0.2).abs() < 1e-3);
    for c in 0..CHANNELS {
        if c != 5 {
            assert_eq!(a.last_hit(c), 0);
        }
    }
}

#[test]
fn first_crossing_while_filling() {
    let level = (0.2f32 * FULL_SCALE as f32) as i16;
    let mut a = Analyzer::new(Threshold::standard());
    let mut first: Option<u64> = None;
    for t in 1..=(WINDOW_LEN as u64) {
        a.tick(vec![frame_on(5, level)], t);
        if first.is_none() && a.last_hit(5) == t {
            first = Some(t);
        }
    }
    // 73 frames of 0.2 give sqrt(73 / 128) * 0.2 > 0.15; 72 do not.
    assert_eq!(first, Some(73));
    assert_eq!(a.last_hit(5), WINDOW_LEN as u64);
    assert_eq!(a.last_hit(0), 0);
}

#[test]
fn silent_window_has_zero_rms() {
    let mut r = RollingRms::new();
    assert_eq!(r.current(), vec![0u32; CHANNELS]);
    r.push_all(&vec![[0i16; 16]; 300]);
    for c in 0..CHANNELS {
        assert_eq!(r.rms(c), 0);
        assert_eq!(r.square_sum(c), 0);
    }
}

#[test]
fn constant_window_has_rms_of_its_magnitude() {
    for a in [1i16, 7, 1000, -1000, 6553, i16::MAX, i16::MIN] {
        let mut r = RollingRms::new();
        r.push_all(&vec![[a; 16]; WINDOW_LEN + 5]);
        let m = (a as i32).unsigned_abs();
        assert_eq!(r.current(), vec![m; CHANNELS]);
    }
}

#[test]
fn oldest_frame_is_evicted() {
    let mut r = RollingRms::new();
    r.push(frame_on(2, 100));
    assert_eq!(r.square_sum(2), 10_000);
    r.push_all(&vec![[0i16; 16]; WINDOW_LEN - 1]);
    assert_eq!(r.square_sum(2), 10_000);
    r.push([0i16; 16]);
    assert_eq!(r.square_sum(2), 0);
    assert_eq!(r.rms(2), 0);
}

#[test]
fn partial_window_is_zero_padded() {
    let mut r = RollingRms::new();
    r.push_all(&vec![frame_on(1, 64); 32]);
    // sum = 32 * 64^2, mean over 128 = 1024, sqrt = 32
    assert_eq!(r.square_sum(1), 32 * 64 * 64);
    assert_eq!(r.rms(1), 32);
}

#[test]
fn floor_rms_rounds_down() {
    assert_eq!(floor_rms(0), 0);
    assert_eq!(floor_rms(128 * 9), 3);
    assert_eq!(floor_rms(128 * 9 - 1), 2);
    assert_eq!(floor_rms(128 * 16 - 1), 3);
    assert_eq!(floor_rms(128 * 1_073_741_824), 32768);
}

#[test]
fn threshold_ratio_needs_a_denominator() {
    assert!(Threshold::ratio(1, 0).is_none());
    assert_eq!(Threshold::ratio(3, 20), Some(Threshold::standard()));
}

#[test]
fn threshold_compares_exact_rms() {
    let t = Threshold::standard();
    // RMS 0.15 exactly: sum = 128 * (0.15 * 32768)^2 = 128 * 4915.2^2
    let at = 128.0f64 * 4915.2f64 * 4915.2f64;
    assert!(!t.is_exceeded_by(at.floor() as u64));
    assert!(t.is_exceeded_by(at.ceil() as u64));
    assert!(!t.is_exceeded_by(0));
    let never = Threshold::ratio(2, 1).unwrap();
    assert!(!never.is_exceeded_by(128 * 1_073_741_824));
    let always = Threshold::ratio(0, 1).unwrap();
    assert!(always.is_exceeded_by(1));
}

#[test]
fn detector_latches_per_channel() {
    let mut r = RollingRms::new();
    let mut d = OnsetDetector::new(Threshold::standard());
    r.push_all(&vec![frame_on(7, i16::MAX); WINDOW_LEN]);
    d.detect(&r, 42);
    assert_eq!(d.last_hit(7), 42);
    assert_eq!(d.last_hit(6), 0);
    d.detect(&r, 50);
    assert_eq!(d.last_hit(7), 50);
}

#[test]
fn empty_drain_changes_nothing() {
    let mut a = Analyzer::new(Threshold::standard());
    a.tick(vec![frame_on(3, 500); 10], 5);
    let before = a.current();
    let hits: Vec<u64> = (0..CHANNELS).map(|c| a.last_hit(c)).collect();
    a.tick(Vec::new(), 9);
    assert_eq!(a.current(), before);
    let after: Vec<u64> = (0..CHANNELS).map(|c| a.last_hit(c)).collect();
    assert_eq!(after, hits);
}

#[test]
fn latch_holds_while_quiet() {
    let mut a = Analyzer::new(Threshold::standard());
    a.tick(vec![frame_on(2, i16::MAX); WINDOW_LEN], 100);
    assert_eq!(a.last_hit(2), 100);
    assert_eq!(a.elapsed(2), 0);
    a.tick(vec![[0i16; 16]; WINDOW_LEN], 250);
    assert_eq!(a.last_hit(2), 250 - 150);
    assert_eq!(a.elapsed(2), 150);
    a.tick(Vec::new(), 400);
    assert_eq!(a.elapsed(2), 300);
}

#[test]
fn capabilities_pass_current_values() {
    let mut a = Analyzer::new(Threshold::standard());
    a.tick(vec![frame_on(3, 10000); WINDOW_LEN], 10);
    a.tick(vec![frame_on(4, 20), frame_on(4, -30)], 25);
    let state = setup();
    let ctx = a.context(WindowRect { width: 640, height: 480 }, &state);
    let mut calls = 0;
    let level = ctx.meter(3, |v| {
        calls += 1;
        v
    });
    assert_eq!(calls, 1);
    assert_eq!(level, a.rms(3));
    // 126 of the 128 window frames still hold 10000: 10000 * sqrt(126 / 128)
    assert_eq!(level, 9921);
    assert_eq!(ctx.audio_trigger(3, |e| e), 0);
    assert_eq!(ctx.midi_trigger(3, |e| e), 0);
    assert_eq!(ctx.midi_trigger(4, |e| e), 25);
    assert_eq!(ctx.audio_trigger(4, |e| e), 25);
    assert_eq!(ctx.scope(4, |s| s), vec![20i16, -30]);
    assert_eq!(ctx.scope(0, |s| s), vec![0i16, 0]);
    assert_eq!(ctx.time(), 25);
    assert_eq!(ctx.window(), WindowRect { width: 640, height: 480 });
    assert_eq!(*ctx.model(), ModeModel {});
}

#[test]
fn example_mode_scene() {
    let mut a = Analyzer::new(Threshold::standard());
    a.tick(vec![frame_on(4, i16::MAX); WINDOW_LEN], 1_200_000);
    a.tick(vec![frame_on(3, 16384); WINDOW_LEN], 1_230_000);
    let state = update(1_230_000, setup());
    assert_eq!(state, ModeModel {});
    let ctx = a.context(WindowRect { width: 800, height: 600 }, &state);
    let cmds = draw(&ctx);
    assert_eq!(cmds.len(), 3);
    assert_eq!(
        cmds[0],
        DrawCommand::Background { color: Hsl { hue: 100, saturation: 500, lightness: 500 } }
    );
    assert_eq!(
        cmds[1],
        DrawCommand::Rect {
            left: -25,
            bottom: -300,
            right: 25,
            top: 0,
            color: Hsl { hue: 200, saturation: 300, lightness: 200 },
        }
    );
    assert_eq!(
        cmds[2],
        DrawCommand::Ellipse { radius: 47, color: Hsl { hue: 800, saturation: 400, lightness: 2000 } }
    );
}

#[test]
fn kick_ellipse_shrinks_to_zero() {
    let radius = |e: u64| match render_kick_ellipse(e) {
        DrawCommand::Ellipse { radius, .. } => radius,
        _ => panic!("not an ellipse"),
    };
    assert_eq!(radius(0), 50);
    assert_eq!(radius(9_999), 50);
    assert_eq!(radius(10_000), 49);
    assert_eq!(radius(250_000), 25);
    assert_eq!(radius(499_999), 1);
    assert_eq!(radius(500_000), 0);
    assert_eq!(radius(u64::MAX), 0);
}

#[test]
fn meter_spans_window_height() {
    let w = WindowRect { width: 100, height: 400 };
    let top = |level: u32| match render_meter(w, level) {
        DrawCommand::Rect { top, bottom, .. } => {
            assert_eq!(bottom, -200);
            top
        }
        _ => panic!("not a rect"),
    };
    assert_eq!(top(0), -200);
    assert_eq!(top(32768), 200);
    assert_eq!(top(8192), -100);
}

#[test]
fn transport_keeps_order() {
    let (tx, rx) = capture_channel();
    assert!(rx.drain().is_empty());
    for v in 1..=3i16 {
        assert_eq!(tx.send(frame_on(0, v)), Ok(()));
    }
    let got = rx.drain();
    assert_eq!(got, vec![frame_on(0, 1), frame_on(0, 2), frame_on(0, 3)]);
    assert!(rx.drain().is_empty());
}

#[test]
fn transport_send_after_teardown_fails() {
    let (tx, rx) = capture_channel();
    drop(rx);
    assert_eq!(tx.send([0i16; 16]), Err(TransportError::Disconnected));
}

#[test]
fn render_tick_runs_analysis_then_mode() {
    let mut a = Analyzer::new(Threshold::standard());
    let state = <ExampleMode as Mode>::setup();
    let (state, cmds) = render_tick::<ExampleMode>(
        &mut a,
        vec![frame_on(4, i16::MAX); WINDOW_LEN],
        70_000,
        WindowRect { width: 200, height: 100 },
        state,
    );
    assert_eq!(state, ModeModel {});
    assert_eq!(a.time(), 70_000);
    assert_eq!(a.last_hit(4), 70_000);
    assert_eq!(cmds.len(), 3);
    assert_eq!(
        cmds[1],
        DrawCommand::Rect {
            left: -25,
            bottom: -50,
            right: 25,
            top: -50,
            color: Hsl { hue: 200, saturation: 300, lightness: 200 },
        }
    );
    assert_eq!(
        cmds[2],
        DrawCommand::Ellipse { radius: 50, color: Hsl { hue: 800, saturation: 400, lightness: 2000 } }
    );
}

#[test]
fn snare_background_fades_over_a_second() {
    let saturation = |e: u64| match render_snare_animation(e) {
        DrawCommand::Background { color } => {
            assert_eq!((color.hue, color.lightness), (100, 500));
            color.saturation
        }
        _ => panic!("not a background"),
    };
    assert_eq!(saturation(0), 1000);
    assert_eq!(saturation(999), 1000);
    assert_eq!(saturation(250_000), 750);
    assert_eq!(saturation(999_999), 1);
    assert_eq!(saturation(1_000_000), 0);
    assert_eq!(saturation(u64::MAX), 0);
}

#[test]
fn drum_mode_scene() {
    let mut a = Analyzer::new(Threshold::standard());
    a.tick(vec![frame_on(2, i16::MAX); WINDOW_LEN], 100_000);
    let mut quiet_kick = vec![frame_on(3, 16384); WINDOW_LEN];
    quiet_kick[0] = [0i16; 16];
    a.tick(quiet_kick, 300_000);
    let state = <DrumMode as Mode>::setup();
    let ctx = a.context(WindowRect { width: 10, height: 20 }, &state);
    let cmds = <DrumMode as Mode>::draw(&ctx);
    assert_eq!(
        cmds,
        vec![
            DrawCommand::Ellipse {
                radius: 30,
                color: Hsl { hue: 800, saturation: 400, lightness: 2000 },
            },
            DrawCommand::Background { color: Hsl { hue: 100, saturation: 1000, lightness: 500 } },
            DrawCommand::Rect {
                left: -25,
                bottom: -10,
                right: 25,
                top: -1,
                color: Hsl { hue: 200, saturation: 300, lightness: 200 },
            },
        ]
    );
}
