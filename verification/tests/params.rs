use mandelbrot_shader::fixed::Fixed;
use mandelbrot_shader::fixed::SCALE;
use mandelbrot_shader::params::update_params;
use mandelbrot_shader::params::MotionDelta;
use mandelbrot_shader::params::RenderParams;
use mandelbrot_shader::params::RenderParamsResource;
use mandelbrot_shader::rational::Rational;

#[test]
fn initial_height_is_aspect_derived() {
    let p = RenderParams::new(1280, 720);
    assert_eq!(p.width_pixels, 1280);
    assert_eq!(p.height_pixels, 720);
    assert_eq!(p.width.units, 10 * SCALE);
    // 10 * 720 / 1280 == 5.625 == 45/8
    assert_eq!(p.height.units, 45 * SCALE / 8);
    assert_eq!(p.offset_x.units, 0);
    assert_eq!(p.offset_y.units, 0);
    assert_eq!(p.iters, 100);
}

#[test]
fn zoom_in_scales_width_and_bumps_iters() {
    let mut p = RenderParams::new(1280, 720);
    p.zoom(1);
    assert_eq!(p.width.units, 9 * SCALE);
    // 9 * 720 / 1280 == 5.0625 == 81/16
    assert_eq!(p.height.units, 81 * SCALE / 16);
    assert_eq!(p.iters, 102);
}

#[test]
fn zoom_out_scales_width_and_drops_iters() {
    let mut p = RenderParams::new(1280, 720);
    p.zoom(-1);
    assert_eq!(p.width.units, 11 * SCALE);
    // 11 * 720 / 1280 == 99/16
    assert_eq!(p.height.units, 99 * SCALE / 16);
    assert_eq!(p.iters, 98);
}

#[test]
fn zoom_zero_magnitude_changes_nothing() {
    let mut p = RenderParams::new(1280, 720);
    let q = p;
    p.zoom(0);
    assert_eq!(p, q);
}

#[test]
fn zoom_never_changes_offsets() {
    let mut p = RenderParams::new(1280, 720);
    p.offset_x = Fixed { units: 3 * SCALE / 7 };
    p.offset_y = Fixed { units: -2 * SCALE / 5 };
    p.zoom(1);
    assert_eq!(p.offset_x.units, 3 * SCALE / 7);
    assert_eq!(p.offset_y.units, -2 * SCALE / 5);
    p.zoom(-1);
    assert_eq!(p.offset_x.units, 3 * SCALE / 7);
    assert_eq!(p.offset_y.units, -2 * SCALE / 5);
}

#[test]
fn pan_never_changes_extent_or_iters() {
    let mut p = RenderParams::new(1280, 720);
    let q = p;
    p.pan(Rational::from_int(10), Rational::from_int(-4));
    assert_eq!(p.width, q.width);
    assert_eq!(p.height, q.height);
    assert_eq!(p.iters, q.iters);
    assert_eq!(p.width_pixels, q.width_pixels);
    assert_eq!(p.height_pixels, q.height_pixels);
}

#[test]
fn pan_scales_pixel_delta_by_current_extent() {
    let mut p = RenderParams::new(1280, 720);
    p.pan(Rational::from_int(10), Rational::from_int(0));
    // offset_x decreases by exactly 10 * 10 / 1280 == 0.078125 == 5/64
    assert_eq!(p.offset_x.units, -5 * SCALE / 64);
    assert_eq!(p.offset_y.units, 0);
}

#[test]
fn scroll_events_apply_sequentially_in_order() {
    let mut store = RenderParamsResource {
        render_params: RenderParams::new(1280, 720),
    };
    let scrolls: Vec<i64> = vec![1, 1, -1];
    let motions: Vec<MotionDelta> = Vec::new();
    update_params(&mut store, &scrolls, false, &motions);
    // 10 * 0.9 * 0.9 * 1.1 == 8.91 == 891/100
    assert_eq!(store.render_params.width.units, 891 * SCALE / 100);
    assert_eq!(store.render_params.iters, 102);
}

#[test]
fn motions_are_ignored_unless_dragging() {
    let mut store = RenderParamsResource {
        render_params: RenderParams::new(1280, 720),
    };
    let scrolls: Vec<i64> = Vec::new();
    let motions = vec![MotionDelta {
        dx: Rational::from_int(10),
        dy: Rational::from_int(0),
    }];
    update_params(&mut store, &scrolls, false, &motions);
    assert_eq!(store.render_params.offset_x.units, 0);
    update_params(&mut store, &scrolls, true, &motions);
    assert_eq!(store.render_params.offset_x.units, -5 * SCALE / 64);
}

#[test]
fn scrolls_apply_before_motions_within_one_tick() {
    let mut store = RenderParamsResource {
        render_params: RenderParams::new(1280, 720),
    };
    let scrolls: Vec<i64> = vec![1];
    let motions = vec![MotionDelta {
        dx: Rational::from_int(10),
        dy: Rational::from_int(0),
    }];
    update_params(&mut store, &scrolls, true, &motions);
    // The pan uses the already-zoomed width: 10 * 9 / 1280 == 9/128, not 5/64.
    assert_eq!(store.render_params.offset_x.units, -9 * SCALE / 128);
}

#[test]
fn budget_follows_every_zoom_event_and_goes_negative() {
    let mut p = RenderParams::new(1280, 720);
    for _ in 0..51 {
        p.zoom(-1);
    }
    // 100 - 2 * 51: no lower bound holds the budget up.
    assert_eq!(p.iters, -2);
}

#[test]
fn frozen_extent_still_adjusts_budget() {
    let mut p = RenderParams::new(1280, 720);
    p.width = Fixed { units: i128::MAX };
    for _ in 0..51 {
        p.zoom(-1);
    }
    // The extent update is out of range and stays put; the budget moves on.
    assert_eq!(p.width.units, i128::MAX);
    assert_eq!(p.iters, -2);
}

#[test]
fn pan_whose_update_overflows_is_skipped() {
    let mut p = RenderParams::new(1280, 720);
    let q = p;
    p.pan(Rational::from_int(i128::MAX), Rational::from_int(0));
    assert_eq!(p, q);
}

#[test]
fn deep_navigation_keeps_working() {
    let mut store = RenderParamsResource {
        render_params: RenderParams::new(1280, 720),
    };
    // A long session: three hundred zoom-ins, then three hundred drags.
    let scrolls: Vec<i64> = vec![1; 300];
    let no_motions: Vec<MotionDelta> = Vec::new();
    update_params(&mut store, &scrolls, false, &no_motions);
    assert_eq!(store.render_params.iters, 700);
    let width_units = store.render_params.width.units;
    assert!(width_units > 0);
    let motions = vec![
        MotionDelta {
            dx: Rational::new(3 * 1024 / 2, 1024),
            dy: Rational::new(-1024 / 2, 1024),
        };
        300
    ];
    let no_scrolls: Vec<i64> = Vec::new();
    let before_x = store.render_params.offset_x.units;
    update_params(&mut store, &no_scrolls, true, &motions);
    // Every one of the 300 motion events landed, none was skipped.
    let step = (3 * 1024 / 2) * width_units / (1024 * 1280);
    assert_eq!(store.render_params.offset_x.units, before_x - 300 * step);
}
