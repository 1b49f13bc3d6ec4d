use ledmatrix::matrix::emplace;
use ledmatrix::refresh::{
    StartupPlan, blank_frame, compose_frame, period_ms_from_rate, plan_startup, rate_allowed,
    tick_delay,
};
use ledmatrix::widget::{
    AllCPUsWidget, BatteryWidget, ClockWidget, Shape, UpdatableWidget,
};

const ON_FULL: u8 = 120;
const ON_DIM: u8 = 68;

#[test]
fn battery_half_charge_lights_three_segments() {
    let mut bat = BatteryWidget::new();
    bat.update(5000, false); // 50.00%
    let m = bat.get_matrix();
    assert_eq!(m.len(), 36);
    // three dim segments in each interior row
    for i in 1..=3 {
        assert_eq!(m[9 + i], ON_DIM);
        assert_eq!(m[18 + i], ON_DIM);
    }
    // the rest of the interior stays dark
    for i in 4..=6 {
        assert_eq!(m[9 + i], 0);
        assert_eq!(m[18 + i], 0);
    }
    // the outline is untouched
    assert_eq!(m[0], ON_FULL);
    assert_eq!(m[9], ON_FULL);
    assert_eq!(m[16], ON_FULL);
    assert_eq!(m[35], 0);
}

#[test]
fn battery_full_charge_lights_all_segments_and_suppresses_indicator() {
    let mut bat = BatteryWidget::new();
    bat.update(10000, true); // 100.00%, charging
    let m = bat.get_matrix();
    // all six segments lit; at >= 99% the charging indicator must not fire
    for i in 1..=6 {
        assert_eq!(m[9 + i], ON_DIM);
        assert_eq!(m[18 + i], ON_DIM);
    }
}

#[test]
fn battery_charging_indicator_blinks() {
    let mut bat = BatteryWidget::new();
    // 50.00%: three segments, the indicator sits on the cell just past the
    // bar's base, which the fill has painted dim
    bat.update(5000, true);
    let first: Vec<u8> = bat.get_matrix().clone();
    assert_eq!(first[12], 0); // indicator phase one: dark
    assert_eq!(first[21], 0);
    bat.update(5000, true);
    let second: Vec<u8> = bat.get_matrix().clone();
    assert_eq!(second[12], ON_DIM); // phase two: dim
    assert_eq!(second[21], ON_DIM);
}

#[test]
fn battery_shape_is_fixed() {
    let bat = BatteryWidget::new();
    let s = bat.get_shape();
    assert_eq!(s, Shape { x: 9, y: 4 });
}

#[test]
fn cpu_per_core_bars_with_partial_pixel() {
    let mut cpu = AllCPUsWidget::new(2, false);
    assert_eq!(cpu.get_shape(), Shape { x: 9, y: 2 });
    cpu.update(&vec![50, 100]);
    let m = cpu.get_matrix();
    assert_eq!(m.len(), 18);
    // 50%: 4.5 cells; four full cells, then a half-bright cell
    for x in 0..4 {
        assert_eq!(m[x], ON_FULL);
    }
    assert_eq!(m[4], 60); // 50 of 100 remainder at brightness 120
    for x in 5..9 {
        assert_eq!(m[x], 0);
    }
    // 100%: the whole row
    for x in 0..9 {
        assert_eq!(m[9 + x], ON_FULL);
    }
}

#[test]
fn cpu_zero_usage_shows_nothing() {
    let mut cpu = AllCPUsWidget::new(1, false);
    cpu.update(&vec![0]);
    assert!(cpu.get_matrix().iter().all(|&c| c == 0));
}

#[test]
fn cpu_merged_mode_quantizes_pairs() {
    let mut cpu = AllCPUsWidget::new(4, true);
    assert_eq!(cpu.get_shape(), Shape { x: 8, y: 8 });
    cpu.update(&vec![100, 100, 0, 0]);
    let m = cpu.get_matrix();
    assert_eq!(m.len(), 64);
    for idy in 0..8 {
        // first pair averages 100: its whole column is lit
        assert_eq!(m[idy * 8], ON_FULL);
        // unused columns stay dark
        for idx in 2..8 {
            assert_eq!(m[idy * 8 + idx], 0);
        }
    }
    // second pair averages 0: only the bottom (zero-level) cell is lit
    for idy in 0..7 {
        assert_eq!(m[idy * 8 + 1], 0);
    }
    assert_eq!(m[7 * 8 + 1], ON_FULL);
}

#[test]
fn cpu_merged_mode_thresholds() {
    let mut cpu = AllCPUsWidget::new(2, true);
    cpu.update(&vec![30, 40]); // average 35: levels 0, 10, 20 and 30 light
    let m = cpu.get_matrix();
    for idy in 0..8 {
        let level = (7 - idy) * 10;
        let expected = if 35 >= level { ON_FULL } else { 0 };
        assert_eq!(m[idy * 8], expected, "level {}", level);
    }
}

#[test]
fn clock_digit_glyph() {
    let one = ClockWidget::render_digit(1);
    assert_eq!(
        one,
        vec![
            0, 0, ON_FULL,
            0, ON_DIM, ON_FULL,
            0, 0, ON_FULL,
            0, 0, ON_FULL,
            0, 0, ON_FULL,
        ]
    );
}

#[test]
fn clock_number_band_places_digits() {
    let band = ClockWidget::render_number(12);
    assert_eq!(band.len(), 45);
    // top row: the tens glyph (1) in columns 1-3, the ones glyph (2) in 5-7
    assert_eq!(&band[0..9], &[0, 0, 0, ON_FULL, 0, ON_FULL, ON_FULL, ON_FULL, 0]);
    // columns 0, 4 and 8 stay dark in every row
    for row in 0..5 {
        assert_eq!(band[row * 9], 0);
        assert_eq!(band[row * 9 + 4], 0);
        assert_eq!(band[row * 9 + 8], 0);
    }
}

#[test]
fn clock_update_stacks_hour_and_minute() {
    let mut clock = ClockWidget::new();
    clock.update(12, 34);
    let m = clock.get_matrix();
    assert_eq!(m.len(), 99);
    assert_eq!(&m[0..45], &ClockWidget::render_number(12)[..]);
    // one blank separator row
    assert!(m[45..54].iter().all(|&c| c == 0));
    assert_eq!(&m[54..99], &ClockWidget::render_number(34)[..]);
    assert_eq!(clock.get_shape(), Shape { x: 9, y: 11 });
}

#[test]
fn emplace_copies_widget_and_leaves_the_rest() {
    let mut bat = BatteryWidget::new();
    bat.update(5000, false);
    let frame = emplace(blank_frame(), &bat, 0, 0);
    let m = bat.get_matrix();
    for row in 0..4 {
        for col in 0..9 {
            assert_eq!(frame[row][col], m[row * 9 + col]);
        }
    }
    // every cell outside the widget's window is unchanged
    for row in 4..34 {
        for col in 0..9 {
            assert_eq!(frame[row][col], 0);
        }
    }
}

#[test]
fn emplace_later_overlay_wins() {
    let mut bat = BatteryWidget::new();
    bat.update(10000, false);
    let mut clock = ClockWidget::new();
    clock.update(8, 8);
    let frame = emplace(emplace(blank_frame(), &bat, 0, 0), &clock, 0, 0);
    let cm = clock.get_matrix();
    // the clock covers the battery entirely: every overlapping cell shows
    // the later overlay
    for row in 0..11 {
        for col in 0..9 {
            assert_eq!(frame[row][col], cm[row * 9 + col]);
        }
    }
}

#[test]
fn compose_frame_uses_the_offset_table() {
    let mut bat = BatteryWidget::new();
    bat.update(5000, false);
    let mut cpu = AllCPUsWidget::new(16, false);
    cpu.update(&vec![100; 16]);
    let mut clock = ClockWidget::new();
    clock.update(12, 34);
    let frame = compose_frame(&bat, &cpu, &clock);
    let bm = bat.get_matrix();
    let cm = clock.get_matrix();
    for col in 0..9 {
        assert_eq!(frame[0][col], bm[col]); // battery row 0 at frame row 0
        assert_eq!(frame[5][col], ON_FULL); // cpu at 100%: full row at frame row 5
        assert_eq!(frame[23][col], cm[col]); // clock row 0 at frame row 23
    }
    // row 4 and 21-22 lie between widgets and stay dark
    for col in 0..9 {
        assert_eq!(frame[4][col], 0);
        assert_eq!(frame[21][col], 0);
        assert_eq!(frame[22][col], 0);
    }
}

#[test]
fn startup_with_no_modules_is_fatal() {
    assert_eq!(plan_startup(0), StartupPlan::NoModules);
}

#[test]
fn startup_with_two_modules_blanks_the_secondary() {
    assert_eq!(plan_startup(1), StartupPlan::Run { blank_secondary: false });
    assert_eq!(plan_startup(2), StartupPlan::Run { blank_secondary: true });
}

#[test]
fn pacing_rejects_rates_over_the_ceiling() {
    assert!(rate_allowed(5500));
    assert!(!rate_allowed(5501));
}

#[test]
fn pacing_period_and_delay() {
    assert_eq!(period_ms_from_rate(500), 2000); // 0.5 Hz: one tick every 2 s
    assert_eq!(tick_delay(2000, 500), Some(1500));
    assert_eq!(tick_delay(2000, 2000), None);
    assert_eq!(tick_delay(100, 200), None);
}

#[test]
fn blank_frame_is_all_zero_on_the_wire() {
    let frames = ledmatrix::ledmatrix::draw_matrix_frames(blank_frame());
    assert_eq!(frames.len(), 10);
    for c in 0..9 {
        // each staged column of the blanking frame carries 34 zero cells
        assert!(frames[c][4..38].iter().all(|&b| b == 0));
    }
}
