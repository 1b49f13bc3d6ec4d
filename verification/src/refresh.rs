//! The refresh loop's decisions: what startup does with the discovered
//! modules, the fixed offset table that composes one tick's frame, and the
//! pacing of the loop. The loop itself — the sleeps and the writes — runs
//! outside the library and only carries these decisions out.

use crate::matrix::{Matrix, overlay_of};
use crate::widget::{
    AllCPUsWidget, BatteryWidget, ClockWidget, Shape, UpdatableWidget, widget_fits,
};
use vstd::prelude::*;

verus! {

/// What startup decides from the number of modules found: none is fatal;
/// otherwise the first module is driven, and a second is blanked once and
/// then left idle.
#[derive(Clone, Copy, PartialEq, Eq, Structural, Debug)]
pub enum StartupPlan {
    NoModules,
    Run { blank_secondary: bool },
}

/// Decide startup from the number of modules that discovery found.
pub fn plan_startup(num_modules: usize) -> (plan: StartupPlan)
    ensures
        num_modules == 0 ==> plan == StartupPlan::NoModules,
        num_modules >= 1 ==> plan == (StartupPlan::Run {
            blank_secondary: num_modules >= 2,
        }),
{
    if num_modules == 0 {
        StartupPlan::NoModules
    } else {
        StartupPlan::Run { blank_secondary: num_modules >= 2 }
    }
}

/// A frame with every cell dark.
pub open spec fn blank_grid() -> Seq<Seq<u8>> {
    Seq::new(34, |i: int| Seq::new(9, |j: int| 0u8))
}

/// A fresh frame with every cell dark.
pub fn blank_frame() -> (m: Matrix)
    ensures
        m.deep_view() == blank_grid(),
{
    let m: Matrix = [[0; 9]; 34];
    assert(m.deep_view() =~~= blank_grid());
    m
}

/// The frame one tick shows: on a dark frame, the battery bar at the top,
/// the CPU bars under it, and the clock at the bottom, each overwriting
/// whatever lies beneath its window.
pub open spec fn composed_frame(
    bat: Seq<u8>,
    cpu: Seq<u8>,
    cpu_shape: Shape,
    clock: Seq<u8>,
) -> Seq<Seq<u8>> {
    overlay_of(
        overlay_of(
            overlay_of(blank_grid(), bat, 9, 4, 0, 0),
            cpu,
            cpu_shape.x as int,
            cpu_shape.y as int,
            0,
            5,
        ),
        clock,
        9,
        11,
        0,
        23,
    )
}

/// Compose one tick's frame from the widgets' current bitmaps, at the
/// fixed offset table: battery at row 0, CPU at row 5, clock at row 23.
pub fn compose_frame(bat: &BatteryWidget, cpu: &AllCPUsWidget, clock: &ClockWidget) -> (m: Matrix)
    requires
        widget_fits(bat),
        widget_fits(cpu),
        widget_fits(clock),
        bat.spec_shape() == (Shape { x: 9, y: 4 }),
        clock.spec_shape() == (Shape { x: 9, y: 11 }),
        cpu.spec_shape().x <= 9,
        cpu.spec_shape().y <= 29,
    ensures
        m.deep_view() == composed_frame(
            bat.spec_matrix(),
            cpu.spec_matrix(),
            cpu.spec_shape(),
            clock.spec_matrix(),
        ),
{
    let mut frame = blank_frame();
    frame = crate::matrix::emplace(frame, bat, 0, 0);
    frame = crate::matrix::emplace(frame, cpu, 0, 5);
    frame = crate::matrix::emplace(frame, clock, 0, 23);
    frame
}

/// The practical ceiling on the refresh rate, in millihertz: the per-cell
/// brightness path takes too long for anything faster.
pub const MAX_RATE_MILLIHZ: u64 = 5500;

/// Whether a requested refresh rate, in millihertz, is attainable.
pub fn rate_allowed(rate_millihz: u64) -> (ok: bool)
    ensures
        ok == (rate_millihz <= MAX_RATE_MILLIHZ),
{
    rate_millihz <= MAX_RATE_MILLIHZ
}

/// Milliseconds per refresh tick for a rate given in millihertz.
pub fn period_ms_from_rate(rate_millihz: u64) -> (ms: u64)
    requires
        1 <= rate_millihz,
    ensures
        ms == 1_000_000u64 / rate_millihz,
{
    1_000_000 / rate_millihz
}

/// How long to sleep once a tick's work is done: the rest of the period,
/// or nothing at all — the configured rate was not attainable this tick.
pub fn tick_delay(period_ms: u64, elapsed_ms: u64) -> (delay: Option<u64>)
    ensures
        elapsed_ms < period_ms ==> delay == Some((period_ms - elapsed_ms) as u64),
        elapsed_ms >= period_ms ==> delay is None,
{
    if elapsed_ms < period_ms {
        Some(period_ms - elapsed_ms)
    } else {
        None
    }
}

} // verus!
