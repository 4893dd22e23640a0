//! The health bar's logic: the displayed value, the visibility timer that
//! hides the bar a few seconds after the last hit, and the color the fill
//! takes for a given health value. Drawing, theme access and the actual
//! show/hide calls belong to the engine widget around this core.

use vstd::prelude::*;
use crate::character::DELTA_LIMIT;

verus! {

/// How long the bar stays visible after an update, in microseconds.
pub const HEALTH_BAR_SHOW_US: i64 = 3_000_000;

/// The health bar's verified core: the displayed value and the remaining
/// visibility time.
#[derive(Clone, Copy, PartialEq, Eq, Structural, Debug)]
pub struct HealthBar {
    /// The displayed health value, zero to one hundred.
    pub value: i64,
    /// Remaining visibility time, in microseconds; the bar hides at zero.
    pub timer_us: i64,
}

impl HealthBar {
    /// A fresh bar: empty and hidden.
    pub fn new() -> (h: HealthBar)
        ensures
            h.value == 0,
            h.timer_us == 0,
    {
        HealthBar { value: 0, timer_us: 0 }
    }

    /// One frame of the visibility countdown. Reports whether the bar
    /// should now be hidden.
    pub fn process(&mut self, delta_us: u32) -> (hide: bool)
        requires
            0 <= old(self).timer_us <= HEALTH_BAR_SHOW_US,
            delta_us <= DELTA_LIMIT,
        ensures
            final(self).value == old(self).value,
            0 <= final(self).timer_us <= HEALTH_BAR_SHOW_US,
            final(self).timer_us == (if old(self).timer_us - delta_us >= 0 {
                old(self).timer_us - delta_us
            } else {
                0
            }),
            hide == (final(self).timer_us == 0),
    {
        if self.timer_us >= delta_us as i64 {
            self.timer_us = self.timer_us - delta_us as i64;
        } else {
            self.timer_us = 0;
        }
        self.timer_us == 0
    }

    /// Takes a new health value and restarts the visibility window. The
    /// widget around this core shows the bar and recolors its fill with
    /// `health_color`.
    pub fn update(&mut self, value: i64)
        ensures
            *final(self) == (HealthBar { value, timer_us: HEALTH_BAR_SHOW_US }),
    {
        self.value = value;
        self.timer_us = HEALTH_BAR_SHOW_US;
    }
}

/// The fill color for a health value, as red, green and blue channels:
/// red below a third, yellow below two thirds, green up to full. Values
/// outside the bar's range are a caller error and are excluded.
pub fn health_color(value: i64) -> (rgb: (u8, u8, u8))
    requires
        0 <= value <= 100,
    ensures
        value < 33 ==> rgb == (255u8, 0u8, 0u8),
        33 <= value < 66 ==> rgb == (255u8, 255u8, 0u8),
        66 <= value ==> rgb == (0u8, 255u8, 0u8),
{
    if value < 33 {
        (255, 0, 0)
    } else if value < 66 {
        (255, 255, 0)
    } else {
        (0, 255, 0)
    }
}

} // verus!
