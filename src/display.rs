//! Backlight control of the display panel.

use vstd::prelude::*;

verus! {

/// Level of a GPIO output.
#[derive(Clone, Copy, Debug, PartialEq, Eq, Structural)]
pub enum GpioLevel {
    Low,
    High,
}

/// Level of the backlight PWM pin that turns the backlight on or off.
fn set_backlight(enable: bool) -> (level: GpioLevel)
    ensures
        level == (if enable {
            GpioLevel::High
        } else {
            GpioLevel::Low
        }),
{
    if enable {
        GpioLevel::High
    } else {
        GpioLevel::Low
    }
}

/// Level of the backlight PWM pin that shows the backlight.
pub fn display_backlight() -> (level: GpioLevel)
    ensures
        level == GpioLevel::High,
{
    set_backlight(true)
}

/// Level of the backlight PWM pin that hides the backlight.
pub fn hide_backlight() -> (level: GpioLevel)
    ensures
        level == GpioLevel::Low,
{
    set_backlight(false)
}

} // verus!
