//! Arithmetic on fan speeds.
//!
//! A speed may be asked for as a percentage of a fan's maximum. The conversion
//! to rotations per minute is the same for every fan, so it lives here, once.

use vstd::prelude::*;

verus! {

/// The speed, in RPM, that is `percent` hundredths of `max_rpm`, rounded down.
pub open spec fn percent_of_max(max_rpm: u16, percent: u8) -> u16
    recommends
        percent <= 100,
{
    ((max_rpm as int * percent as int) / 100) as u16
}

/// A percentage of a speed is the floor of the exact quotient, and lies between zero
/// and the speed it is taken of: nothing is lost where the product of the two
/// exceeds what a speed holds.
pub proof fn percent_of_max_is_exact(max_rpm: u16, percent: u8)
    requires
        percent <= 100,
    ensures
        percent_of_max(max_rpm, percent) as int == (max_rpm as int * percent as int) / 100,
        0 <= max_rpm as int * percent as int <= 100 * max_rpm as int,
        percent_of_max(max_rpm, percent) <= max_rpm,
{
    assert(0 <= max_rpm as int * percent as int <= 100 * max_rpm as int) by (nonlinear_arith)
        requires
            0 <= percent as int <= 100,
            0 <= max_rpm as int,
    ;
}

/// Zero percent of any speed is standstill.
pub proof fn zero_percent_is_standstill(max_rpm: u16)
    ensures
        percent_of_max(max_rpm, 0) == 0,
{
    percent_of_max_is_exact(max_rpm, 0);
}

/// One hundred percent of a speed is that speed.
pub proof fn hundred_percent_is_max(max_rpm: u16)
    ensures
        percent_of_max(max_rpm, 100) == max_rpm,
{
    percent_of_max_is_exact(max_rpm, 100);
}

/// Computes the speed that is `percent` percent of `max_rpm`, rounded down.
///
/// The product of the two can exceed what a speed holds, so it is formed in 32
/// bits, where it always fits.
pub fn rpm_from_percent(max_rpm: u16, percent: u8) -> (rpm: u16)
    requires
        percent <= 100,
    ensures
        rpm as int == (max_rpm as int * percent as int) / 100,
        rpm == percent_of_max(max_rpm, percent),
{
    proof {
        percent_of_max_is_exact(max_rpm, percent);
    }
    let product: u32 = u32::from(max_rpm) * u32::from(percent);
    let rpm: u32 = product / 100;
    rpm as u16
}

} // verus!
