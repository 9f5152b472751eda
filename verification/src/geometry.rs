//! Monitor and window sizes, and the seventy-percent rule that relates them.

use vstd::prelude::*;

verus! {

/// Resolution of a display in pixels, as the platform reported it at launch.
#[derive(Clone, Copy, Debug, PartialEq, Eq, Structural)]
pub struct MonitorGeometry {
    pub width: u32,
    pub height: u32,
}

/// Size of a window in logical (DPI-independent) pixels.
///
/// Every size computed here is a whole number of logical pixels, so both
/// dimensions are held as integers.
#[derive(Clone, Copy, Debug, PartialEq, Eq, Structural)]
pub struct WindowSize {
    pub width: u32,
    pub height: u32,
}

/// `rounded` is `0.7 * pixels` rounded to the nearest integer, a tie going away
/// from zero: `rounded - 1/2 <= 0.7 * pixels < rounded + 1/2`, with both sides
/// multiplied by ten.
pub open spec fn is_seventy_percent_rounded(pixels: nat, rounded: int) -> bool {
    10 * rounded - 5 <= 7 * pixels < 10 * rounded + 5
}

/// Seventy percent of `pixels`, rounded to the nearest integer, a tie going
/// away from zero.
pub open spec fn seventy_percent(pixels: nat) -> nat {
    ((7 * pixels + 5) / 10) as nat
}

/// The window size that goes with a monitor: each dimension is seventy percent
/// of the monitor's, rounded.
pub open spec fn target_size_of(monitor: MonitorGeometry) -> WindowSize {
    WindowSize {
        width: seventy_percent(monitor.width as nat) as u32,
        height: seventy_percent(monitor.height as nat) as u32,
    }
}

/// `seventy_percent(pixels)` is the one integer that is `0.7 * pixels` rounded
/// half away from zero.
pub proof fn lemma_seventy_percent_is_the_rounding(pixels: nat)
    ensures
        is_seventy_percent_rounded(pixels, seventy_percent(pixels) as int),
        forall|r: int| is_seventy_percent_rounded(pixels, r) ==> r == seventy_percent(pixels),
{
}

/// The scaled dimension never exceeds the dimension it was taken from, so it
/// fits the same integer type, and it is zero only for a dimension of zero
/// pixels.
pub proof fn lemma_seventy_percent_bounds(pixels: nat)
    ensures
        seventy_percent(pixels) <= pixels,
        pixels > 0 ==> seventy_percent(pixels) > 0,
{
}

/// Seventy percent of one dimension, rounded half away from zero.
pub fn scale_dimension(pixels: u32) -> (scaled: u32)
    ensures
        scaled == seventy_percent(pixels as nat),
        is_seventy_percent_rounded(pixels as nat, scaled as int),
        scaled <= pixels,
{
    let widened: u64 = pixels as u64;
    let scaled: u64 = (7 * widened + 5) / 10;
    scaled as u32
}

/// The initial size of the main window on a monitor of the given resolution.
pub fn target_size(monitor: MonitorGeometry) -> (size: WindowSize)
    ensures
        size == target_size_of(monitor),
        size.width == seventy_percent(monitor.width as nat),
        size.height == seventy_percent(monitor.height as nat),
{
    WindowSize { width: scale_dimension(monitor.width), height: scale_dimension(monitor.height) }
}

} // verus!
