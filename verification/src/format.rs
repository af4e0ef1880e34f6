//! Surface pixel-format selection.
//!
//! A surface reports the pixel formats it supports; the renderer picks the
//! first entry of a fixed preference list that the surface supports, and
//! treats a surface supporting neither as a fatal setup failure.  Formats are
//! carried as their numeric graphics-API codes.

use vstd::prelude::*;

verus! {

/// Format code for 8-bit BGRA with sRGB encoding (the preferred choice).
pub const FORMAT_B8G8R8A8_SRGB: u32 = 50;

/// Format code for 8-bit RGBA with sRGB encoding (the fallback choice).
pub const FORMAT_R8G8B8A8_SRGB: u32 = 43;

/// Format code for a 32-bit floating-point depth attachment.
pub const FORMAT_D32_SFLOAT: u32 = 126;

/// The ordered preference list for the swapchain's colour format.
pub open spec fn spec_format_preferences() -> Seq<u32> {
    seq![FORMAT_B8G8R8A8_SRGB, FORMAT_R8G8B8A8_SRGB]
}

/// The format the renderer chooses from a surface's supported list: the
/// first preferred format the surface supports, or nothing if the surface
/// supports neither preferred format.
pub open spec fn spec_choose_format(supported: Seq<u32>) -> Option<u32> {
    if supported.contains(FORMAT_B8G8R8A8_SRGB) {
        Some(FORMAT_B8G8R8A8_SRGB)
    } else if supported.contains(FORMAT_R8G8B8A8_SRGB) {
        Some(FORMAT_R8G8B8A8_SRGB)
    } else {
        None
    }
}

/// Whether a list of format codes contains `format`.
fn contains_format(supported: &Vec<u32>, format: u32) -> (r: bool)
    ensures
        r == supported@.contains(format),
{
    let mut i: usize = 0;
    while i < supported.len()
        invariant
            i <= supported@.len(),
            forall|j: int| 0 <= j < i ==> supported@[j] != format,
        decreases supported@.len() - i,
    {
        if supported[i] == format {
            assert(supported@[i as int] == format);
            return true;
        }
        i += 1;
    }
    false
}

/// Picks the swapchain colour format from the formats the surface supports:
/// the first match from the preference list, in preference order, regardless
/// of the order in which the surface reports its formats.
pub fn choose_format(supported: &Vec<u32>) -> (r: Option<u32>)
    ensures
        r == spec_choose_format(supported@),
{
    if contains_format(supported, FORMAT_B8G8R8A8_SRGB) {
        Some(FORMAT_B8G8R8A8_SRGB)
    } else if contains_format(supported, FORMAT_R8G8B8A8_SRGB) {
        Some(FORMAT_R8G8B8A8_SRGB)
    } else {
        None
    }
}

} // verus!
