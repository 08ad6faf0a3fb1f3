//! The bitrate policy: maps a resolution to a target/max bitrate tier.
//! Thresholds are evaluated on the pixel count, highest tier first, each
//! boundary closed at its lower edge.

use vstd::prelude::*;
use vstd::string::*;

verus! {

/// The target bitrate magnitude for a pixel count.
pub open spec fn tier_target(pixels: int) -> Seq<char> {
    if pixels >= 3840 * 2160 {
        "20M"@
    } else if pixels >= 1920 * 1080 {
        "8M"@
    } else if pixels >= 1280 * 720 {
        "5M"@
    } else {
        "3M"@
    }
}

/// The maximum (VBV-cap) bitrate magnitude for a pixel count; only the
/// hardware paths consume it.
pub open spec fn tier_max(pixels: int) -> Seq<char> {
    if pixels >= 3840 * 2160 {
        "30M"@
    } else if pixels >= 1920 * 1080 {
        "12M"@
    } else if pixels >= 1280 * 720 {
        "7M"@
    } else {
        "4M"@
    }
}

/// A bitrate tier as encoder-consumable magnitude strings.
pub struct BitrateTier {
    pub target: String,
    pub max: String,
}

/// The pixel product as an overflow-free 64-bit value.
fn pixel_count(width: u32, height: u32) -> (p: u64)
    ensures
        p == width as int * height as int,
{
    proof {
        assert(width as int * height as int <= 0xffff_ffff * 0xffff_ffff) by (nonlinear_arith)
            requires
                width <= 0xffff_ffffu32,
                height <= 0xffff_ffffu32,
        ;
    }
    (width as u64) * (height as u64)
}

/// The target bitrate for a resolution; zero width or height (an
/// undetected video stream) lands in the lowest tier.
pub fn calculate_bitrate(width: u32, height: u32) -> (r: String)
    ensures
        r@ == tier_target(width as int * height as int),
{
    let pixels = pixel_count(width, height);
    if pixels >= 3840 * 2160 {
        String::from_str("20M")
    } else if pixels >= 1920 * 1080 {
        String::from_str("8M")
    } else if pixels >= 1280 * 720 {
        String::from_str("5M")
    } else {
        String::from_str("3M")
    }
}

/// The maximum (VBV-cap) bitrate for a resolution.
pub fn calculate_max_bitrate(width: u32, height: u32) -> (r: String)
    ensures
        r@ == tier_max(width as int * height as int),
{
    let pixels = pixel_count(width, height);
    if pixels >= 3840 * 2160 {
        String::from_str("30M")
    } else if pixels >= 1920 * 1080 {
        String::from_str("12M")
    } else if pixels >= 1280 * 720 {
        String::from_str("7M")
    } else {
        String::from_str("4M")
    }
}

/// Both magnitudes of the tier for a resolution.
pub fn bitrate_tier(width: u32, height: u32) -> (t: BitrateTier)
    ensures
        t.target@ == tier_target(width as int * height as int),
        t.max@ == tier_max(width as int * height as int),
{
    BitrateTier { target: calculate_bitrate(width, height), max: calculate_max_bitrate(width, height) }
}

/// Tier boundaries are closed at the lower edge: exactly 1920 x 1080
/// (2,073,600 pixels) selects the 8M/12M tier, and one pixel fewer selects
/// 5M/7M.
pub proof fn lemma_tier_lower_edge_closed()
    ensures
        tier_target((1920 * 1080) as int) == "8M"@,
        tier_max((1920 * 1080) as int) == "12M"@,
        tier_target((1920 * 1080 - 1) as int) == "5M"@,
        tier_max((1920 * 1080 - 1) as int) == "7M"@,
{
}

} // verus!
