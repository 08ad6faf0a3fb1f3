use tvcode::bitrate::{bitrate_tier, calculate_bitrate, calculate_max_bitrate};

#[test]
fn uhd_tier() {
    assert_eq!(calculate_bitrate(3840, 2160), "20M");
    assert_eq!(calculate_max_bitrate(3840, 2160), "30M");
}

#[test]
fn full_hd_tier() {
    assert_eq!(calculate_bitrate(1920, 1080), "8M");
    assert_eq!(calculate_max_bitrate(1920, 1080), "12M");
}

#[test]
fn hd_tier() {
    assert_eq!(calculate_bitrate(1280, 720), "5M");
    assert_eq!(calculate_max_bitrate(1280, 720), "7M");
}

#[test]
fn sd_tier() {
    assert_eq!(calculate_bitrate(720, 576), "3M");
    assert_eq!(calculate_max_bitrate(720, 576), "4M");
}

#[test]
fn zero_dimensions_fall_into_the_lowest_tier() {
    assert_eq!(calculate_bitrate(0, 0), "3M");
    assert_eq!(calculate_max_bitrate(0, 0), "4M");
}

#[test]
fn full_hd_boundary_is_closed_at_the_lower_edge() {
    // Exactly 2,073,600 pixels selects 8M/12M; one pixel fewer, 5M/7M.
    assert_eq!(calculate_bitrate(1920, 1080), "8M");
    assert_eq!(calculate_max_bitrate(1920, 1080), "12M");
    assert_eq!(calculate_bitrate(2_073_599, 1), "5M");
    assert_eq!(calculate_max_bitrate(2_073_599, 1), "7M");
}

#[test]
fn tier_bundles_both_magnitudes() {
    let t = bitrate_tier(1920, 1080);
    assert_eq!(t.target, "8M");
    assert_eq!(t.max, "12M");
}
