use rust_pilot::flow::{ScreenPercentages, SwipeOptions};
use rust_pilot::gesture::{percent_to_pixel, swipe_pixels, Viewport};

fn pct(s: &str) -> ScreenPercentages {
    ScreenPercentages(s.to_string())
}

#[test]
fn test_percentages_plain_pair() {
    assert_eq!(pct("50, 20").to_hundredths(), Some((5000, 2000)));
}

#[test]
fn test_percentages_percent_signs_and_spaces() {
    assert_eq!(pct(" 50%, 20%").to_hundredths(), Some((5000, 2000)));
    // The percent signs are stripped before the spaces, so a space after a
    // percent sign leaves it in the number and the pair is rejected.
    assert_eq!(pct("50% , 20").to_hundredths(), None);
}

#[test]
fn test_percentages_decimals() {
    assert_eq!(pct("12.5, 99.99").to_hundredths(), Some((1250, 9999)));
}

#[test]
fn test_percentages_bounds_accepted() {
    assert_eq!(pct("0, 0").to_hundredths(), Some((0, 0)));
    assert_eq!(pct("100, 100").to_hundredths(), Some((10000, 10000)));
}

#[test]
fn test_percentages_negative_rejected() {
    assert_eq!(pct("-1, 50").to_hundredths(), None);
}

#[test]
fn test_percentages_above_hundred_rejected() {
    assert_eq!(pct("150, 50").to_hundredths(), None);
    assert_eq!(pct("100.5, 0").to_hundredths(), None);
}

#[test]
fn test_percentages_malformed_rejected() {
    assert_eq!(pct("50").to_hundredths(), None);
    assert_eq!(pct("1, 2, 3").to_hundredths(), None);
    assert_eq!(pct("a, 5").to_hundredths(), None);
    assert_eq!(pct("5.123, 5").to_hundredths(), None);
    assert_eq!(pct("", ).to_hundredths(), None);
}

#[test]
fn test_pixel_mapping_rounds() {
    // round(1080 * 50 / 100) = 540; round(333 * 50 / 100) = round(166.5) = 167.
    assert_eq!(percent_to_pixel(1080, 5000), 540);
    assert_eq!(percent_to_pixel(333, 5000), 167);
    assert_eq!(percent_to_pixel(1080, 0), 0);
    assert_eq!(percent_to_pixel(1080, 10000), 1080);
}

#[test]
fn test_swipe_pixels_full_gesture() {
    let opts = SwipeOptions { start: pct("50, 80"), end: pct("50, 20") };
    let v = Viewport { width: 1080, height: 1920 };
    let px = swipe_pixels(&opts, v).unwrap();
    assert_eq!(px.from_x, 540);
    assert_eq!(px.from_y, 1536);
    assert_eq!(px.to_x, 540);
    assert_eq!(px.to_y, 384);
}

#[test]
fn test_swipe_pixels_rejects_bad_end() {
    let opts = SwipeOptions { start: pct("50, 80"), end: pct("x, 20") };
    let v = Viewport { width: 1080, height: 1920 };
    assert!(swipe_pixels(&opts, v).is_none());
}
