use plotview::Color;
use plotview::is_color;
use plotview::naming::crop_name;
use plotview::naming::dec_str;
use plotview::naming::file_stem;

#[test]
fn stem_strips_the_last_extension() {
    assert_eq!(file_stem("page.png"), "page");
    assert_eq!(file_stem("archive.tar.gz"), "archive.tar");
    assert_eq!(file_stem("trailing."), "trailing");
}

#[test]
fn stem_keeps_names_without_extension() {
    assert_eq!(file_stem("noext"), "noext");
    assert_eq!(file_stem(".bashrc"), ".bashrc");
    assert_eq!(file_stem("x"), "x");
}

#[test]
fn decimal_rendering() {
    assert_eq!(dec_str(0).as_str(), "0");
    assert_eq!(dec_str(7).as_str(), "7");
    assert_eq!(dec_str(120).as_str(), "120");
    assert_eq!(dec_str(4294967295).as_str(), "4294967295");
}

#[test]
fn crop_names_append_counter_and_extension() {
    assert_eq!(crop_name("page.png", 0).as_str(), "page-0.png");
    assert_eq!(crop_name("img-000.ppm", 12).as_str(), "img-000-12.png");
    assert_eq!(crop_name("noext", 3).as_str(), "noext-3.png");
}

#[test]
fn is_color_matches_on_any_single_channel() {
    let black = Color { r: 0, g: 0, b: 0, a: 255 };
    let red = Color { r: 255, g: 0, b: 0, a: 255 };
    // All channels far from black but G and B within the margin.
    assert!(is_color(black, red, 200));
    let white = Color { r: 255, g: 255, b: 255, a: 255 };
    assert!(!is_color(black, white, 200));
}

#[test]
fn is_color_margin_is_inclusive_and_ignores_alpha() {
    let black = Color { r: 0, g: 0, b: 0, a: 255 };
    let at_margin = Color { r: 200, g: 200, b: 200, a: 0 };
    let past_margin = Color { r: 201, g: 201, b: 201, a: 255 };
    assert!(is_color(black, at_margin, 200));
    assert!(!is_color(black, past_margin, 200));
}

#[test]
fn is_color_works_against_nonblack_references() {
    let mid = Color { r: 100, g: 100, b: 100, a: 255 };
    let probe = Color { r: 90, g: 250, b: 250, a: 255 };
    assert!(is_color(mid, probe, 10));
    let probe2 = Color { r: 89, g: 250, b: 250, a: 255 };
    assert!(!is_color(mid, probe2, 10));
}
