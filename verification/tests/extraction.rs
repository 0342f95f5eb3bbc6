use plotview::Color;
use plotview::Image;
use plotview::Ratio;
use plotview::Region;
use plotview::Regions;

fn solid(width: u32, height: u32, c: Color, name: &str) -> Image {
    let pixels = vec![c; (width * height) as usize];
    Image::new(width, height, pixels, name.to_string()).unwrap()
}

fn completed(x1: u32, y1: u32, x2: u32, y2: u32) -> Region {
    let mut r = Region::start(x1, y1);
    r.finish(x2, y2);
    r
}

const WHITE: Color = Color { r: 255, g: 255, b: 255, a: 255 };
const BLACK: Color = Color { r: 0, g: 0, b: 0, a: 255 };

#[test]
fn coordinate_mapping_at_half_ratio() {
    let img = solid(100, 100, WHITE, "page.png");
    let region = completed(10, 10, 30, 30);
    let ratio = Ratio::new(1, 2);
    assert_eq!(img.source_rect(ratio, region), (20, 20, 40, 40));
}

#[test]
fn coordinate_mapping_at_unit_ratio() {
    let img = solid(100, 100, WHITE, "page.png");
    let region = completed(10, 10, 30, 30);
    let ratio = Ratio::new(1, 1);
    assert_eq!(img.source_rect(ratio, region), (10, 10, 20, 20));
}

#[test]
fn mapped_rectangle_is_clamped_to_image_bounds() {
    let img = solid(10, 10, WHITE, "page.png");
    let region = completed(10, 10, 30, 30);
    let ratio = Ratio::new(1, 2);
    // The raw mapping (20, 20, 40, 40) falls outside the 10x10 source.
    assert_eq!(img.source_rect(ratio, region), (10, 10, 0, 0));
    let crop = img.extract_region(0, ratio, region);
    assert_eq!(crop.dimensions(), (0, 0));
    assert!(crop.as_bytes().is_empty());
}

#[test]
fn color_keying_rewrites_foreground_and_background() {
    // 2x2 source: pure black, pure white, dark gray, pure red.
    let pixels = vec![
        BLACK,
        WHITE,
        Color { r: 50, g: 50, b: 50, a: 255 },
        Color { r: 255, g: 0, b: 0, a: 255 },
    ];
    let img = Image::new(2, 2, pixels, "glyph.png".to_string()).unwrap();
    let region = completed(0, 0, 2, 2);
    let tag = Color { r: 10, g: 20, b: 30, a: 40 };
    let mut reg = region;
    reg.update_color(tag);
    let crop = img.extract_region(0, Ratio::new(1, 1), reg);
    assert_eq!(crop.dimensions(), (2, 2));
    let bytes = crop.as_bytes();
    // Pure black is foreground: it takes the tag color with the tag's alpha.
    assert_eq!(&bytes[0..4], &[10, 20, 30, 40]);
    // Pure white is background: fully transparent.
    assert_eq!(&bytes[4..8], &[0, 0, 0, 0]);
    // (50, 50, 50) is within margin 200 of black, so foreground.
    assert_eq!(&bytes[8..12], &[10, 20, 30, 40]);
    // Pure red matches on its G and B channels alone: any-channel rule.
    assert_eq!(&bytes[12..16], &[10, 20, 30, 40]);
}

#[test]
fn color_keying_margin_is_inclusive_per_channel() {
    let pixels = vec![
        Color { r: 200, g: 200, b: 200, a: 255 },
        Color { r: 201, g: 201, b: 201, a: 255 },
        Color { r: 201, g: 201, b: 200, a: 255 },
        WHITE,
    ];
    let img = Image::new(2, 2, pixels, "edge.png".to_string()).unwrap();
    let tag = Color { r: 1, g: 2, b: 3, a: 255 };
    let mut region = completed(0, 0, 2, 2);
    region.update_color(tag);
    let bytes = img.extract_region(0, Ratio::new(1, 1), region).as_bytes();
    // Exactly at the margin: still foreground.
    assert_eq!(&bytes[0..4], &[1, 2, 3, 255]);
    // One past the margin on every channel: background.
    assert_eq!(&bytes[4..8], &[0, 0, 0, 0]);
    // One channel back at the margin: foreground again.
    assert_eq!(&bytes[8..12], &[1, 2, 3, 255]);
}

#[test]
fn extraction_crops_the_mapped_rectangle() {
    // 4x4 white source with a black pixel at (2, 1).
    let mut pixels = vec![WHITE; 16];
    pixels[1 * 4 + 2] = BLACK;
    let img = Image::new(4, 4, pixels, "mark.png".to_string()).unwrap();
    // Preview is half-size, so preview (1, 0)-(2, 1) maps to (2, 0)-(4, 2).
    let region = completed(1, 0, 2, 1);
    let crop = img.extract_region(0, Ratio::new(1, 2), region);
    assert_eq!(crop.dimensions(), (2, 2));
    let bytes = crop.as_bytes();
    assert_eq!(&bytes[0..4], &[0, 0, 0, 0]); // (2, 0) was white
    assert_eq!(&bytes[4..8], &[0, 0, 0, 0]); // (3, 0) was white
    // (2, 1) was black: foreground, rewritten to the default gray tag.
    assert_eq!(&bytes[8..12], &[160, 160, 160, 255]);
    assert_eq!(&bytes[12..16], &[0, 0, 0, 0]); // (3, 1) was white
}

#[test]
fn sequenced_export_naming() {
    let img = solid(100, 100, WHITE, "page.png");
    let mut rs = Regions::new();
    rs.start(0, 0);
    rs.finish(10, 10);
    rs.start(20, 20);
    rs.finish(30, 30);
    rs.start(40, 40);
    rs.finish(50, 50);
    let crops = rs.get_image_crops(Ratio::new(1, 1), &img);
    assert_eq!(crops.len(), 3);
    assert_eq!(crops[0].name().as_str(), "page-0.png");
    assert_eq!(crops[1].name().as_str(), "page-1.png");
    assert_eq!(crops[2].name().as_str(), "page-2.png");
}

#[test]
fn export_preserves_creation_order_and_sizes() {
    let img = solid(100, 100, BLACK, "img-000.png");
    let mut rs = Regions::new();
    rs.start(0, 0);
    rs.finish(10, 20);
    rs.start(50, 50);
    rs.finish(90, 60);
    let crops = rs.get_image_crops(Ratio::new(1, 1), &img);
    assert_eq!(crops.len(), 2);
    assert_eq!(crops[0].dimensions(), (10, 20));
    assert_eq!(crops[1].dimensions(), (40, 10));
    assert_eq!(crops[0].name().as_str(), "img-000-0.png");
    assert_eq!(crops[1].name().as_str(), "img-000-1.png");
}

#[test]
fn image_new_rejects_mismatched_buffer() {
    let pixels = vec![WHITE; 5];
    assert!(Image::new(2, 2, pixels, "x.png".to_string()).is_none());
}

#[test]
fn as_bytes_flattens_row_major_rgba() {
    let pixels = vec![
        Color { r: 1, g: 2, b: 3, a: 4 },
        Color { r: 5, g: 6, b: 7, a: 8 },
    ];
    let img = Image::new(2, 1, pixels, "two.png".to_string()).unwrap();
    assert_eq!(img.as_bytes(), vec![1, 2, 3, 4, 5, 6, 7, 8]);
    assert_eq!(img.dimensions(), (2, 1));
}
