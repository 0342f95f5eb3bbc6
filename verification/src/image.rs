//! The source raster and the extraction of completed regions from it.
//!
//! An [`Image`] is a decoded RGBA raster with a file name. Extraction maps
//! a completed region from preview coordinates back onto the source
//! raster, crops it, and color-keys the crop: near-black pixels take the
//! region's tag color, all others become fully transparent.

use vstd::prelude::*;
use vstd::arithmetic::div_mod::lemma_fundamental_div_mod_converse;

use crate::color::Color;
use crate::color::is_color;
use crate::color::spec_black;
use crate::color::spec_is_color;
use crate::color::spec_transparent;
use crate::naming::crop_name;
use crate::naming::spec_crop_name;
use crate::regions::Region;
use crate::regions::RegionState;

verus! {

/// The per-channel margin around pure black within which a source pixel
/// counts as foreground during color-keying.
pub const COLOR_KEY_MARGIN: u8 = 200;

/// The scale ratio between the preview image and the source image:
/// preview size = source size × `num / den`. The preview is produced by
/// whole halvings, so the ratio is an exact rational.
#[derive(Clone, Copy, Debug, PartialEq, Eq, Structural)]
pub struct Ratio {
    pub num: u32,
    pub den: u32,
}

impl Ratio {
    pub open spec fn wf(self) -> bool {
        self.num >= 1 && self.den >= 1
    }

    pub fn new(num: u32, den: u32) -> (r: Ratio)
        requires
            num >= 1,
            den >= 1,
        ensures
            r == (Ratio { num, den }),
            r.wf(),
    {
        Ratio { num, den }
    }
}

/// The byte a flattened RGBA buffer holds at channel `k` of a pixel.
pub open spec fn channel_of(c: Color, k: int) -> u8 {
    if k == 0 {
        c.r
    } else if k == 1 {
        c.g
    } else if k == 2 {
        c.b
    } else {
        c.a
    }
}

/// A pixel sequence flattened to interleaved RGBA bytes.
pub open spec fn bytes_of(pixels: Seq<Color>) -> Seq<u8> {
    Seq::new(4 * pixels.len(), |i: int| channel_of(pixels[i / 4], i % 4))
}

/// What the color-keying step rewrites one source pixel to: the region's
/// tag color when the pixel is within the key margin of black on some
/// channel, fully transparent otherwise.
pub open spec fn keyed_pixel(src: Color, tag: Color) -> Color {
    if spec_is_color(spec_black(), src, COLOR_KEY_MARGIN as int) {
        tag
    } else {
        spec_transparent()
    }
}

/// An immutable decoded raster: row-major RGBA pixels with its pixel
/// dimensions and the file name it came from or is destined for.
#[derive(Clone)]
pub struct Image {
    width: u32,
    height: u32,
    pixels: Vec<Color>,
    name: String,
}

impl Image {
    pub closed spec fn spec_width(self) -> u32 {
        self.width
    }

    pub closed spec fn spec_height(self) -> u32 {
        self.height
    }

    /// The pixels in row-major order.
    pub closed spec fn pixels_view(self) -> Seq<Color> {
        self.pixels@
    }

    /// The file name, as a character sequence.
    pub closed spec fn name_view(self) -> Seq<char> {
        self.name@
    }

    /// The pixel buffer holds exactly one pixel per coordinate.
    pub open spec fn wf(self) -> bool {
        self.pixels_view().len() == self.spec_width() * self.spec_height()
    }

    /// The pixel at column `x` of row `y`.
    pub open spec fn pixel_at(self, x: int, y: int) -> Color {
        self.pixels_view()[y * self.spec_width() + x]
    }

    /// Build an image from a decoded pixel buffer. Returns `None` exactly
    /// when the buffer does not hold one pixel per coordinate.
    pub fn new(width: u32, height: u32, pixels: Vec<Color>, name: String) -> (r: Option<Image>)
        ensures
            match r {
                Some(img) => {
                    &&& img.spec_width() == width
                    &&& img.spec_height() == height
                    &&& img.pixels_view() == pixels@
                    &&& img.name_view() == name@
                    &&& img.wf()
                },
                None => pixels@.len() != width * height,
            },
    {
        proof {
            assert(width * height <= 0xffff_ffff_ffff_ffff) by (nonlinear_arith)
                requires
                    width <= 0xffff_ffffu32,
                    height <= 0xffff_ffffu32,
            ;
        }
        if pixels.len() as u64 == width as u64 * height as u64 {
            Some(Image { width, height, pixels, name })
        } else {
            None
        }
    }

    /// The pixel dimensions, width then height.
    pub fn dimensions(&self) -> (r: (u32, u32))
        ensures
            r.0 == self.spec_width(),
            r.1 == self.spec_height(),
    {
        (self.width, self.height)
    }

    /// The file name this image came from or is destined for.
    pub fn name(&self) -> (r: &String)
        ensures
            r@ == self.name_view(),
    {
        &self.name
    }

    /// The raw pixel buffer as interleaved RGBA bytes, row-major.
    pub fn as_bytes(&self) -> (r: Vec<u8>)
        ensures
            r@ == bytes_of(self.pixels_view()),
    {
        let mut out: Vec<u8> = Vec::new();
        let mut i: usize = 0;
        while i < self.pixels.len()
            invariant
                i <= self.pixels@.len(),
                out@.len() == 4 * i,
                forall|t: int|
                    0 <= t < out@.len() ==> out@[t] == channel_of(
                        self.pixels@[t / 4],
                        t % 4,
                    ),
            decreases self.pixels@.len() - i,
        {
            let p = self.pixels[i];
            out.push(p.r);
            out.push(p.g);
            out.push(p.b);
            out.push(p.a);
            i = i + 1;
        }
        proof {
            assert(out@ =~= bytes_of(self.pixels_view()));
        }
        out
    }

    /// Where `region` falls on this source image, as `(x, y, width,
    /// height)` in source pixels: each preview coordinate is divided by
    /// the scale ratio with truncation toward zero, and the resulting
    /// rectangle is clamped to the image bounds.
    pub open spec fn spec_source_rect(self, ratio: Ratio, region: Region) -> (int, int, int, int)
        recommends
            ratio.wf(),
            region.state is Complete,
    {
        match region.state {
            RegionState::Complete { x1, y1, x2, y2 } => {
                let sx0 = x1 * ratio.den / (ratio.num as int);
                let sy0 = y1 * ratio.den / (ratio.num as int);
                let sw0 = (x2 - x1) * ratio.den / (ratio.num as int);
                let sh0 = (y2 - y1) * ratio.den / (ratio.num as int);
                let sx = if sx0 > self.spec_width() { self.spec_width() as int } else { sx0 };
                let sy = if sy0 > self.spec_height() { self.spec_height() as int } else { sy0 };
                let sw = if sw0 > self.spec_width() - sx { self.spec_width() - sx } else { sw0 };
                let sh = if sh0 > self.spec_height() - sy {
                    self.spec_height() - sy
                } else {
                    sh0
                };
                (sx, sy, sw, sh)
            },
            RegionState::Start { .. } => (0, 0, 0, 0),
        }
    }

    /// Map a completed region from preview space onto this image: divide
    /// each coordinate and each side length by the scale ratio, truncating
    /// toward zero, then clamp the rectangle to the image bounds.
    pub fn source_rect(&self, ratio: Ratio, region: Region) -> (r: (u32, u32, u32, u32))
        requires
            ratio.wf(),
            region.state is Complete,
            region.wf(),
        ensures
            ({
                let (sx, sy, sw, sh) = self.spec_source_rect(ratio, region);
                r.0 == sx && r.1 == sy && r.2 == sw && r.3 == sh
            }),
            r.0 as int + r.2 as int <= self.spec_width(),
            r.1 as int + r.3 as int <= self.spec_height(),
    {
        let (x1, y1, x2, y2) = match region.state {
            RegionState::Complete { x1, y1, x2, y2 } => (x1, y1, x2, y2),
            RegionState::Start { .. } => {
                proof {
                    assert(false);
                }
                (0, 0, 0, 0)
            },
        };
        let num = ratio.num as u64;
        let den = ratio.den as u64;
        proof {
            lemma_u32_mul_fits(x1 as u64, den);
            lemma_u32_mul_fits(y1 as u64, den);
            lemma_u32_mul_fits((x2 - x1) as u64, den);
            lemma_u32_mul_fits((y2 - y1) as u64, den);
        }
        let sx0 = x1 as u64 * den / num;
        let sy0 = y1 as u64 * den / num;
        let sw0 = (x2 - x1) as u64 * den / num;
        let sh0 = (y2 - y1) as u64 * den / num;
        let sx = if sx0 > self.width as u64 { self.width } else { sx0 as u32 };
        let sy = if sy0 > self.height as u64 { self.height } else { sy0 as u32 };
        let sw = if sw0 > (self.width - sx) as u64 { self.width - sx } else { sw0 as u32 };
        let sh = if sh0 > (self.height - sy) as u64 { self.height - sy } else { sh0 as u32 };
        (sx, sy, sw, sh)
    }

    /// The pixels of the color-keyed crop at `(sx, sy)` of size `sw × sh`,
    /// in row-major order.
    pub open spec fn extracted_pixels(
        self,
        sx: int,
        sy: int,
        sw: int,
        sh: int,
        tag: Color,
    ) -> Seq<Color> {
        Seq::new(
            (sw * sh) as nat,
            |t: int| keyed_pixel(self.pixel_at(sx + t % sw, sy + t / sw), tag),
        )
    }

    /// Extract one completed region from this source image: crop the
    /// mapped rectangle, color-key every pixel against the region's tag,
    /// and name the result `<stem>-<counter>.png` after this image's name.
    /// Extraction of a region still being drawn is a caller protocol
    /// violation and is ruled out by the precondition.
    pub fn extract_region(&self, counter: u32, ratio: Ratio, region: Region) -> (r: Image)
        requires
            self.wf(),
            ratio.wf(),
            region.state is Complete,
            region.wf(),
        ensures
            r.wf(),
            is_extraction(*self, counter as nat, ratio, region, r),
    {
        let (sx, sy, sw, sh) = self.source_rect(ratio, region);
        let tag = region.color;
        let black = Color::black();
        let total = self.pixels.len();

        let mut pixels: Vec<Color> = Vec::new();
        let mut j: u32 = 0;
        while j < sh
            invariant
                self.wf(),
                total == self.pixels_view().len(),
                sx as int + sw as int <= self.spec_width(),
                sy as int + sh as int <= self.spec_height(),
                j <= sh,
                black == spec_black(),
                pixels@.len() == j * sw,
                forall|t: int|
                    0 <= t < pixels@.len() ==> pixels@[t] == keyed_pixel(
                        self.pixel_at(sx + t % (sw as int), sy + t / (sw as int)),
                        tag,
                    ),
            decreases sh - j,
        {
            let mut i: u32 = 0;
            while i < sw
                invariant
                    self.wf(),
                    total == self.pixels_view().len(),
                    sx as int + sw as int <= self.spec_width(),
                    sy as int + sh as int <= self.spec_height(),
                    j < sh,
                    i <= sw,
                    black == spec_black(),
                    pixels@.len() == j * sw + i,
                    forall|t: int|
                        0 <= t < pixels@.len() ==> pixels@[t] == keyed_pixel(
                            self.pixel_at(sx + t % (sw as int), sy + t / (sw as int)),
                            tag,
                        ),
                decreases sw - i,
            {
                let row = sy + j;
                let col = sx + i;
                proof {
                    assert(row * self.spec_width() + col < self.spec_width()
                        * self.spec_height()) by (nonlinear_arith)
                        requires
                            row < self.spec_height(),
                            col < self.spec_width(),
                            row >= 0,
                            col >= 0,
                    ;
                }
                let idx = row as usize * self.width as usize + col as usize;
                let p = self.pixels[idx];
                let q = if is_color(black, p, COLOR_KEY_MARGIN) {
                    tag
                } else {
                    Color::transparent()
                };
                pixels.push(q);
                proof {
                    let t0 = j * (sw as int) + i;
                    lemma_fundamental_div_mod_converse(t0, sw as int, j as int, i as int);
                    assert(pixels@[t0] == keyed_pixel(
                        self.pixel_at(sx + t0 % (sw as int), sy + t0 / (sw as int)),
                        tag,
                    ));
                }
                i = i + 1;
            }
            proof {
                assert((j + 1) * (sw as int) == j * (sw as int) + sw) by (nonlinear_arith);
            }
            j = j + 1;
        }

        let new_name = crop_name(self.name.as_str(), counter);
        let out = Image { width: sw, height: sh, pixels, name: new_name };
        proof {
            assert(sw * sh == sh * sw) by (nonlinear_arith);
            assert(out.pixels_view() =~= self.extracted_pixels(
                sx as int,
                sy as int,
                sw as int,
                sh as int,
                tag,
            ));
        }
        out
    }
}

proof fn lemma_u32_mul_fits(a: u64, b: u64)
    requires
        a <= 0xffff_ffff,
        b <= 0xffff_ffff,
    ensures
        a * b <= 0xffff_ffff_ffff_ffff,
{
    assert(a * b <= 0xffff_ffff_ffff_ffff) by (nonlinear_arith)
        requires
            a <= 0xffff_ffffu64,
            b <= 0xffff_ffffu64,
    ;
}

/// `out` is exactly the extraction of `region` from `src` under the given
/// scale ratio and sequence number: the color-keyed crop of the mapped,
/// clamped source rectangle, named `<stem>-<counter>.png`.
pub open spec fn is_extraction(
    src: Image,
    counter: nat,
    ratio: Ratio,
    region: Region,
    out: Image,
) -> bool {
    let (sx, sy, sw, sh) = src.spec_source_rect(ratio, region);
    &&& out.spec_width() == sw
    &&& out.spec_height() == sh
    &&& out.pixels_view() == src.extracted_pixels(sx, sy, sw, sh, region.color)
    &&& out.name_view() == spec_crop_name(src.name_view(), counter)
}

} // verus!
