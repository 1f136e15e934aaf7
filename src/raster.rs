use vstd::prelude::*;

verus! {

/// Source columns folded into one output column by the resize policy.
pub const COLUMN_DIVISOR: u32 = 7;

/// Target width used when the source has no pixels.
pub const DEFAULT_COLUMNS: u32 = 80;

/// Target height used when the source has no pixels.
pub const DEFAULT_ROWS: u32 = 40;

/// A single-channel luminance image in row-major order.
pub struct LumaImage {
    pub width: u32,
    pub height: u32,
    pub pixels: Vec<u8>,
}

impl LumaImage {
    /// The pixel buffer holds exactly one sample per position.
    pub open spec fn wf(&self) -> bool {
        self.pixels@.len() == self.width as int * self.height as int
    }

    /// The sample at column `x`, row `y`.
    pub open spec fn sample(&self, x: int, y: int) -> u8 {
        self.pixels@[y * self.width as int + x]
    }

    /// Builds an image from row-major samples; `None` when the sample count
    /// does not match the dimensions.
    pub fn new(width: u32, height: u32, pixels: Vec<u8>) -> (r: Option<LumaImage>)
        ensures
            (pixels@.len() == width as int * height as int) <==> r.is_some(),
            r matches Some(img) ==> img.width == width && img.height == height
                && img.pixels@ == pixels@ && img.wf(),
    {
        assert(width as int * height as int <= u32::MAX as int * u32::MAX as int) by (nonlinear_arith)
            requires
                width <= u32::MAX,
                height <= u32::MAX,
        ;
        let n: u64 = width as u64 * height as u64;
        if pixels.len() as u64 == n {
            Some(LumaImage { width, height, pixels })
        } else {
            None
        }
    }

    /// Converts row-major RGBA samples (four bytes per pixel) to luminance;
    /// `None` when the byte count does not match the dimensions.
    pub fn from_rgba(width: u32, height: u32, rgba: Vec<u8>) -> (r: Option<LumaImage>)
        ensures
            (rgba@.len() == 4 * width as int * height as int) <==> r.is_some(),
            r matches Some(img) ==> img.width == width && img.height == height && img.wf()
                && forall|i: int|
                    0 <= i < img.pixels@.len() ==> #[trigger] img.pixels@[i] == luma_of(
                        rgba@[4 * i],
                        rgba@[4 * i + 1],
                        rgba@[4 * i + 2],
                    ),
    {
        assert(width as int * height as int <= u32::MAX as int * u32::MAX as int) by (nonlinear_arith)
            requires
                width <= u32::MAX,
                height <= u32::MAX,
        ;
        let n: u128 = 4 * (width as u128 * height as u128);
        assert(4 * width as int * height as int == 4 * (width as int * height as int))
            by (nonlinear_arith);
        if rgba.len() as u128 == n {
            let pixels = grayscale_rgba(width, height, rgba);
            Some(LumaImage { width, height, pixels })
        } else {
            None
        }
    }

    /// Downsamples the image to the display size chosen by `target_dims`,
    /// averaging the source area under each output pixel.
    pub fn resize_for_display(&self) -> (r: LumaImage)
        requires
            self.wf(),
        ensures
            r.wf(),
            (r.width, r.height) == target_spec(self.width, self.height),
            r.pixels@ == thumbnail_of(self.pixels@, self.width, self.height, r.width, r.height),
    {
        let (w, h) = target_dims(self.width, self.height);
        let sample_count = self.pixels.len();
        if self.width > 0 && self.height > 0 {
            assert(w as int * h as int <= self.width as int * self.height as int)
                by (nonlinear_arith)
                requires
                    w <= self.width,
                    h <= self.height,
            ;
            assert(w as int * h as int <= sample_count);
            proof {
                lemma_target_covers_source(self.width, self.height);
            }
        }
        let pixels = thumbnail_luma(self.width, self.height, &self.pixels, w, h);
        LumaImage { width: w, height: h, pixels }
    }
}

/// Luminance of one RGB color with the sRGB weights 0.2126, 0.7152, 0.0722,
/// rounded down.
pub open spec fn luma_of(r: u8, g: u8, b: u8) -> u8 {
    ((2126 * r as int + 7152 * g as int + 722 * b as int) / 10000) as u8
}

/// Relies on `image::imageops::grayscale` over an RGBA buffer: one luminance
/// byte per pixel, computed from its red, green and blue channels by the
/// integer sRGB weighting of `image`'s color conversion.
#[verifier::external_body]
fn grayscale_rgba(width: u32, height: u32, rgba: Vec<u8>) -> (r: Vec<u8>)
    requires
        rgba@.len() == 4 * width as int * height as int,
    ensures
        r@.len() == width as int * height as int,
        forall|i: int|
            0 <= i < r@.len() ==> #[trigger] r@[i] == luma_of(
                rgba@[4 * i],
                rgba@[4 * i + 1],
                rgba@[4 * i + 2],
            ),
{
    let img = image::RgbaImage::from_raw(width, height, rgba).unwrap();
    image::imageops::grayscale(&img).into_raw()
}

/// The samples that `image::imageops::thumbnail` produces for a luminance
/// image of the given dimensions scaled to the requested ones.
pub uninterp spec fn thumbnail_of(
    pixels: Seq<u8>,
    width: u32,
    height: u32,
    new_width: u32,
    new_height: u32,
) -> Seq<u8>;

/// Relies on `image::imageops::thumbnail`: an area-averaged image of exactly
/// the requested dimensions, all zero when the source is empty. From a
/// non-empty source only a downscale is asked of it whose output pixels each
/// cover at most about 15 by 29 source pixels, so that the per-block sums,
/// which `image` keeps in `u32` for `u8` samples, cannot overflow.
#[verifier::external_body]
fn thumbnail_luma(width: u32, height: u32, pixels: &Vec<u8>, new_width: u32, new_height: u32) -> (r: Vec<u8>)
    requires
        pixels@.len() == width as int * height as int,
        width == 0 || height == 0 || (new_width <= width && new_height <= height
            && width as int <= 14 * new_width as int && height as int <= 28 * new_height as int),
        new_width as int * new_height as int <= usize::MAX,
    ensures
        r@.len() == new_width as int * new_height as int,
        r@ == thumbnail_of(pixels@, width, height, new_width, new_height),
        width == 0 || height == 0 ==> forall|i: int| 0 <= i < r@.len() ==> #[trigger] r@[i] == 0,
{
    let img = image::GrayImage::from_raw(width, height, pixels.clone()).unwrap();
    image::imageops::thumbnail(&img, new_width, new_height).into_raw()
}

/// The output width before any fallback: the source width divided by
/// `COLUMN_DIVISOR`, at least one column.
pub open spec fn base_columns(width: u32) -> int {
    let c = width as int / COLUMN_DIVISOR as int;
    if c < 1 { 1 } else { c }
}

/// The output height: `columns * height / width` rounded half up, at least one row.
pub open spec fn derived_rows(width: u32, height: u32, columns: int) -> int {
    let r = (2 * columns * height as int + width as int) / (2 * width as int);
    if r < 1 { 1 } else { r }
}

/// The display size for a source of the given dimensions: a fixed default
/// for an empty source, else `base_columns` wide with the height that keeps
/// the aspect ratio.
pub open spec fn target_spec(width: u32, height: u32) -> (u32, u32) {
    if width == 0 || height == 0 {
        (DEFAULT_COLUMNS, DEFAULT_ROWS)
    } else {
        let c = base_columns(width);
        (c as u32, derived_rows(width, height, c) as u32)
    }
}

/// Computes the display size for a source of the given dimensions.
pub fn target_dims(width: u32, height: u32) -> (r: (u32, u32))
    ensures
        r == target_spec(width, height),
        r.0 >= 1 && r.1 >= 1,
        width > 0 && height > 0 ==> r.0 <= width && r.1 <= height,
{
    if width == 0 || height == 0 {
        return (DEFAULT_COLUMNS, DEFAULT_ROWS);
    }
    let mut c: u32 = width / COLUMN_DIVISOR;
    if c < 1 {
        c = 1;
    }
    assert(c <= 613566756);
    assert(2 * c as int * height as int <= 2 * 613566756 * u32::MAX as int) by (nonlinear_arith)
        requires
            c <= 613566756,
            height <= u32::MAX,
    ;
    let num: u64 = 2 * (c as u64) * (height as u64) + width as u64;
    let den: u64 = 2 * (width as u64);
    let mut rows: u64 = num / den;
    if rows < 1 {
        rows = 1;
    }
    proof {
        assert(c as int <= width as int);
        assert((2 * c as int * height as int + width as int) / (2 * width as int) <= height as int)
            by (nonlinear_arith)
            requires
                1 <= c <= width,
                1 <= height,
        {
            assert((2 * c as int * height as int + width as int) < 2 * width as int * (height as int + 1));
        }
    }
    (c, rows as u32)
}

/// Each display pixel stands for at most 14 source columns and 28 source rows.
proof fn lemma_target_covers_source(width: u32, height: u32)
    requires
        width > 0,
        height > 0,
    ensures
        ({
            let (w2, h2) = target_spec(width, height);
            &&& width as int <= 14 * w2 as int
            &&& height as int <= 28 * h2 as int
        }),
{
    let w = width as int;
    let h = height as int;
    let c = base_columns(width);
    let q7 = w / 7;
    assert(q7 * 7 <= w && w < q7 * 7 + 7);
    assert(w <= 14 * c);
    assert(c <= w);
    let n = 2 * c * h + w;
    let d = 2 * w;
    let q = n / d;
    assert(q * d <= n && n < q * d + d) by (nonlinear_arith)
        requires
            d > 0,
            q == n / d,
    ;
    assert(28 * q * w > 2 * h * w - 14 * w) by (nonlinear_arith)
        requires
            n < q * d + d,
            n == 2 * c * h + w,
            d == 2 * w,
            w <= 14 * c,
            h > 0,
            w > 0,
    ;
    assert(28 * q > 2 * h - 14) by (nonlinear_arith)
        requires
            28 * q * w > 2 * h * w - 14 * w,
            w > 0,
    ;
    assert(q <= h) by (nonlinear_arith)
        requires
            1 <= c <= w,
            1 <= h,
            q * d <= n,
            n == 2 * c * h + w,
            d == 2 * w,
    ;
}

/// The rounded height keeps the source's aspect ratio: with `(w', h')` the
/// display size of a `w` by `h` source, `h'` is within one half of
/// `w' * h / w`, so `w' / h'` differs from `w / h` only by that rounding.
/// Excluded are empty sources (the fixed default applies) and sources so
/// wide that the rounded height falls below one row.
pub proof fn lemma_resize_keeps_aspect(width: u32, height: u32)
    requires
        width > 0,
        height > 0,
        2 * base_columns(width) * height >= width,
    ensures
        ({
            let (w2, h2) = target_spec(width, height);
            &&& w2 as int == base_columns(width)
            &&& -(width as int) <= 2 * h2 as int * width as int - 2 * w2 as int * height as int
            &&& 2 * h2 as int * width as int - 2 * w2 as int * height as int <= width as int
        }),
{
    let c = base_columns(width);
    let n = 2 * c * height as int + width as int;
    let d = 2 * width as int;
    let q = n / d;
    assert(q * d <= n && n < q * d + d) by (nonlinear_arith)
        requires
            d > 0,
            q == n / d,
    ;
    assert(q >= 1) by (nonlinear_arith)
        requires
            d > 0,
            q == n / d,
            n >= d,
    ;
    assert(c <= width as int);
    assert(2 * q * width as int == q * d) by (nonlinear_arith)
        requires
            d == 2 * width,
    ;
    assert(q <= height as int) by (nonlinear_arith)
        requires
            1 <= c <= width,
            1 <= height,
            q * d <= n,
            n == 2 * c * height + width,
            d == 2 * width,
    ;
}

} // verus!
