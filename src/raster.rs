//! The render driver's integer side: validated settings, the layout of the
//! pixel buffer and the packing of a pixel's channels.

use vstd::prelude::*;
use vstd::arithmetic::div_mod::lemma_fundamental_div_mod;
use crate::binary32::{zero_value, one_value, Binary32, INFINITY_BITS};

verus! {

/// The default number of samples drawn for each pixel.
pub const DEFAULT_SAMPLES: u32 = 256;

/// The pattern of 180.0, the widest vertical field of view there is.
pub const HALF_TURN_DEGREES_BITS: u32 = 0x4334_0000;

/// The alpha byte of every packed pixel.
pub const OPAQUE: u32 = 0xFF00_0000;

/// A construction-time parameter that cannot be rendered with.
#[derive(Clone, Copy, Debug, PartialEq, Eq, Structural)]
pub enum ConfigError {
    /// The image has no columns.
    ZeroWidth,
    /// The image has no rows.
    ZeroHeight,
    /// No samples would be drawn for a pixel.
    ZeroSamples,
    /// The pixel buffer's length does not fit in `usize`.
    TooManyPixels,
    /// The vertical field of view lies outside `(0, 180)` degrees.
    FieldOfView,
    /// The aspect ratio is not a positive finite number.
    AspectRatio,
    /// A metal's fuzz lies outside `[0, 1]`.
    Fuzz,
    /// A dielectric's refractive index is not positive.
    RefractiveIndex,
}

/// The size of the image and how much work goes into each pixel.
#[derive(Clone, Copy, Debug)]
pub struct RenderSettings {
    pub width: usize,
    pub height: usize,
    pub samples: u32,
    pub max_depth: u32,
}

impl RenderSettings {
    pub open spec fn wf(self) -> bool {
        &&& self.width > 0
        &&& self.height > 0
        &&& self.samples > 0
        &&& self.width * self.height <= usize::MAX
    }

    /// Settings for a `width` by `height` image, refused with the first fault
    /// found: a zero width, a zero height, zero samples, or a pixel count
    /// beyond `usize`.
    pub fn new(width: usize, height: usize, samples: u32, max_depth: u32) -> (r: Result<
        RenderSettings,
        ConfigError,
    >)
        ensures
            width == 0 ==> r == Err::<RenderSettings, ConfigError>(ConfigError::ZeroWidth),
            width > 0 && height == 0 ==> r == Err::<RenderSettings, ConfigError>(
                ConfigError::ZeroHeight,
            ),
            width > 0 && height > 0 && samples == 0 ==> r == Err::<RenderSettings, ConfigError>(
                ConfigError::ZeroSamples,
            ),
            width > 0 && height > 0 && samples > 0 && width * height > usize::MAX ==> r == Err::<
                RenderSettings,
                ConfigError,
            >(ConfigError::TooManyPixels),
            width > 0 && height > 0 && samples > 0 && width * height <= usize::MAX ==> r == Ok::<
                RenderSettings,
                ConfigError,
            >(RenderSettings { width, height, samples, max_depth }),
            r is Ok ==> r.unwrap().wf(),
    {
        if width == 0 {
            return Err(ConfigError::ZeroWidth);
        }
        if height == 0 {
            return Err(ConfigError::ZeroHeight);
        }
        if samples == 0 {
            return Err(ConfigError::ZeroSamples);
        }
        if width > usize::MAX / height {
            proof {
                lemma_product_exceeds(width as int, height as int, usize::MAX as int);
            }
            return Err(ConfigError::TooManyPixels);
        }
        proof {
            lemma_product_fits(width as int, height as int, usize::MAX as int);
        }
        Ok(RenderSettings { width, height, samples, max_depth })
    }

    /// The length of the pixel buffer.
    pub fn pixel_count(&self) -> (r: usize)
        requires
            self.wf(),
        ensures
            r == self.width * self.height,
    {
        self.width * self.height
    }

    /// The pixel that buffer slot `screen_pos` holds, as its row counted from
    /// the bottom of the image plane and its column: the buffer runs row by
    /// row from the top.
    pub fn pixel_position(&self, screen_pos: usize) -> (r: (usize, usize))
        requires
            self.wf(),
            screen_pos < self.width * self.height,
        ensures
            r.0 == self.height - 1 - screen_pos / self.width,
            r.1 == screen_pos % self.width,
            r.0 < self.height,
            r.1 < self.width,
    {
        proof {
            lemma_row_in_image(screen_pos as int, self.width as int, self.height as int);
        }
        (self.height - 1 - screen_pos / self.width, screen_pos % self.width)
    }
}

proof fn lemma_product_exceeds(w: int, h: int, max: int)
    requires
        w > 0,
        h > 0,
        max >= 0,
        w > max / h,
    ensures
        w * h > max,
{
    lemma_fundamental_div_mod(max, h);
    assert(w * h >= (max / h + 1) * h) by (nonlinear_arith)
        requires
            w >= max / h + 1,
            h > 0,
    ;
    assert((max / h + 1) * h == (max / h) * h + h) by (nonlinear_arith);
    assert(max % h < h) by {
        vstd::arithmetic::div_mod::lemma_mod_bound(max, h);
    }
}

proof fn lemma_product_fits(w: int, h: int, max: int)
    requires
        w > 0,
        h > 0,
        max >= 0,
        w <= max / h,
    ensures
        w * h <= max,
{
    lemma_fundamental_div_mod(max, h);
    assert(w * h <= (max / h) * h) by (nonlinear_arith)
        requires
            w <= max / h,
            h > 0,
    ;
    vstd::arithmetic::div_mod::lemma_mod_bound(max, h);
}

proof fn lemma_row_in_image(pos: int, w: int, h: int)
    requires
        w > 0,
        h > 0,
        0 <= pos < w * h,
    ensures
        0 <= pos / w < h,
        0 <= pos % w < w,
{
    vstd::arithmetic::div_mod::lemma_mod_bound(pos, w);
    vstd::arithmetic::div_mod::lemma_div_pos_is_pos(pos, w);
    vstd::arithmetic::div_mod::lemma_multiply_divide_lt(pos, w, h);
}

/// The buffer slot of the pixel at `row` counted from the bottom and `col`.
pub open spec fn slot_of(width: int, height: int, row: int, col: int) -> int {
    (height - 1 - row) * width + col
}

/// The buffer's layout is one to one: each slot holds exactly one pixel of
/// the image, and that pixel's slot is the one it came from.
pub proof fn lemma_layout_round_trip(s: RenderSettings, screen_pos: int)
    requires
        s.wf(),
        0 <= screen_pos < s.width * s.height,
    ensures
        ({
            let row = s.height - 1 - screen_pos / s.width as int;
            let col = screen_pos % s.width as int;
            &&& 0 <= row < s.height
            &&& 0 <= col < s.width
            &&& slot_of(s.width as int, s.height as int, row, col) == screen_pos
        }),
{
    let w = s.width as int;
    lemma_row_in_image(screen_pos, w, s.height as int);
    lemma_fundamental_div_mod(screen_pos, w);
    vstd::arithmetic::mul::lemma_mul_is_commutative(screen_pos / w, w);
}

/// Two slots of the buffer never hold the same pixel.
pub proof fn lemma_slots_distinct(s: RenderSettings, a: int, b: int)
    requires
        s.wf(),
        0 <= a < s.width * s.height,
        0 <= b < s.width * s.height,
        a != b,
    ensures
        a / s.width as int != b / s.width as int || a % s.width as int != b % s.width as int,
{
    lemma_fundamental_div_mod(a, s.width as int);
    lemma_fundamental_div_mod(b, s.width as int);
}

/// A channel level held to the byte's range.
pub open spec fn channel(level: u32) -> int {
    if level > 255 {
        255
    } else {
        level as int
    }
}

/// The packed pixel `0xFFRRGGBB`.
pub open spec fn packed(r: u32, g: u32, b: u32) -> int {
    OPAQUE + channel(r) * 0x1_0000 + channel(g) * 0x100 + channel(b)
}

/// Packs three channel levels into `0xFFRRGGBB`, full alpha first. A level
/// above 255, which rounding can give a channel at full intensity, counts
/// as 255.
pub fn to_bgra(r: u32, g: u32, b: u32) -> (p: u32)
    ensures
        p == packed(r, g, b),
{
    let rr: u32 = if r > 255 { 255 } else { r };
    let gg: u32 = if g > 255 { 255 } else { g };
    let bb: u32 = if b > 255 { 255 } else { b };
    let p = OPAQUE | rr << 16 | gg << 8 | bb;
    assert(p == 0xFF00_0000 + rr * 0x1_0000 + gg * 0x100 + bb) by (bit_vector)
        requires
            rr <= 255,
            gg <= 255,
            bb <= 255,
            p == 0xFF00_0000u32 | rr << 16 | gg << 8 | bb,
    ;
    p
}

/// The vertical field of view, in degrees, lies strictly between 0 and 180.
pub open spec fn field_of_view_ok(vfov: Binary32) -> bool {
    zero_value().spec_less(vfov) && vfov.spec_less(
        Binary32 { bits: HALF_TURN_DEGREES_BITS },
    )
}

/// The aspect ratio is positive and finite.
pub open spec fn aspect_ratio_ok(aspect: Binary32) -> bool {
    zero_value().spec_less(aspect) && aspect.spec_less(
        Binary32 { bits: INFINITY_BITS },
    )
}

/// Checks a camera's vertical field of view, in degrees, and aspect ratio.
pub fn check_camera(vfov: Binary32, aspect_ratio: Binary32) -> (r: Result<(), ConfigError>)
    ensures
        !field_of_view_ok(vfov) ==> r == Err::<(), ConfigError>(ConfigError::FieldOfView),
        field_of_view_ok(vfov) && !aspect_ratio_ok(aspect_ratio) ==> r == Err::<(), ConfigError>(
            ConfigError::AspectRatio,
        ),
        field_of_view_ok(vfov) && aspect_ratio_ok(aspect_ratio) ==> r is Ok,
{
    let half_turn = Binary32::from_bits(HALF_TURN_DEGREES_BITS);
    let infinity = Binary32::from_bits(INFINITY_BITS);
    if !(Binary32::zero().less(&vfov) && vfov.less(&half_turn)) {
        return Err(ConfigError::FieldOfView);
    }
    if !(Binary32::zero().less(&aspect_ratio) && aspect_ratio.less(&infinity)) {
        return Err(ConfigError::AspectRatio);
    }
    Ok(())
}

/// Checks a metal's fuzz, which lies in `[0, 1]`.
pub fn check_fuzz(fuzz: Binary32) -> (r: Result<(), ConfigError>)
    ensures
        r is Ok <==> (zero_value().spec_less_eq(fuzz) && fuzz.spec_less_eq(
            one_value(),
        )),
        r is Err ==> r == Err::<(), ConfigError>(ConfigError::Fuzz),
{
    if Binary32::zero().less_eq(&fuzz) && fuzz.less_eq(&Binary32::one()) {
        Ok(())
    } else {
        Err(ConfigError::Fuzz)
    }
}

/// Checks a dielectric's refractive index, which is positive.
pub fn check_refractive_index(index: Binary32) -> (r: Result<(), ConfigError>)
    ensures
        r is Ok <==> zero_value().spec_less(index),
        r is Err ==> r == Err::<(), ConfigError>(ConfigError::RefractiveIndex),
{
    if Binary32::zero().less(&index) {
        Ok(())
    } else {
        Err(ConfigError::RefractiveIndex)
    }
}

} // verus!
