//! The thumbnail encoding pipeline: target dimensions capped at a fixed
//! maximum width while preserving aspect ratio, alpha-channel removal,
//! JPEG compression at fixed quality, and wrapping as a base64 data URI.
//! The native screen capture itself happens outside; this pipeline turns
//! a captured pixel buffer into the transported string.

use vstd::prelude::*;
use vstd::arithmetic::div_mod::{lemma_div_is_ordered, lemma_div_multiples_vanish_fancy};
use vstd::arithmetic::mul::lemma_mul_inequality;
use vstd::string::StringExecFns;

use base64::Engine;

verus! {

/// The fixed cap on a thumbnail's width, in pixels.
pub const MAX_THUMBNAIL_WIDTH: u32 = 500;

/// The fixed JPEG quality setting.
pub const JPEG_QUALITY: u8 = 80;

/// Scaled height when the width is capped: the height times the ratio
/// `max_width / width`, rounded to the nearest integer.
pub open spec fn spec_scaled_height(width: int, height: int, max_width: int) -> int {
    (height * max_width + width / 2) / width
}

/// The target width: capped at `max_width` when the source exceeds it.
pub open spec fn spec_target_width(width: int, max_width: int) -> int {
    if width > max_width {
        max_width
    } else {
        width
    }
}

/// The target height: scaled in proportion when the width is capped,
/// otherwise the native height.
pub open spec fn spec_target_height(width: int, height: int, max_width: int) -> int {
    if width > max_width {
        spec_scaled_height(width, height, max_width)
    } else {
        height
    }
}

proof fn lemma_scaled_height_le(width: int, height: int, max_width: int)
    requires
        1 <= max_width < width,
        0 <= height,
    ensures
        0 <= spec_scaled_height(width, height, max_width) <= height,
{
    let num = height * max_width + width / 2;
    lemma_mul_inequality(max_width, width, height);
    assert(num <= width * height + width / 2);
    lemma_div_is_ordered(num, width * height + width / 2, width);
    lemma_div_multiples_vanish_fancy(height, width / 2, width);
    assert((width * height + width / 2) / width == height);
    lemma_div_is_ordered(0, num, width);
}

/// Computes the target dimensions of a thumbnail: width capped at
/// `max_width` preserving aspect ratio if the source exceeds it,
/// otherwise the native size.
pub fn target_dimensions(width: u32, height: u32, max_width: u32) -> (r: (u32, u32))
    requires
        width >= 1,
        max_width >= 1,
    ensures
        r.0 == spec_target_width(width as int, max_width as int),
        r.1 == spec_target_height(width as int, height as int, max_width as int),
{
    if width > max_width {
        proof {
            assert((height as int) * (max_width as int) + (width as int) / 2
                < 0x1_0000_0000_0000_0000) by (nonlinear_arith)
                requires
                    height < 0x1_0000_0000 && max_width < 0x1_0000_0000 && width
                        < 0x1_0000_0000,
            ;
        }
        let num: u64 = (height as u64) * (max_width as u64) + (width as u64) / 2;
        let scaled: u64 = num / (width as u64);
        proof {
            lemma_scaled_height_le(width as int, height as int, max_width as int);
        }
        (max_width, scaled as u32)
    } else {
        (width, height)
    }
}

/// The 3-channel image a 4-channel buffer reduces to when the alpha
/// byte of each pixel is dropped.
pub open spec fn spec_rgb_of(rgba: Seq<u8>, pixel_count: int) -> Seq<u8> {
    Seq::new((3 * pixel_count) as nat, |i: int| rgba[4 * (i / 3) + (i % 3)])
}

/// Drops the alpha channel: keeps the first three bytes of every
/// four-byte pixel.
pub fn rgba_to_rgb(rgba: &Vec<u8>, pixel_count: usize) -> (rgb: Vec<u8>)
    requires
        rgba@.len() == pixel_count * 4,
    ensures
        rgb@ == spec_rgb_of(rgba@, pixel_count as int),
{
    let buf_len = rgba.len();
    let mut rgb: Vec<u8> = Vec::new();
    let mut i: usize = 0;
    while i < pixel_count
        invariant
            rgba@.len() == pixel_count * 4,
            buf_len == rgba@.len(),
            i <= pixel_count,
            rgb@.len() == 3 * i,
            forall|k: int|
                0 <= k < 3 * i ==> rgb@[k] == rgba@[4 * (k / 3) + (k % 3)],
        decreases pixel_count - i,
    {
        let off = i * 4;
        rgb.push(rgba[off]);
        rgb.push(rgba[off + 1]);
        rgb.push(rgba[off + 2]);
        proof {
            assert forall|k: int| 0 <= k < 3 * (i + 1) implies rgb@[k] == rgba@[4 * (k / 3) + (k
                % 3)] by {
                if k >= 3 * i {
                    assert(k / 3 == i && k % 3 == k - 3 * i) by (nonlinear_arith)
                        requires 3 * i <= k < 3 * (i + 1) && 0 <= i;
                }
            }
        }
        i = i + 1;
    }
    proof {
        assert(rgb@ =~= spec_rgb_of(rgba@, pixel_count as int));
    }
    rgb
}

/// What the JPEG encoder produces from an 8-bit RGB buffer of the given
/// dimensions at the fixed quality: a function of buffer and dimensions
/// alone.
pub uninterp spec fn spec_jpeg80(pixels: Seq<u8>, width: u32, height: u32) -> Seq<u8>;

/// Relies on image's `JpegEncoder::new_with_quality` at quality 80,
/// writing into a `Vec<u8>`: the encoding of a correctly sized 8-bit RGB
/// buffer depends on the buffer and dimensions alone; it succeeds
/// exactly when both dimensions are nonzero and fit a JPEG frame header
/// (at most 65535), the only other failure path being the underlying
/// writer, and writes into a `Vec` cannot fail. A buffer whose length is
/// not `3 * width * height` makes the encoder panic, so it is excluded.
#[verifier::external_body]
fn jpeg_encode_rgb(pixels: &Vec<u8>, width: u32, height: u32) -> (r: Option<Vec<u8>>)
    requires
        pixels@.len() == 3 * width * height,
    ensures
        r is Some <==> (1 <= width <= 65535 && 1 <= height <= 65535),
        r is Some ==> r->0@ == spec_jpeg80(pixels@, width, height),
{
    let mut out: Vec<u8> = Vec::new();
    let encoder = image::codecs::jpeg::JpegEncoder::new_with_quality(&mut out, JPEG_QUALITY);
    match image::ImageEncoder::write_image(
        encoder,
        pixels.as_slice(),
        width,
        height,
        image::ExtendedColorType::Rgb8,
    ) {
        Ok(()) => Some(out),
        Err(_) => None,
    }
}

/// What base64's standard engine encodes the bytes to: a function of
/// the bytes alone.
pub uninterp spec fn spec_base64_standard(bytes: Seq<u8>) -> Seq<char>;

/// Relies on base64's `STANDARD` engine: a padded encoding over the
/// standard alphabet, four characters for every started group of three
/// input bytes, depending on the input alone. An input so large that the
/// padded length overflows `usize` makes the engine panic, so it is
/// excluded.
#[verifier::external_body]
fn base64_standard(bytes: &Vec<u8>) -> (r: String)
    requires
        4 * ((bytes@.len() + 2) / 3) <= usize::MAX,
    ensures
        r@ == spec_base64_standard(bytes@),
        r@.len() == 4 * ((bytes@.len() + 2) / 3),
{
    base64::engine::general_purpose::STANDARD.encode(bytes)
}

/// The data URI a thumbnail is transported as.
pub open spec fn spec_data_uri(payload: Seq<char>) -> Seq<char> {
    "data:image/jpeg;base64,"@ + payload
}

/// The complete encoded thumbnail of a scaled RGB buffer.
pub open spec fn spec_thumbnail_uri(pixels: Seq<u8>, width: u32, height: u32) -> Seq<char> {
    spec_data_uri(spec_base64_standard(spec_jpeg80(pixels, width, height)))
}

/// Whether the encoded form of an RGB buffer of these dimensions can be
/// produced at all: the dimensions fit a JPEG frame and the base64 form
/// of the compressed stream fits in memory.
pub open spec fn spec_encodable(pixels: Seq<u8>, width: u32, height: u32) -> bool {
    &&& 1 <= width <= 65535
    &&& 1 <= height <= 65535
    &&& 4 * ((spec_jpeg80(pixels, width, height).len() + 2) / 3) <= usize::MAX
}

/// Compresses a scaled RGB buffer to JPEG at the fixed quality and wraps
/// it as a base64 data URI.
pub fn encode_thumbnail_rgb(rgb: &Vec<u8>, width: u32, height: u32) -> (r: Option<String>)
    requires
        rgb@.len() == 3 * width * height,
    ensures
        r is Some <==> spec_encodable(rgb@, width, height),
        r is Some ==> r->0@ == spec_thumbnail_uri(rgb@, width, height),
{
    match jpeg_encode_rgb(rgb, width, height) {
        Option::Some(jpeg) => {
            if jpeg.len() <= usize::MAX / 4 * 3 {
                let payload = base64_standard(&jpeg);
                let prefix: String = "data:image/jpeg;base64,".to_owned();
                Option::Some(prefix.concat(payload.as_str()))
            } else {
                Option::None
            }
        },
        Option::None => Option::None,
    }
}

/// Turns a captured 8-bit RGBA buffer of the given (already scaled)
/// dimensions into the transported thumbnail string. A zero-sized or
/// malformed capture yields no thumbnail rather than an error.
pub fn thumbnail_from_rgba(rgba: &Vec<u8>, width: u32, height: u32) -> (r: Option<String>)
    ensures
        (width == 0 || height == 0 || rgba@.len() != 4 * width * height) ==> r is None,
        rgba@.len() == 4 * width * height ==> {
            let rgb = spec_rgb_of(rgba@, width * height);
            &&& (r is Some <==> spec_encodable(rgb, width, height))
            &&& (r is Some ==> r->0@ == spec_thumbnail_uri(rgb, width, height))
        },
{
    let buf_len = rgba.len();
    if width == 0 || height == 0 {
        return Option::None;
    }
    proof {
        assert((width as int) * (height as int) < 0x1_0000_0000_0000_0000) by (nonlinear_arith)
            requires
                width < 0x1_0000_0000 && height < 0x1_0000_0000,
        ;
    }
    let wh: u64 = width as u64 * height as u64;
    proof {
        assert(4 * (width as int) * (height as int) == 4 * (wh as int)) by (nonlinear_arith)
            requires
                wh == (width as int) * (height as int),
        ;
    }
    if wh > (usize::MAX as u64) / 4 {
        proof {
            assert(rgba@.len() <= usize::MAX);
            assert(4 * (wh as int) > usize::MAX);
        }
        return Option::None;
    }
    let pixel_count: usize = wh as usize;
    if buf_len != pixel_count * 4 {
        return Option::None;
    }
    let rgb = rgba_to_rgb(rgba, pixel_count);
    proof {
        assert(3 * (width as int) * (height as int) == 3 * (wh as int)) by (nonlinear_arith)
            requires
                wh == (width as int) * (height as int),
        ;
        assert(rgb@.len() == 3 * width * height);
    }
    encode_thumbnail_rgb(&rgb, width, height)
}

} // verus!
