//! The checks and sizes of the thumbnail step: the requested size, the
//! embedded image's declared dimensions, the fitted dimensions, the resize
//! itself, and the text metadata the written PNG carries.
use vstd::prelude::*;

use fast_image_resize as fr;

verus! {

/// An embedded image wider or taller than this is refused before its pixels
/// are decoded.
pub const MAX_INPUT_IMAGE_DIMENSION: u32 = 1024;

/// The largest thumbnail size that is accepted.
pub const MAX_REQUESTED_SIZE: u32 = 2048;

/// The MIME type written into the thumbnail's metadata.
pub const MIME_TYPE: &'static str = "application/x.fuzzpaint-doc";

/// The product name written into the thumbnail's metadata.
pub const SOFTWARE: &'static str = "Fuzzpaint";

#[derive(Debug, Clone, Copy, PartialEq, Eq, Structural)]
pub enum SizeError {
    /// The requested thumbnail size is zero.
    RequestZero,
    /// The requested thumbnail size is above `MAX_REQUESTED_SIZE`.
    RequestTooLarge,
    /// The embedded image is wider or taller than the configured maximum.
    SourceTooLarge { width: u32, height: u32 },
    /// The embedded image has no pixels.
    SourceEmpty,
    /// A fitted dimension came out as zero.
    ScaledToZero,
}

/// `a / b` rounded up.
pub open spec fn ceil_div(a: int, b: int) -> int {
    (a + b - 1) / b
}

pub open spec fn max_int(a: int, b: int) -> int {
    if a >= b {
        a
    } else {
        b
    }
}

pub open spec fn requested_size_spec(size: u32) -> Result<u32, SizeError> {
    if size == 0 {
        Err(SizeError::RequestZero)
    } else if size > MAX_REQUESTED_SIZE {
        Err(SizeError::RequestTooLarge)
    } else {
        Ok(size)
    }
}

pub open spec fn source_dimensions_spec(width: u32, height: u32, max_dimension: u32) -> Result<
    (),
    SizeError,
> {
    if width > max_dimension || height > max_dimension {
        Err(SizeError::SourceTooLarge { width, height })
    } else if width == 0 || height == 0 {
        Err(SizeError::SourceEmpty)
    } else {
        Ok(())
    }
}

/// The dimensions of a `width` by `height` image fitted into a square of
/// side `size`: each scaled by `size / max(width, height)` and rounded up.
pub open spec fn scaled_dimensions_spec(width: u32, height: u32, size: u32) -> Result<
    (u32, u32),
    SizeError,
> {
    if width == 0 || height == 0 || size == 0 {
        Err(SizeError::ScaledToZero)
    } else {
        let m = max_int(width as int, height as int);
        Ok(
            (
                ceil_div(width * size, m) as u32,
                ceil_div(height * size, m) as u32,
            ),
        )
    }
}

/// Accepts a requested thumbnail size between 1 and `MAX_REQUESTED_SIZE`.
pub fn check_requested_size(size: u32) -> (r: Result<u32, SizeError>)
    ensures
        r == requested_size_spec(size),
{
    if size == 0 {
        Err(SizeError::RequestZero)
    } else if size > MAX_REQUESTED_SIZE {
        Err(SizeError::RequestTooLarge)
    } else {
        Ok(size)
    }
}

/// Checks the dimensions an image header declares, before any pixel buffer
/// is made for it: neither may exceed `max_dimension`, neither may be zero.
pub fn check_source_dimensions(width: u32, height: u32, max_dimension: u32) -> (r: Result<
    (),
    SizeError,
>)
    ensures
        r == source_dimensions_spec(width, height, max_dimension),
{
    if width > max_dimension || height > max_dimension {
        Err(SizeError::SourceTooLarge { width, height })
    } else if width == 0 || height == 0 {
        Err(SizeError::SourceEmpty)
    } else {
        Ok(())
    }
}

/// Fits a `width` by `height` image into a square of side `size`, keeping
/// its aspect ratio; each dimension is rounded up, so the larger one is
/// exactly `size` and neither is zero.
pub fn scaled_dimensions(width: u32, height: u32, size: u32) -> (r: Result<(u32, u32), SizeError>)
    ensures
        r == scaled_dimensions_spec(width, height, size),
        r matches Ok((w, h)) ==> 1 <= w <= size && 1 <= h <= size && max_int(w as int, h as int)
            == size,
{
    if width == 0 || height == 0 || size == 0 {
        return Err(SizeError::ScaledToZero);
    }
    let m: u64 = if width >= height {
        width as u64
    } else {
        height as u64
    };
    let wv: u64 = width as u64;
    let hv: u64 = height as u64;
    let sv: u64 = size as u64;
    assert(wv * sv <= 0xffff_ffffu64 * 0xffff_ffffu64 && hv * sv <= 0xffff_ffffu64
        * 0xffff_ffffu64) by (nonlinear_arith)
        requires
            wv <= 0xffff_ffffu64,
            hv <= 0xffff_ffffu64,
            sv <= 0xffff_ffffu64,
    ;
    let ws: u64 = wv * sv;
    let hs: u64 = hv * sv;
    assert(ws <= m * size) by (nonlinear_arith)
        requires
            ws == width * size,
            width <= m,
    ;
    assert(hs <= m * size) by (nonlinear_arith)
        requires
            hs == height * size,
            height <= m,
    ;
    assert(m * size <= 0xffff_ffffu64 * 0xffff_ffffu64) by (nonlinear_arith)
        requires
            m <= 0xffff_ffffu64,
            size <= 0xffff_ffffu64,
    ;
    let w: u64 = (ws + m - 1) / m;
    let h: u64 = (hs + m - 1) / m;
    proof {
        lemma_ceil_div_bounds(width as int, size as int, m as int);
        lemma_ceil_div_bounds(height as int, size as int, m as int);
    }
    Ok((w as u32, h as u32))
}

/// For `1 <= a <= m`, `ceil(a * s / m)` lies in `[1, s]`, and is `s` where
/// `a == m`.
proof fn lemma_ceil_div_bounds(a: int, s: int, m: int)
    requires
        1 <= a <= m,
        1 <= s,
    ensures
        1 <= ceil_div(a * s, m) <= s,
        a == m ==> ceil_div(a * s, m) == s,
{
    assert(a * s <= m * s) by (nonlinear_arith)
        requires
            a <= m,
            1 <= s,
    ;
    assert(a * s >= 1) by (nonlinear_arith)
        requires
            1 <= a,
            1 <= s,
    ;
    assert((a * s + m - 1) / m <= (m * s + m - 1) / m) by (nonlinear_arith)
        requires
            a * s <= m * s,
            m >= 1,
    ;
    assert((m * s + m - 1) / m == s) by (nonlinear_arith)
        requires
            m >= 1,
    ;
    assert((a * s + m - 1) / m >= 1) by (nonlinear_arith)
        requires
            a * s >= 1,
            m >= 1,
    ;
}

/// Relies on fast_image_resize's `Resizer::resize`, with a bilinear
/// convolution over RGBA8 pixels, into an `Image::new` of the destination
/// size, whose `into_vec` is `dst_width * dst_height` pixels of 4 bytes. The
/// pixel values depend on the CPU extensions the resizer picks at run time,
/// so nothing is stated of them.
#[verifier::external_body]
fn resize_bilinear_rgba(
    src: &Vec<u8>,
    width: u32,
    height: u32,
    dst_width: u32,
    dst_height: u32,
) -> (r: Vec<u8>)
    requires
        1 <= width,
        1 <= height,
        1 <= dst_width,
        1 <= dst_height,
        width * height <= u32::MAX,
        dst_width * dst_height <= u32::MAX,
        src@.len() == width * height * 4,
    ensures
        r@.len() == dst_width * dst_height * 4,
{
    let w = std::num::NonZeroU32::new(width).unwrap();
    let h = std::num::NonZeroU32::new(height).unwrap();
    let dw = std::num::NonZeroU32::new(dst_width).unwrap();
    let dh = std::num::NonZeroU32::new(dst_height).unwrap();
    let view = fr::ImageView::<fr::pixels::U8x4>::from_buffer(w, h, src).unwrap();
    let mut dst = fr::Image::new(dw, dh, fr::PixelType::U8x4);
    let mut resizer = fr::Resizer::new(fr::ResizeAlg::Convolution(fr::FilterType::Bilinear));
    resizer.resize(&fr::DynamicImageView::U8x4(view), &mut dst.view_mut()).unwrap();
    dst.into_vec()
}

/// Resizes a decoded RGBA8 image (rows of `width` pixels, no padding) to
/// `scaled_width` by `scaled_height` with a bilinear filter, applied to the
/// stored samples as they are, without linearising them first.
pub fn resize_thumbnail(
    rgba: &Vec<u8>,
    width: u32,
    height: u32,
    scaled_width: u32,
    scaled_height: u32,
) -> (r: Vec<u8>)
    requires
        1 <= width <= MAX_INPUT_IMAGE_DIMENSION,
        1 <= height <= MAX_INPUT_IMAGE_DIMENSION,
        1 <= scaled_width <= MAX_REQUESTED_SIZE,
        1 <= scaled_height <= MAX_REQUESTED_SIZE,
        rgba@.len() == width * height * 4,
    ensures
        r@.len() == scaled_width * scaled_height * 4,
{
    assert(width * height <= 1024 * 1024) by (nonlinear_arith)
        requires
            width <= 1024,
            height <= 1024,
    ;
    assert(scaled_width * scaled_height <= 2048 * 2048) by (nonlinear_arith)
        requires
            scaled_width <= 2048,
            scaled_height <= 2048,
    ;
    resize_bilinear_rgba(rgba, width, height, scaled_width, scaled_height)
}

/// The character of a decimal digit.
pub open spec fn digit_char(d: nat) -> char {
    seq!['0', '1', '2', '3', '4', '5', '6', '7', '8', '9'][d as int]
}

/// The decimal representation of `n`: no sign, no leading zeros.
pub open spec fn decimal_digits(n: nat) -> Seq<char>
    decreases n,
{
    if n < 10 {
        seq![digit_char(n)]
    } else {
        decimal_digits(n / 10).push(digit_char(n % 10))
    }
}

/// Relies on `u64`'s `to_string` (through `Display`): the decimal digits of
/// the number, without sign or leading zeros.
#[verifier::external_body]
fn decimal_string(n: u64) -> (r: String)
    ensures
        r@ == decimal_digits(n as nat),
{
    n.to_string()
}

/// The text entries of a thumbnail, as keys and values.
pub open spec fn metadata_spec(uri: Seq<char>, mtime_secs: u64, width: u32, height: u32) -> Seq<
    (Seq<char>, Seq<char>),
> {
    seq![
        ("Software"@, SOFTWARE@),
        ("Thumb::URI"@, uri),
        ("Thumb::MTime"@, decimal_digits(mtime_secs as nat)),
        ("Thumb::Mimetype"@, MIME_TYPE@),
        ("Thumb::Image::Width"@, decimal_digits(width as nat)),
        ("Thumb::Image::Height"@, decimal_digits(height as nat)),
    ]
}

pub open spec fn entries_view(v: Seq<(String, String)>) -> Seq<(Seq<char>, Seq<char>)> {
    v.map_values(|e: (String, String)| (e.0@, e.1@))
}

/// The text entries written into a thumbnail: the product name, the source's
/// URI as given, its modification time in Unix seconds, the document's MIME
/// type, and the dimensions of the embedded image before it was resized.
pub fn thumbnail_metadata(uri: &str, mtime_secs: u64, width: u32, height: u32) -> (r: Vec<
    (String, String),
>)
    ensures
        entries_view(r@) == metadata_spec(uri@, mtime_secs, width, height),
{
    let mut v: Vec<(String, String)> = Vec::new();
    v.push(("Software".to_owned(), SOFTWARE.to_owned()));
    v.push(("Thumb::URI".to_owned(), uri.to_owned()));
    v.push(("Thumb::MTime".to_owned(), decimal_string(mtime_secs)));
    v.push(("Thumb::Mimetype".to_owned(), MIME_TYPE.to_owned()));
    v.push(("Thumb::Image::Width".to_owned(), decimal_string(width as u64)));
    v.push(("Thumb::Image::Height".to_owned(), decimal_string(height as u64)));
    assert(entries_view(v@) =~= metadata_spec(uri@, mtime_secs, width, height));
    v
}

} // verus!
