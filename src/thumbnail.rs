use vstd::prelude::*;
use crate::generate::{scaled_height, thumbnail_height};

verus! {

/// The largest size of an allocation.
pub const MAX_ALLOC: u64 = 0x7fff_ffff_ffff_ffff;

/// What `image::load_from_memory` followed by `to_rgba8` makes of encoded
/// image bytes: width, height and RGBA pixels, or nothing when the bytes
/// are no image it can decode.
pub uninterp spec fn decoded_rgba(bytes: Seq<u8>) -> Option<(u32, u32, Seq<u8>)>;

/// What `fast_image_resize` makes of RGBA pixels `px` of a `w` x `h` image
/// scaled by nearest neighbour to `dw` x `dh`, or nothing when it refuses.
pub uninterp spec fn nearest_resized(px: Seq<u8>, w: u32, h: u32, dw: u32, dh: u32) -> Option<
    Seq<u8>,
>;

/// What the lossless WebP encoder of `image` makes of RGBA pixels of a
/// `w` x `h` image, or nothing when it refuses.
pub uninterp spec fn webp_lossless(px: Seq<u8>, w: u32, h: u32) -> Option<Seq<u8>>;

/// Relies on `image::load_from_memory` (format guessed from the bytes) and
/// `DynamicImage::to_rgba8`: the decoded pixels depend on the bytes alone.
#[verifier::external_body]
fn decode_rgba(bytes: &[u8]) -> (r: Option<(u32, u32, Vec<u8>)>)
    ensures
        match (r, decoded_rgba(bytes@)) {
            (Some((w, h, px)), Some((w2, h2, px2))) => w == w2 && h == h2 && px@ == px2,
            (None, None) => true,
            _ => false,
        },
{
    match image::load_from_memory(bytes) {
        Ok(img) => {
            let rgba = img.to_rgba8();
            Some((rgba.width(), rgba.height(), rgba.into_raw()))
        },
        Err(_) => None,
    }
}

/// Relies on `fast_image_resize`: `ImageRef::new` over the source pixels,
/// `Image::new` for the destination (a buffer of exactly `4 * dw * dh`
/// bytes) and `Resizer::resize` with the nearest-neighbour algorithm.
#[verifier::external_body]
fn resize_nearest(px: &[u8], w: u32, h: u32, dw: u32, dh: u32) -> (r: Option<Vec<u8>>)
    requires
        px@.len() >= 4 * w as int * h as int,
        4 * dw as int * dh as int <= MAX_ALLOC,
    ensures
        match (r, nearest_resized(px@, w, h, dw, dh)) {
            (Some(v), Some(v2)) => v@ == v2,
            (None, None) => true,
            _ => false,
        },
        r matches Some(v) ==> v@.len() == 4 * dw as int * dh as int,
{
    let src = fast_image_resize::images::ImageRef::new(
        w,
        h,
        px,
        fast_image_resize::PixelType::U8x4,
    ).ok()?;
    let mut dst = fast_image_resize::images::Image::new(dw, dh, fast_image_resize::PixelType::U8x4);
    let options = fast_image_resize::ResizeOptions::new().resize_alg(
        fast_image_resize::ResizeAlg::Nearest,
    );
    fast_image_resize::Resizer::new().resize(&src, &mut dst, &options).ok()?;
    Some(dst.into_vec())
}

/// Relies on `image::codecs::webp::WebPEncoder::new_lossless` and its
/// `write_image` for RGBA8 data, which panics unless the buffer holds
/// exactly `4 * w * h` bytes.
#[verifier::external_body]
fn encode_webp(px: &[u8], w: u32, h: u32) -> (r: Option<Vec<u8>>)
    requires
        px@.len() == 4 * w as int * h as int,
    ensures
        match (r, webp_lossless(px@, w, h)) {
            (Some(v), Some(v2)) => v@ == v2,
            (None, None) => true,
            _ => false,
        },
{
    let mut out: Vec<u8> = Vec::new();
    let encoder = image::codecs::webp::WebPEncoder::new_lossless(&mut out);
    image::ImageEncoder::write_image(encoder, px, w, h, image::ExtendedColorType::Rgba8).ok()?;
    Some(out)
}

/// Why a thumbnail could not be made.
#[derive(PartialEq, Eq, Structural, Clone, Copy, Debug)]
pub enum ThumbnailError {
    /// The bytes are no image that can be decoded.
    Decode,
    /// The image has no pixels.
    EmptyImage,
    /// The scaled size is zero or too large.
    BadSize,
    /// The scaler refused the image.
    Resize,
    /// The encoder refused the image.
    Encode,
}

/// The thumbnail of encoded image bytes, `target_width` pixels wide with the
/// aspect ratio kept, as lossless WebP.
pub open spec fn thumbnail_of(bytes: Seq<u8>, target_width: u32) -> Result<Seq<u8>, ThumbnailError> {
    match decoded_rgba(bytes) {
        None => Err(ThumbnailError::Decode),
        Some((w, h, px)) => if w == 0 || h == 0 {
            Err(ThumbnailError::EmptyImage)
        } else if px.len() < 4 * w as int * h as int {
            Err(ThumbnailError::Decode)
        } else {
            match scaled_height(w, h, target_width) {
                None => Err(ThumbnailError::BadSize),
                Some(th) => if 4 * target_width as int * th as int > MAX_ALLOC {
                    Err(ThumbnailError::BadSize)
                } else {
                    match nearest_resized(px, w, h, target_width, th) {
                        None => Err(ThumbnailError::Resize),
                        Some(small) => match webp_lossless(small, target_width, th) {
                            None => Err(ThumbnailError::Encode),
                            Some(out) => Ok(out),
                        },
                    }
                },
            }
        },
    }
}

/// The number of bytes of RGBA pixels of an `a` x `b` image.
fn rgba_len(a: u32, b: u32) -> (r: u128)
    ensures
        r == 4 * a as int * b as int,
{
    let x: u128 = a as u128;
    let y: u128 = b as u128;
    assert(x * y <= 0xffff_ffffu128 * 0xffff_ffffu128) by (nonlinear_arith)
        requires
            x <= 0xffff_ffffu128,
            y <= 0xffff_ffffu128,
    ;
    let r = 4 * (x * y);
    assert(4 * (x * y) == 4 * x * y) by (nonlinear_arith);
    r
}

/// Makes the thumbnail of an encoded image: decoded, scaled by nearest
/// neighbour to `target_width` pixels wide with the aspect ratio kept, and
/// encoded as lossless WebP.
pub fn generate_thumbnail_buffer(bytes: &[u8], target_width: u32) -> (r: Result<Vec<u8>, ThumbnailError>)
    ensures
        match (r, thumbnail_of(bytes@, target_width)) {
            (Ok(v), Ok(v2)) => v@ == v2,
            (Err(e), Err(e2)) => e == e2,
            _ => false,
        },
{
    let (w, h, px) = match decode_rgba(bytes) {
        Some(d) => d,
        None => return Err(ThumbnailError::Decode),
    };
    if w == 0 || h == 0 {
        return Err(ThumbnailError::EmptyImage);
    }
    let need: u128 = rgba_len(w, h);
    if (px.len() as u128) < need {
        return Err(ThumbnailError::Decode);
    }
    let th = match thumbnail_height(w, h, target_width) {
        Some(t) => t,
        None => return Err(ThumbnailError::BadSize),
    };
    let out_len: u128 = rgba_len(target_width, th);
    if out_len > MAX_ALLOC as u128 {
        return Err(ThumbnailError::BadSize);
    }
    let small = match resize_nearest(px.as_slice(), w, h, target_width, th) {
        Some(s) => s,
        None => return Err(ThumbnailError::Resize),
    };
    match encode_webp(small.as_slice(), target_width, th) {
        Some(out) => Ok(out),
        None => Err(ThumbnailError::Encode),
    }
}

} // verus!
