//! Image variants: the target size of a dynamic transform and the decode, resize and
//! encode pipeline that produces it.

use vstd::prelude::*;

use crate::storage::model::{ImageFit, ImageOutputFormat, ImageTransform, StorageError, TransformedImage};

verus! {

/// A decoded image (`image::DynamicImage`), carried between the image crate's calls.
#[verifier::external_type_specification]
#[verifier::external_body]
pub struct ExDynamicImage(image::DynamicImage);

/// The pixel layout of a decoded image (`image::ColorType`).
#[derive(Debug, Clone, Copy, PartialEq, Eq, Structural)]
pub enum PixelKind {
    L8,
    La8,
    Rgb8,
    Rgba8,
    L16,
    La16,
    Rgb16,
    Rgba16,
    Rgb32F,
    Rgba32F,
    Other,
}

/// Layouts with 8-bit channels.
pub open spec fn eight_bit(k: PixelKind) -> bool {
    k is L8 || k is La8 || k is Rgb8 || k is Rgba8
}

/// A decoded image together with its width, height and pixel layout. Only the functions
/// of this module make one, each from the image crate's own report of them.
pub struct Picture {
    image: image::DynamicImage,
    width: u32,
    height: u32,
    kind: PixelKind,
}

impl Picture {
    /// Width in pixels.
    pub closed spec fn pixel_width(&self) -> u32 {
        self.width
    }

    /// Height in pixels.
    pub closed spec fn pixel_height(&self) -> u32 {
        self.height
    }

    /// Pixel layout.
    pub closed spec fn pixel_kind(&self) -> PixelKind {
        self.kind
    }

    pub fn width(&self) -> (r: u32)
        ensures
            r == self.pixel_width(),
    {
        self.width
    }

    pub fn height(&self) -> (r: u32)
        ensures
            r == self.pixel_height(),
    {
        self.height
    }
}

/// The pixel layout of a decoded image (`DynamicImage::color`).
#[verifier::external_body]
fn kind_of(image: &image::DynamicImage) -> (k: PixelKind) {
    match image.color() {
        image::ColorType::L8 => PixelKind::L8,
        image::ColorType::La8 => PixelKind::La8,
        image::ColorType::Rgb8 => PixelKind::Rgb8,
        image::ColorType::Rgba8 => PixelKind::Rgba8,
        image::ColorType::L16 => PixelKind::L16,
        image::ColorType::La16 => PixelKind::La16,
        image::ColorType::Rgb16 => PixelKind::Rgb16,
        image::ColorType::Rgba16 => PixelKind::Rgba16,
        image::ColorType::Rgb32F => PixelKind::Rgb32F,
        image::ColorType::Rgba32F => PixelKind::Rgba32F,
        _ => PixelKind::Other,
    }
}

/// The width, height and pixel layout of the image that `data` decodes to, or `None`
/// when it does not decode (`ImageReader::with_guessed_format` then `decode` with the
/// default limits: the format is guessed from the bytes, so the outcome depends on the
/// bytes alone).
pub uninterp spec fn decoded_image(data: Seq<u8>) -> Option<(u32, u32, PixelKind)>;

/// The largest pixel count for which this module states what an encoded image decodes
/// to: far below the decoder's default allocation limit for every layout it produces.
pub open spec fn readback_pixels() -> int {
    16_000_000
}

/// Whether `bytes` decode to an image of `w` x `h` pixels (when that size is small enough
/// for the statement to be made).
pub open spec fn reads_back(bytes: Seq<u8>, w: u32, h: u32) -> bool {
    w as int * h as int <= readback_pixels() ==> (decoded_image(bytes) matches Some((x, y, _)) && x == w && y == h)
}

/// Decodes image bytes (`ImageReader::new(..).with_guessed_format()` then `decode`) and
/// reads the size and layout (`DynamicImage::width`, `height`, `color`). The error text is
/// the crate's message.
#[verifier::external_body]
fn decode_picture(data: &[u8]) -> (r: Result<Picture, String>)
    ensures
        r is Ok <==> decoded_image(data@) is Some,
        r matches Ok(p) ==> decoded_image(data@) == Some((p.width, p.height, p.kind)),
{
    let reader = image::ImageReader::new(std::io::Cursor::new(data))
        .with_guessed_format()
        .map_err(|e| e.to_string())?;
    let image = reader.decode().map_err(|e| e.to_string())?;
    Ok(Picture { width: image.width(), height: image.height(), kind: kind_of(&image), image })
}

/// The sizes `DynamicImage::resize` may give a `sw` x `sh` image asked to fit in a
/// `w` x `h` box: inside the box, at least one pixel on each side, filling the box on one
/// side, with the aspect ratio kept up to the rounding of one side (at most one pixel).
pub open spec fn contained_size(sw: u32, sh: u32, w: u32, h: u32, rw: u32, rh: u32) -> bool {
    let skew = rw as int * sh as int - rh as int * sw as int;
    let bound = if sw >= sh { sw as int } else { sh as int };
    &&& 1 <= rw <= w
    &&& 1 <= rh <= h
    &&& (rw == w || rh == h)
    &&& -bound <= skew <= bound
}

/// `DynamicImage::resize` with the Lanczos3 filter: scales the image to the largest size
/// that fits in the box while keeping its aspect ratio (each side rounded to a whole
/// pixel, at least 1). For a non-empty image and box that size is `contained_size`. The
/// pixel layout is kept.
#[verifier::external_body]
fn resize_within(p: &Picture, width: u32, height: u32) -> (r: Picture)
    ensures
        (p.width > 0 && p.height > 0 && width > 0 && height > 0) ==> contained_size(
            p.width, p.height, width, height, r.width, r.height),
        r.kind == p.kind,
{
    let image = p.image.resize(width, height, image::imageops::FilterType::Lanczos3);
    Picture { width: image.width(), height: image.height(), kind: p.kind, image }
}

/// Whether `DynamicImage::resize_to_fill` can scale a `sw` x `sh` image to cover a
/// `w` x `h` box without the scaled side leaving the 32-bit range, which the crop that
/// follows relies on.
pub open spec fn cover_fits(sw: u32, sh: u32, w: u32, h: u32) -> bool {
    &&& sw > 0 && sh > 0 && w > 0 && h > 0
    &&& sh as int * w as int <= 0x7fff_ffff * sw as int
    &&& sw as int * h as int <= 0x7fff_ffff * sh as int
}

/// `DynamicImage::resize_to_fill` with the Lanczos3 filter: scales the image to cover the
/// box, keeping its aspect ratio, then crops the centre to exactly the box. The pixel
/// layout is kept.
#[verifier::external_body]
fn resize_covering(p: &Picture, width: u32, height: u32) -> (r: Picture)
    requires
        cover_fits(p.width, p.height, width, height),
    ensures
        r.width == width,
        r.height == height,
        r.kind == p.kind,
{
    let image = p.image.resize_to_fill(width, height, image::imageops::FilterType::Lanczos3);
    Picture { width: image.width(), height: image.height(), kind: p.kind, image }
}

/// `DynamicImage::resize_exact` with the Lanczos3 filter: the box's width and height are
/// the new image's dimensions. The pixel layout is kept.
#[verifier::external_body]
fn resize_stretched(p: &Picture, width: u32, height: u32) -> (r: Picture)
    ensures
        r.width == width,
        r.height == height,
        r.kind == p.kind,
{
    let image = p.image.resize_exact(width, height, image::imageops::FilterType::Lanczos3);
    Picture { width: image.width(), height: image.height(), kind: p.kind, image }
}

/// Whether the WebP encoder accepts a `w` x `h` image: every layout is first converted
/// to 8-bit channels, and the lossless encoder takes sides from 1 to 16384.
pub open spec fn webp_accepts(w: u32, h: u32) -> bool {
    1 <= w <= 16384 && 1 <= h <= 16384
}

/// Whether the JPEG encoder accepts a `w` x `h` image: sides from 1 to 65535.
pub open spec fn jpeg_accepts(w: u32, h: u32) -> bool {
    1 <= w <= 65535 && 1 <= h <= 65535
}

/// Encodes an image as lossless WebP (`DynamicImage::write_to` with `ImageFormat::WebP`;
/// the pixels are converted to 8-bit channels first). It succeeds exactly for the sizes
/// of `webp_accepts`, and the bytes decode to an image of the same size.
#[verifier::external_body]
fn encode_webp(p: &Picture) -> (r: Result<Vec<u8>, String>)
    ensures
        r is Ok <==> webp_accepts(p.width, p.height),
        r matches Ok(b) ==> reads_back(b@, p.width, p.height),
{
    let mut bytes: Vec<u8> = Vec::new();
    p.image
        .write_to(&mut std::io::Cursor::new(&mut bytes), image::ImageFormat::WebP)
        .map_err(|e| e.to_string())?;
    Ok(bytes)
}

/// Encodes an image as PNG (`DynamicImage::write_to` with `ImageFormat::Png`). An empty
/// side is refused; an image with 8-bit channels of any other size is encoded. Floating
/// point layouts are refused, and a 16-bit one needs a buffer for its byte order whose
/// allocation may fail, so nothing is stated of those. The bytes decode to an image of
/// the same size.
#[verifier::external_body]
fn encode_png(p: &Picture) -> (r: Result<Vec<u8>, String>)
    ensures
        (p.width >= 1 && p.height >= 1 && eight_bit(p.kind)) ==> r is Ok,
        (p.width == 0 || p.height == 0) ==> r is Err,
        r matches Ok(b) ==> reads_back(b@, p.width, p.height),
{
    let mut bytes: Vec<u8> = Vec::new();
    p.image
        .write_to(&mut std::io::Cursor::new(&mut bytes), image::ImageFormat::Png)
        .map_err(|e| e.to_string())?;
    Ok(bytes)
}

/// Encodes the RGB pixels of an image as JPEG of the given quality
/// (`JpegEncoder::new_with_quality(..).write_image(..)` on `to_rgb8`). It succeeds
/// exactly for the sizes of `jpeg_accepts`, and the bytes decode to an image of the same
/// size.
#[verifier::external_body]
fn encode_jpeg(p: &Picture, quality: u8) -> (r: Result<Vec<u8>, String>)
    ensures
        r is Ok <==> jpeg_accepts(p.width, p.height),
        r matches Ok(b) ==> reads_back(b@, p.width, p.height),
{
    let rgb = p.image.to_rgb8();
    let mut bytes: Vec<u8> = Vec::new();
    image::ImageEncoder::write_image(
        image::codecs::jpeg::JpegEncoder::new_with_quality(&mut bytes, quality),
        rgb.as_raw(),
        rgb.width(),
        rgb.height(),
        image::ExtendedColorType::Rgb8,
    )
    .map_err(|e| e.to_string())?;
    Ok(bytes)
}

/// An image failure with the text of the underlying error.
pub fn image_error(text: &str) -> (e: StorageError)
    ensures
        e matches StorageError::Image(t) && t@ == text@,
{
    StorageError::Image(text.to_owned())
}

/// The size a transform asks for on a `sw` x `sh` source: both sides when both are
/// given; one side and the other scaled to keep the aspect ratio (rounded down, at least
/// 1, truncated to 32 bits); nothing when neither is given.
pub open spec fn target_size(sw: u32, sh: u32, width: Option<u32>, height: Option<u32>) -> Option<(u32, u32)> {
    match (width, height) {
        (Some(w), Some(h)) => Some((w, h)),
        (Some(w), None) => {
            let scaled = (sh as int * w as int) / sw as int;
            Some((w, (if scaled > 1 { scaled } else { 1 }) as u32))
        },
        (None, Some(h)) => {
            let scaled = (sw as int * h as int) / sh as int;
            Some(((if scaled > 1 { scaled } else { 1 }) as u32, h))
        },
        (None, None) => None,
    }
}

/// Whether the size a transform asks for needs the source side it divides by.
pub open spec fn needs_source_side(sw: u32, sh: u32, width: Option<u32>, height: Option<u32>) -> bool {
    match (width, height) {
        (Some(_), None) => sw > 0,
        (None, Some(_)) => sh > 0,
        _ => true,
    }
}

/// The target size of a transform on a source of the given size; a transform without
/// width and height is an image error.
pub fn target_dimensions(sw: u32, sh: u32, transform: ImageTransform) -> (r: Result<(u32, u32), StorageError>)
    requires
        needs_source_side(sw, sh, transform.width, transform.height),
    ensures
        match target_size(sw, sh, transform.width, transform.height) {
            Some(d) => r matches Ok(x) && x == d,
            None => r matches Err(StorageError::Image(t)) && t@ == "缺少目标宽度或高度"@,
        },
{
    match (transform.width, transform.height) {
        (Some(w), Some(h)) => Ok((w, h)),
        (Some(w), None) => {
            assert((sh as u64) * (w as u64) <= u64::MAX) by (nonlinear_arith)
                requires sh <= u32::MAX, w <= u32::MAX;
            let scaled: u64 = ((sh as u64) * (w as u64)) / (sw as u64);
            let h: u64 = if scaled > 1 { scaled } else { 1 };
            Ok((w, h as u32))
        },
        (None, Some(h)) => {
            assert((sw as u64) * (h as u64) <= u64::MAX) by (nonlinear_arith)
                requires sw <= u32::MAX, h <= u32::MAX;
            let scaled: u64 = ((sw as u64) * (h as u64)) / (sh as u64);
            let w: u64 = if scaled > 1 { scaled } else { 1 };
            Ok((w as u32, h))
        },
        (None, None) => Err(StorageError::Image("缺少目标宽度或高度".to_owned())),
    }
}

/// What resizing a `sw` x `sh` source for `transform` must give: the error text, or the
/// check that the resized size passes. An empty source side that a one-sided transform
/// would divide by, and a cover that would leave the 32-bit range, are image errors.
pub open spec fn resized_spec(sw: u32, sh: u32, transform: ImageTransform, rw: u32, rh: u32) -> Result<bool, Seq<char>> {
    if !needs_source_side(sw, sh, transform.width, transform.height) {
        Err("图片尺寸无效"@)
    } else {
        match target_size(sw, sh, transform.width, transform.height) {
            None => Err("缺少目标宽度或高度"@),
            Some((w, h)) => match transform.fit {
                ImageFit::Fill => Ok(rw == w && rh == h),
                ImageFit::Cover => if cover_fits(sw, sh, w, h) {
                    Ok(rw == w && rh == h)
                } else {
                    Err("图片尺寸无效"@)
                },
                ImageFit::Contain => Ok((sw > 0 && sh > 0 && w > 0 && h > 0) ==> contained_size(sw, sh, w, h, rw, rh)),
            },
        }
    }
}

/// Resizes a decoded image to the size `transform` asks for, with its fit: `contain`
/// fits inside, `cover` fills and crops, `fill` stretches.
pub fn transform_dimensions(image: &Picture, transform: ImageTransform) -> (r: Result<Picture, StorageError>)
    ensures
        match resized_spec(image.pixel_width(), image.pixel_height(), transform, 0, 0) {
            Err(t) => r matches Err(StorageError::Image(m)) && m@ == t,
            Ok(_) => r matches Ok(p) && resized_spec(image.pixel_width(), image.pixel_height(), transform, p.pixel_width(), p.pixel_height()) == Ok::<bool, Seq<char>>(true)
                && p.pixel_kind() == image.pixel_kind(),
        },
{
    let sw = image.width;
    let sh = image.height;
    if !needs_source_side_exec(sw, sh, transform) {
        return Err(image_error("图片尺寸无效"));
    }
    let (width, height) = target_dimensions(sw, sh, transform)?;
    let resized = match transform.fit {
        ImageFit::Contain => resize_within(image, width, height),
        ImageFit::Cover => {
            if !cover_fits_exec(sw, sh, width, height) {
                return Err(image_error("图片尺寸无效"));
            }
            resize_covering(image, width, height)
        },
        ImageFit::Fill => resize_stretched(image, width, height),
    };
    Ok(resized)
}

fn cover_fits_exec(sw: u32, sh: u32, w: u32, h: u32) -> (r: bool)
    ensures
        r == cover_fits(sw, sh, w, h),
{
    if sw == 0 || sh == 0 || w == 0 || h == 0 {
        return false;
    }
    let a: u64 = sw as u64;
    let b: u64 = sh as u64;
    let c: u64 = w as u64;
    let d: u64 = h as u64;
    assert(b * c <= 0xffff_ffff * 0xffff_ffff && a * d <= 0xffff_ffff * 0xffff_ffff
        && 0x7fff_ffff * a <= 0x7fff_ffff * 0xffff_ffff && 0x7fff_ffff * b <= 0x7fff_ffff * 0xffff_ffff) by (nonlinear_arith)
        requires a <= 0xffff_ffff, b <= 0xffff_ffff, c <= 0xffff_ffff, d <= 0xffff_ffff;
    b * c <= 0x7fff_ffffu64 * a && a * d <= 0x7fff_ffffu64 * b
}

/// The variant produced from an encoding outcome: the bytes with the format's content
/// type, or an image error with the encoder's text.
pub fn encoded_variant(encoded: Result<Vec<u8>, String>, format: ImageOutputFormat) -> (r: Result<TransformedImage, StorageError>)
    ensures
        match encoded {
            Ok(bytes) => r matches Ok(t) && t.bytes == bytes && t.mime_type@ == format_mime(format),
            Err(text) => r matches Err(StorageError::Image(m)) && m == text,
        },
{
    match encoded {
        Ok(bytes) => {
            let mime = match format {
                ImageOutputFormat::WebP => "image/webp",
                ImageOutputFormat::Png => "image/png",
                ImageOutputFormat::Jpeg => "image/jpeg",
            };
            Ok(TransformedImage { bytes, mime_type: mime.to_owned() })
        },
        Err(text) => Err(StorageError::Image(text)),
    }
}

/// Content type of each output format.
pub open spec fn format_mime(format: ImageOutputFormat) -> Seq<char> {
    match format {
        ImageOutputFormat::WebP => "image/webp"@,
        ImageOutputFormat::Png => "image/png"@,
        ImageOutputFormat::Jpeg => "image/jpeg"@,
    }
}

/// Produces image thumbnails and dynamic variants.
#[derive(Debug, Clone, Copy)]
pub struct ImageExtractor {
    pub max_size: u32,
    pub quality: u8,
}

impl ImageExtractor {
    /// An extractor whose thumbnails fit in `max_size` pixels on their longer side.
    pub fn new(max_size: u32, quality: u8) -> (r: Self)
        ensures
            r.max_size == max_size,
            r.quality == quality,
    {
        ImageExtractor { max_size, quality }
    }

    /// Decodes `data`, resizes it as `transform` asks and encodes it in the requested
    /// format. Data that does not decode, and every refusal of `transform_dimensions`, is
    /// an image error. Otherwise the encoder decides (`encoder_accepts`): the result is
    /// the encoded resized image, whose bytes decode to the resized size, with the
    /// format's content type; an encoder's refusal is an image error.
    pub fn transform_image(&self, data: &[u8], transform: ImageTransform) -> (r: Result<TransformedImage, StorageError>)
        ensures
            match decoded_image(data@) {
                None => r matches Err(StorageError::Image(_)),
                Some((sw, sh, kind)) => match resized_spec(sw, sh, transform, 0, 0) {
                    Err(t) => r matches Err(StorageError::Image(m)) && m@ == t,
                    Ok(_) => {
                        &&& r matches Ok(t) ==> t.mime_type@ == format_mime(transform.format)
                        &&& r matches Ok(t) ==> (target_size(sw, sh, transform.width, transform.height) matches Some((w, h))
                            && readable_target(sw, sh, w, h) ==> (decoded_image(t.bytes@) matches Some((x, y, _))
                            && resized_spec(sw, sh, transform, x, y) == Ok::<bool, Seq<char>>(true)))
                        &&& r matches Err(e) ==> e is Image
                        &&& (target_size(sw, sh, transform.width, transform.height) matches Some((w, h))
                            && sw > 0 && sh > 0 && encoder_accepts(transform.format, w, h, kind)) ==> r is Ok
                    },
                },
            },
    {
        let image = match decode_picture(data) {
            Ok(i) => i,
            Err(text) => return Err(image_error(text.as_str())),
        };
        let resized = transform_dimensions(&image, transform)?;
        let encoded = match transform.format {
            ImageOutputFormat::WebP => encode_webp(&resized),
            ImageOutputFormat::Png => encode_png(&resized),
            ImageOutputFormat::Jpeg => encode_jpeg(&resized, transform.quality),
        };
        proof {
            let sw = image.pixel_width();
            let sh = image.pixel_height();
            let rw = resized.pixel_width();
            let rh = resized.pixel_height();
            if let Some((w, h)) = target_size(sw, sh, transform.width, transform.height) {
                if sw > 0 && sh > 0 && w > 0 && h > 0 {
                    assert(rw <= w && rh <= h);
                    assert(rw as int * rh as int <= w as int * h as int) by (nonlinear_arith)
                        requires rw <= w, rh <= h;
                }
            }
        }
        encoded_variant(encoded, transform.format)
    }
}

/// Whether a `w` x `h` target on a `sw` x `sh` source is small enough, and non-empty,
/// for the size its encoded result decodes to to be stated.
pub open spec fn readable_target(sw: u32, sh: u32, w: u32, h: u32) -> bool {
    sw > 0 && sh > 0 && w > 0 && h > 0 && w as int * h as int <= readback_pixels()
}

/// Whether the encoder for `format` accepts every image that a transform to a `w` x `h`
/// target can give from a source of layout `kind`.
pub open spec fn encoder_accepts(format: ImageOutputFormat, w: u32, h: u32, kind: PixelKind) -> bool {
    match format {
        ImageOutputFormat::WebP => webp_accepts(w, h),
        ImageOutputFormat::Jpeg => jpeg_accepts(w, h),
        ImageOutputFormat::Png => w >= 1 && h >= 1 && eight_bit(kind),
    }
}

fn needs_source_side_exec(sw: u32, sh: u32, transform: ImageTransform) -> (r: bool)
    ensures
        r == needs_source_side(sw, sh, transform.width, transform.height),
{
    match (transform.width, transform.height) {
        (Some(_), None) => sw > 0,
        (None, Some(_)) => sh > 0,
        _ => true,
    }
}

} // verus!
