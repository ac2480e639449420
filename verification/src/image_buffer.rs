//! Pixel buffers of the `image` crate, as the capturer fills and reads them.

use vstd::prelude::*;

verus! {

/// An RGBA buffer of the `image` crate: `ImageBuffer<Rgba<u8>, Vec<u8>>`.
#[verifier::external_body]
pub struct PixelBuffer {
    inner: image::ImageBuffer<image::Rgba<u8>, Vec<u8>>,
}

/// The width of a buffer, in pixels.
pub uninterp spec fn image_width(img: PixelBuffer) -> u32;

/// The height of a buffer, in pixels.
pub uninterp spec fn image_height(img: PixelBuffer) -> u32;

/// The samples that a buffer holds: four for each pixel, rows one after another.
pub uninterp spec fn image_samples(img: PixelBuffer) -> Seq<u8>;

/// Where the first sample of pixel `(x, y)` stands in a buffer `width` pixels wide.
pub open spec fn sample_index(width: int, x: int, y: int) -> int {
    (y * width + x) * 4
}

/// The samples after pixel `(x, y)` of a buffer `width` wide has been set to `rgba`.
pub open spec fn with_pixel(samples: Seq<u8>, width: int, x: int, y: int, rgba: Seq<u8>) -> Seq<u8> {
    let at = sample_index(width, x, y);
    Seq::new(samples.len(), |k: int| if at <= k < at + 4 { rgba[k - at] } else { samples[k] })
}

/// Calls `ImageBuffer::new`.
///
/// Claimed of it: the buffer has the dimensions given and four samples for
/// each pixel, all zero. The call panics where the number of samples does
/// not fit a vector, which `requires` leaves out.
#[verifier::external_body]
pub(crate) fn image_new(width: u32, height: u32) -> (img: PixelBuffer)
    requires
        4 * (width as int) * (height as int) <= isize::MAX,
    ensures
        image_width(img) == width,
        image_height(img) == height,
        image_samples(img) == Seq::new((4 * (width as int) * (height as int)) as nat, |k: int| 0u8),
{
    PixelBuffer { inner: image::ImageBuffer::new(width, height) }
}

/// Calls `ImageBuffer::put_pixel`.
///
/// Claimed of it: the four samples of pixel `(x, y)` become red, green,
/// blue and alpha; nothing else changes. The call panics outside the
/// buffer's bounds, which `requires` leaves out.
#[verifier::external_body]
pub(crate) fn image_put_pixel(img: &mut PixelBuffer, x: u32, y: u32, rgba: [u8; 4])
    requires
        x < image_width(*old(img)),
        y < image_height(*old(img)),
    ensures
        image_width(*final(img)) == image_width(*old(img)),
        image_height(*final(img)) == image_height(*old(img)),
        image_samples(*final(img)) == with_pixel(
            image_samples(*old(img)),
            image_width(*old(img)) as int,
            x as int,
            y as int,
            rgba@,
        ),
{
    img.inner.put_pixel(x, y, image::Rgba(rgba))
}

/// Calls `ImageBuffer::get_pixel`.
///
/// Claimed of it: the result holds the four samples of pixel `(x, y)`. The
/// call panics outside the buffer's bounds, which `requires` leaves out.
#[verifier::external_body]
pub(crate) fn image_get_pixel(img: &PixelBuffer, x: u32, y: u32) -> (rgba: [u8; 4])
    requires
        x < image_width(*img),
        y < image_height(*img),
    ensures
        rgba@ == image_samples(*img).subrange(
            sample_index(image_width(*img) as int, x as int, y as int),
            sample_index(image_width(*img) as int, x as int, y as int) + 4,
        ),
{
    img.inner.get_pixel(x, y).0
}

/// Calls `ImageBuffer::dimensions`.
///
/// Claimed of it: the result is the buffer's width and height.
#[verifier::external_body]
pub(crate) fn image_dimensions(img: &PixelBuffer) -> (size: (u32, u32))
    ensures
        size.0 == image_width(*img),
        size.1 == image_height(*img),
{
    img.inner.dimensions()
}

/// Calls `ImageBuffer::into_raw`.
///
/// Claimed of it: the result is the buffer's samples.
#[verifier::external_body]
pub(crate) fn image_into_raw(img: PixelBuffer) -> (samples: Vec<u8>)
    ensures
        samples@ == image_samples(img),
{
    img.inner.into_raw()
}

} // verus!
