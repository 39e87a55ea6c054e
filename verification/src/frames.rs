use vstd::prelude::*;
use image::GenericImage;

verus! {

#[verifier::external_type_specification]
#[verifier::external_body]
pub struct ExDynamicImage(image::DynamicImage);

/// A staged still frame, held as an RGB8 pixel buffer.
#[verifier::external_body]
pub struct Frame {
    img: image::RgbImage,
}

/// The contact-sheet canvas being filled, an RGB8 pixel buffer.
#[verifier::external_body]
pub struct Canvas {
    buf: image::RgbImage,
}

/// The raw RGB bytes a frame holds, three per pixel, row-major.
pub uninterp spec fn frame_pixels(f: Frame) -> Seq<u8>;

/// A frame's width in pixels.
pub uninterp spec fn frame_width(f: Frame) -> u32;

/// A frame's height in pixels.
pub uninterp spec fn frame_height(f: Frame) -> u32;

/// The raw RGB bytes a canvas holds, three per pixel, row-major.
pub uninterp spec fn canvas_pixels(c: Canvas) -> Seq<u8>;

/// A canvas's width in pixels.
pub uninterp spec fn canvas_width(c: Canvas) -> u32;

/// A canvas's height in pixels.
pub uninterp spec fn canvas_height(c: Canvas) -> u32;

/// The RGB bytes of the nearest-neighbour rescale of a source buffer of the
/// given dimensions to the given target dimensions.
pub uninterp spec fn resized_of(src: Seq<u8>, src_w: int, src_h: int, w: int, h: int) -> Seq<u8>;

/// The RGB bytes of a destination buffer after a source buffer is pasted
/// onto it with its top-left corner at `(x, y)`.
pub uninterp spec fn blit_of(
    dst: Seq<u8>,
    dst_w: int,
    dst_h: int,
    src: Seq<u8>,
    src_w: int,
    src_h: int,
    x: int,
    y: int,
) -> Seq<u8>;

/// Relies on image::DynamicImage::to_rgb8: the conversion keeps the pixel
/// grid's dimensions, and an RGB8 buffer holds three bytes per pixel.
#[verifier::external_body]
pub(crate) fn frame_from_dynamic(img: image::DynamicImage) -> (f: Frame)
    ensures
        frame_pixels(f).len() == 3 * frame_width(f) * frame_height(f),
{
    Frame { img: img.to_rgb8() }
}

/// Relies on image::ImageBuffer::width and height.
#[verifier::external_body]
pub(crate) fn frame_dims(f: &Frame) -> (d: (u32, u32))
    ensures
        d.0 == frame_width(*f),
        d.1 == frame_height(*f),
{
    (f.img.width(), f.img.height())
}

/// Relies on image::imageops::resize: the output buffer has exactly the
/// requested dimensions and its pixels depend only on the source pixels,
/// the source dimensions, the target dimensions and the (fixed) filter.
/// The bounds keep every buffer the call allocates under the maximum size
/// of a vector.
#[verifier::external_body]
pub(crate) fn resize_frame(f: &Frame, w: u32, h: u32) -> (r: Frame)
    requires
        1 <= w,
        1 <= h,
        3 * (w as int) * (h as int) <= 0x7fff_ffff,
        16 * (frame_width(*f) as int) * (h as int) <= 0x7fff_ffff,
    ensures
        frame_width(r) == w,
        frame_height(r) == h,
        frame_pixels(r) == resized_of(
            frame_pixels(*f),
            frame_width(*f) as int,
            frame_height(*f) as int,
            w as int,
            h as int,
        ),
{
    Frame { img: image::imageops::resize(&f.img, w, h, image::imageops::FilterType::Nearest) }
}

/// Relies on image::ImageBuffer::new: a buffer of the given dimensions with
/// every byte zero; it panics only when the buffer exceeds the maximum size
/// of a vector, which the bound rules out.
#[verifier::external_body]
pub(crate) fn canvas_new(w: u32, h: u32) -> (c: Canvas)
    requires
        3 * (w as int) * (h as int) <= 0x7fff_ffff,
    ensures
        canvas_width(c) == w,
        canvas_height(c) == h,
        canvas_pixels(c) == Seq::new((3 * w * h) as nat, |i: int| 0u8),
{
    Canvas { buf: image::ImageBuffer::new(w, h) }
}

/// Relies on GenericImage::copy_from for RGB8 buffers: it succeeds exactly
/// when the pasted rectangle fits inside the destination, it writes in
/// place and never changes the destination's dimensions or buffer length,
/// on failure it leaves the destination untouched, and on success the
/// result depends only on the two buffers' pixels and dimensions and the
/// position.
#[verifier::external_body]
pub(crate) fn canvas_blit(c: &mut Canvas, f: &Frame, x: u32, y: u32) -> (r: Result<(), ()>)
    ensures
        canvas_width(*final(c)) == canvas_width(*old(c)),
        canvas_height(*final(c)) == canvas_height(*old(c)),
        canvas_pixels(*final(c)).len() == canvas_pixels(*old(c)).len(),
        r is Ok <==> x + frame_width(*f) <= canvas_width(*old(c)) && y + frame_height(*f)
            <= canvas_height(*old(c)),
        r is Ok ==> canvas_pixels(*final(c)) == blit_of(
            canvas_pixels(*old(c)),
            canvas_width(*old(c)) as int,
            canvas_height(*old(c)) as int,
            frame_pixels(*f),
            frame_width(*f) as int,
            frame_height(*f) as int,
            x as int,
            y as int,
        ),
        r is Err ==> canvas_pixels(*final(c)) == canvas_pixels(*old(c)),
{
    match c.buf.copy_from(&f.img, x, y) {
        Ok(()) => Ok(()),
        Err(_) => Err(()),
    }
}

/// Relies on image::ImageBuffer::as_raw: the buffer's raw bytes.
#[verifier::external_body]
pub(crate) fn canvas_raw(c: &Canvas) -> (r: Vec<u8>)
    ensures
        r@ == canvas_pixels(*c),
{
    c.buf.as_raw().clone()
}

/// Relies on image::DynamicImage::ImageRgb8 wrapping the buffer unchanged.
#[verifier::external_body]
pub(crate) fn canvas_into_dynamic(c: Canvas) -> (r: image::DynamicImage) {
    image::DynamicImage::ImageRgb8(c.buf)
}

impl Frame {
    /// Takes a decoded still into the pipeline as an RGB8 staged frame.
    pub fn from_image(img: image::DynamicImage) -> (f: Frame)
        ensures
            frame_pixels(f).len() == 3 * frame_width(f) * frame_height(f),
    {
        frame_from_dynamic(img)
    }

    /// The frame's pixel dimensions, width then height.
    pub fn size(&self) -> (d: (u32, u32))
        ensures
            d.0 == frame_width(*self),
            d.1 == frame_height(*self),
    {
        frame_dims(self)
    }
}

impl Canvas {
    /// The canvas's raw RGB bytes, three per pixel, row-major.
    pub fn bytes(&self) -> (r: Vec<u8>)
        ensures
            r@ == canvas_pixels(*self),
    {
        canvas_raw(self)
    }

    /// The canvas's pixel dimensions, width then height.
    pub fn size(&self) -> (d: (u32, u32))
        ensures
            d.0 == canvas_width(*self),
            d.1 == canvas_height(*self),
    {
        canvas_dims(self)
    }

    /// Hands the finished sheet out for persisting.
    pub fn into_image(self) -> image::DynamicImage {
        canvas_into_dynamic(self)
    }
}

/// Relies on image::ImageBuffer::width and height.
#[verifier::external_body]
pub(crate) fn canvas_dims(c: &Canvas) -> (d: (u32, u32))
    ensures
        d.0 == canvas_width(*c),
        d.1 == canvas_height(*c),
{
    (c.buf.width(), c.buf.height())
}

} // verus!
