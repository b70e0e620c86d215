use crate::color::Color;
use vstd::prelude::*;

verus! {

/// A grid of display colours: a tile that one worker fills, or the finished
/// picture. It holds an `image::RgbImage`, which is not read here: what is
/// known of it is what the functions below state over `canvas_pixels` and
/// `canvas_size`.
#[verifier::external_body]
pub struct Canvas {
    img: image::RgbImage,
}

/// The pixels of an image by position `(x, y)`, each as (red, green, blue).
pub uninterp spec fn canvas_pixels(img: Canvas) -> Map<
    (int, int),
    (u8, u8, u8),
>;

/// The width and the height that an image was made with.
pub uninterp spec fn canvas_size(img: Canvas) -> (int, int);

/// The position `(x, y)` lies inside the image.
pub open spec fn in_canvas(img: Canvas, x: int, y: int) -> bool {
    0 <= x < canvas_size(img).0 && 0 <= y < canvas_size(img).1
}

/// An image of the given size in which every pixel is black.
pub open spec fn blank_pixels(width: int, height: int) -> Map<(int, int), (u8, u8, u8)> {
    Map::new(
        |k: (int, int)| 0 <= k.0 < width && 0 <= k.1 < height,
        |k: (int, int)| (0u8, 0u8, 0u8),
    )
}

/// `ImageBuffer::new`: an image of the given size whose channels are all
/// zero. The outside function counts the channels in `usize`, first
/// `3 * width` and then that times `height`, and panics when either
/// product does not fit; the `requires` leaves those sizes out.
#[verifier::external_body]
pub(crate) fn canvas_new(width: u32, height: u32) -> (img: Canvas)
    requires
        3 * width <= usize::MAX,
        3 * width * height <= usize::MAX,
    ensures
        canvas_size(img) == (width as int, height as int),
        canvas_pixels(img) == blank_pixels(width as int, height as int),
{
    Canvas { img: image::ImageBuffer::new(width, height) }
}

/// `ImageBuffer::dimensions`: the width and the height of the image.
#[verifier::external_body]
pub(crate) fn canvas_dimensions(img: &Canvas) -> (size: (u32, u32))
    ensures
        canvas_size(*img) == (size.0 as int, size.1 as int),
{
    img.img.dimensions()
}

/// `ImageBuffer::put_pixel`: the pixel at `(x, y)` becomes the given one,
/// every other pixel and the size stay. The outside function panics on a
/// position outside the image; the `requires` leaves those out.
#[verifier::external_body]
pub(crate) fn canvas_put(img: &mut Canvas, x: u32, y: u32, pixel: (u8, u8, u8))
    requires
        in_canvas(*old(img), x as int, y as int),
    ensures
        canvas_size(*final(img)) == canvas_size(*old(img)),
        canvas_pixels(*final(img)) == canvas_pixels(*old(img)).insert((x as int, y as int), pixel),
{
    img.img.put_pixel(x, y, image::Rgb([pixel.0, pixel.1, pixel.2]))
}

/// `ImageBuffer::get_pixel`: the pixel at `(x, y)`. The outside function
/// panics on a position outside the image; the `requires` leaves those
/// out.
#[verifier::external_body]
pub(crate) fn canvas_get(img: &Canvas, x: u32, y: u32) -> (pixel: (u8, u8, u8))
    requires
        in_canvas(*img, x as int, y as int),
    ensures
        pixel == canvas_pixels(*img)[(x as int, y as int)],
{
    let p = img.img.get_pixel(x, y);
    (p.0[0], p.0[1], p.0[2])
}

/// The colour that stands for a pixel.
pub open spec fn color_of(pixel: (u8, u8, u8)) -> Color {
    Color { value: crate::vector::Vec3 { x: pixel.0, y: pixel.1, z: pixel.2 } }
}

impl Canvas {
    /// A canvas of this size can be held: the channels of one row, three
    /// for each pixel, and the channels of all rows can each be counted in
    /// `usize`.
    pub open spec fn fits(width: int, height: int) -> bool {
        3 * width <= usize::MAX && 3 * width * height <= usize::MAX
    }

    /// Whether a canvas of the given size can be held.
    pub fn can_hold(width: u32, height: u32) -> (ok: bool)
        ensures
            ok == Self::fits(width as int, height as int),
    {
        assert(0 <= width * height <= 0xffff_ffff * 0xffff_ffff && 3 * width * height == 3 * (
            width * height)) by (nonlinear_arith)
            requires
                0 <= width <= 0xffff_ffff,
                0 <= height <= 0xffff_ffff,
        ;
        let row: u64 = 3u64 * (width as u64);
        let area: u64 = (width as u64) * (height as u64);
        let channels: u128 = 3u128 * (area as u128);
        row as u128 <= usize::MAX as u128 && channels <= usize::MAX as u128
    }

    /// A black canvas of the given size; `None` where that many pixels
    /// cannot be held.
    pub fn new(width: u32, height: u32) -> (made: Option<Canvas>)
        ensures
            made.is_some() <==> Self::fits(width as int, height as int),
            made matches Some(c) ==> canvas_size(c) == (width as int, height as int)
                && canvas_pixels(c) == blank_pixels(width as int, height as int),
    {
        if Self::can_hold(width, height) {
            Some(canvas_new(width, height))
        } else {
            None
        }
    }

    pub fn width(&self) -> (w: u32)
        ensures
            w == canvas_size(*self).0,
    {
        canvas_dimensions(self).0
    }

    pub fn height(&self) -> (h: u32)
        ensures
            h == canvas_size(*self).1,
    {
        canvas_dimensions(self).1
    }

    /// The colour at `(x, y)`, or `None` for a position outside the canvas.
    pub fn get_pixel(&self, x: u32, y: u32) -> (found: Option<Color>)
        ensures
            found.is_some() <==> in_canvas(*self, x as int, y as int),
            found matches Some(c) ==> c == color_of(canvas_pixels(*self)[(x as int, y as int)]),
    {
        let size = canvas_dimensions(self);
        if x < size.0 && y < size.1 {
            let p = canvas_get(self, x, y);
            Some(Color::new(p.0, p.1, p.2))
        } else {
            None
        }
    }

    /// Sets the colour at `(x, y)` and says whether the position lies on
    /// the canvas; outside it nothing changes.
    pub fn put_pixel(&mut self, x: u32, y: u32, color: Color) -> (done: bool)
        ensures
            done == in_canvas(*old(self), x as int, y as int),
            canvas_size(*final(self)) == canvas_size(*old(self)),
            done ==> canvas_pixels(*final(self)) == canvas_pixels(*old(self)).insert(
                (x as int, y as int),
                (color.value.x, color.value.y, color.value.z),
            ),
            !done ==> canvas_pixels(*final(self)) == canvas_pixels(*old(self)),
    {
        let size = canvas_dimensions(self);
        if x < size.0 && y < size.1 {
            canvas_put(self, x, y, (color.r(), color.g(), color.b()));
            true
        } else {
            false
        }
    }
}

} // verus!
