use image::DynamicImage;
use vstd::prelude::*;

use crate::placement::{centre_offset, centre_offset_spec, Offset, Size};

verus! {

#[verifier::external_type_specification]
#[verifier::external_body]
pub struct ExDynamicImage(DynamicImage);

/// Relies on `image::DynamicImage::width`, to read a decoded raster's width.
#[verifier::external_body]
fn raster_width(raster: &DynamicImage) -> (r: u32) {
    raster.width()
}

/// Relies on `image::DynamicImage::height`, to read a decoded raster's height.
#[verifier::external_body]
fn raster_height(raster: &DynamicImage) -> (r: u32) {
    raster.height()
}

/// Relies on `Clone` for `image::DynamicImage`, for a canvas that can be
/// drawn on while the background stays as it was.
#[verifier::external_body]
fn duplicate(raster: &DynamicImage) -> (r: DynamicImage) {
    raster.clone()
}

/// Relies on `image::imageops::overlay`, to blend `top` onto `bottom` with
/// its top-left corner at `(x, y)`; the pixels of `top` that fall outside
/// `bottom` are dropped.
#[verifier::external_body]
fn paste(bottom: &mut DynamicImage, top: &DynamicImage, x: i64, y: i64) {
    image::imageops::overlay(bottom, top, x, y)
}

/// A decoded image together with its size, as read when it was taken in.
/// Compositing never changes a raster's size, so the record stays true.
pub struct Picture {
    raster: DynamicImage,
    width: u32,
    height: u32,
}

impl Picture {
    pub closed spec fn size_spec(&self) -> Size {
        Size { width: self.width, height: self.height }
    }

    /// Takes in a decoded raster and records its size.
    pub fn from_raster(raster: DynamicImage) -> (r: Picture) {
        let width = raster_width(&raster);
        let height = raster_height(&raster);
        Picture { raster, width, height }
    }

    pub fn size(&self) -> (r: Size)
        ensures
            r == self.size_spec(),
    {
        Size { width: self.width, height: self.height }
    }

    pub fn raster(&self) -> (r: &DynamicImage) {
        &self.raster
    }

    pub fn into_raster(self) -> (r: DynamicImage) {
        self.raster
    }
}

/// A copy of `bg` with `fg` pasted on top of it, centred, and the offset at
/// which it was pasted. The result has the background's size; `bg` itself is
/// left as it was, so that it can serve the next foreground.
pub fn composite(bg: &Picture, fg: &Picture) -> (r: (Picture, Offset))
    ensures
        r.0.size_spec() == bg.size_spec(),
        r.1 == centre_offset_spec(bg.size_spec(), fg.size_spec()),
{
    let at = centre_offset(bg.size(), fg.size());
    let mut canvas = duplicate(&bg.raster);
    paste(&mut canvas, &fg.raster, at.x as i64, at.y as i64);
    (Picture { raster: canvas, width: bg.width, height: bg.height }, at)
}

} // verus!
