use vstd::prelude::*;

verus! {

/// A grayscale raster: one byte of intensity per pixel, row by row.
pub struct GrayscaleMap {
    pub pixels: Vec<u8>,
    pub size: (usize, usize),
}

/// A raster of `size` (width, height) holding `pixels`, which has one byte
/// for each pixel.
pub fn new_map(size: (usize, usize), pixels: Vec<u8>) -> (r: GrayscaleMap)
    requires
        pixels@.len() == size.0 * size.1,
    ensures
        r.pixels@ == pixels@,
        r.size == size,
{
    GrayscaleMap { pixels, size }
}

} // verus!
