//! The raster image a conversion works on.

use vstd::prelude::*;
use vstd::slice::slice_to_vec;

verus! {

/// The number of bytes of one pixel: red, green, blue, alpha.
pub const BYTES_PER_PIXEL: usize = 4;

/// The number of bytes that `width * height` interleaved RGBA pixels take.
pub open spec fn byte_count(width: int, height: int) -> int {
    width * height * 4
}

/// Whether `len` bytes are exactly the pixels of a `width` by `height` image.
///
/// The product is taken in the integers: dimensions whose byte count exceeds
/// the machine word match no length.
pub fn size_matches(len: usize, width: usize, height: usize) -> (r: bool)
    ensures
        r == (len == byte_count(width as int, height as int)),
{
    match width.checked_mul(height) {
        Some(pixels) => match pixels.checked_mul(BYTES_PER_PIXEL) {
            Some(bytes) => len == bytes,
            None => false,
        },
        None => false,
    }
}

/// An owned image: its dimensions in pixels and exactly
/// `width * height * 4` bytes of interleaved RGBA.
#[derive(Debug)]
pub struct RasterImage {
    pixels: Vec<u8>,
    width: usize,
    height: usize,
}

impl View for RasterImage {
    type V = Seq<u8>;

    /// The bytes of the image, row by row.
    closed spec fn view(&self) -> Seq<u8> {
        self.pixels@
    }
}

impl RasterImage {
    #[verifier::type_invariant]
    spec fn sized(&self) -> bool {
        self.pixels@.len() == byte_count(self.width as int, self.height as int)
    }

    /// The width in pixels.
    pub closed spec fn width_spec(&self) -> usize {
        self.width
    }

    /// The height in pixels.
    pub closed spec fn height_spec(&self) -> usize {
        self.height
    }

    /// Copies `data` into an image of its own, provided the length fits the
    /// dimensions. Nothing is copied, and nothing allocated, when it does not.
    pub fn copy_from(data: &[u8], width: usize, height: usize) -> (r: Option<RasterImage>)
        ensures
            r is Some <==> data@.len() == byte_count(width as int, height as int),
            r matches Some(image) ==> image@ == data@ && image.width() == width && image.height()
                == height,
    {
        if size_matches(data.len(), width, height) {
            Some(RasterImage { pixels: slice_to_vec(data), width, height })
        } else {
            None
        }
    }

    /// The width in pixels.
    #[verifier::when_used_as_spec(width_spec)]
    pub fn width(&self) -> (r: usize)
        ensures
            r == self.width_spec(),
    {
        self.width
    }

    /// The height in pixels.
    #[verifier::when_used_as_spec(height_spec)]
    pub fn height(&self) -> (r: usize)
        ensures
            r == self.height_spec(),
    {
        self.height
    }

    /// The bytes of the image; there are `width * height * 4` of them.
    pub fn pixels(&self) -> (r: &[u8])
        ensures
            r@ == self@,
            r@.len() == byte_count(self.width() as int, self.height() as int),
    {
        proof {
            use_type_invariant(self);
        }
        self.pixels.as_slice()
    }

    /// Gives up the bytes for the engine to work on.
    pub fn into_pixels(self) -> (r: Vec<u8>)
        ensures
            r@ == self@,
            r@.len() == byte_count(self.width() as int, self.height() as int),
    {
        proof {
            use_type_invariant(&self);
        }
        self.pixels
    }
}

} // verus!
