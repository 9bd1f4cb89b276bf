//! Textures: their identities, their pixels and how the pixels are uploaded.

use vstd::prelude::*;

verus! {

/// Bytes that one pixel takes: red, green, blue and alpha.
pub const BYTES_PER_PIXEL: u32 = 4;

/// Identity and size of a texture that lives on the GPU.
///
/// Two handles refer to the same texture exactly when their identifiers are
/// equal. Identifiers are handed out by the asset manager, for cached and
/// uncached textures alike, and are never reused while it lives.
#[derive(Clone, Copy, Debug, PartialEq, Eq, Structural)]
pub struct TextureHandle {
    pub id: usize,
    pub width: u32,
    pub height: u32,
}

/// A decoded image: its size and its pixels, row by row without padding,
/// four bytes per pixel.
#[derive(Debug)]
pub struct ImageData {
    width: u32,
    height: u32,
    pixels: Vec<u8>,
}

/// How the pixels of an image are copied into a texture of the image's size.
#[derive(Clone, Copy, Debug, PartialEq, Eq, Structural)]
pub struct TextureUpload {
    /// Width of the texture, in pixels.
    pub width: u32,
    /// Height of the texture, in pixels.
    pub height: u32,
    /// Bytes from the start of one row of pixels to the start of the next.
    pub bytes_per_row: u32,
    /// Rows of pixels in the image.
    pub rows_per_image: u32,
}

/// Whether `len` bytes are the pixels of an image of the given size whose
/// rows can be addressed.
pub open spec fn is_image(width: u32, height: u32, len: nat) -> bool {
    len == BYTES_PER_PIXEL * width * height && BYTES_PER_PIXEL * width <= u32::MAX
}

impl ImageData {
    /// Width in pixels.
    pub closed spec fn width(&self) -> u32 {
        self.width
    }

    /// Height in pixels.
    pub closed spec fn height(&self) -> u32 {
        self.height
    }

    /// The pixels.
    pub closed spec fn pixels(&self) -> Seq<u8> {
        self.pixels@
    }

    #[verifier::type_invariant]
    spec fn inv(&self) -> bool {
        is_image(self.width, self.height, self.pixels@.len())
    }

    /// Wraps decoded pixels. Returns `None` unless there are exactly four
    /// bytes for each pixel and the length of a row fits its field.
    pub fn new(width: u32, height: u32, pixels: Vec<u8>) -> (image: Option<ImageData>)
        ensures
            image is Some <==> is_image(width, height, pixels@.len()),
            image matches Some(i) ==> i.width() == width && i.height() == height && i.pixels()
                == pixels@,
    {
        proof {
            assert(0 <= width as int * height as int <= 0xffff_ffff * 0xffff_ffff)
                by (nonlinear_arith)
                requires
                    0 <= width <= 0xffff_ffff,
                    0 <= height <= 0xffff_ffff,
            ;
            assert(BYTES_PER_PIXEL * width * height == 4 * (width as int * height as int))
                by (nonlinear_arith);
        }
        let area: u64 = width as u64 * height as u64;
        let bytes: u128 = 4 * (area as u128);
        if width <= u32::MAX / BYTES_PER_PIXEL && pixels.len() as u128 == bytes {
            Some(ImageData { width, height, pixels })
        } else {
            None
        }
    }

    /// Width in pixels.
    pub fn get_width(&self) -> (w: u32)
        ensures
            w == self.width(),
    {
        self.width
    }

    /// Height in pixels.
    pub fn get_height(&self) -> (h: u32)
        ensures
            h == self.height(),
    {
        self.height
    }

    /// The pixels.
    pub fn get_pixels(&self) -> (pixels: &[u8])
        ensures
            pixels@ == self.pixels(),
            is_image(self.width(), self.height(), pixels@.len()),
    {
        proof {
            use_type_invariant(self);
        }
        self.pixels.as_slice()
    }

    /// How the image is copied into a texture: rows are tightly packed.
    pub fn upload(&self) -> (upload: TextureUpload)
        ensures
            upload == (TextureUpload {
                width: self.width(),
                height: self.height(),
                bytes_per_row: (BYTES_PER_PIXEL * self.width()) as u32,
                rows_per_image: self.height(),
            }),
            BYTES_PER_PIXEL * self.width() <= u32::MAX,
    {
        proof {
            use_type_invariant(self);
        }
        TextureUpload {
            width: self.width,
            height: self.height,
            bytes_per_row: BYTES_PER_PIXEL * self.width,
            rows_per_image: self.height,
        }
    }
}

} // verus!
