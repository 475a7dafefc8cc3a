//! Decoded images handed to the renderer as texture contents.
use vstd::prelude::*;

use crate::error::RenderError;

verus! {

/// How the pixels of a texture are laid out.
#[derive(Clone, Copy, Debug, PartialEq, Eq, Structural)]
pub enum PixelFormat {
    /// Four bytes per pixel: red, green, blue, alpha.
    Rgba,
    /// One byte per pixel.
    Red,
}

impl PixelFormat {
    pub open spec fn channels_spec(self) -> nat {
        match self {
            PixelFormat::Rgba => 4,
            PixelFormat::Red => 1,
        }
    }

    /// Bytes per pixel.
    pub fn channels(self) -> (r: u32)
        ensures
            r == self.channels_spec(),
    {
        match self {
            PixelFormat::Rgba => 4,
            PixelFormat::Red => 1,
        }
    }
}

/// Raw pixels with their dimensions, row by row.
#[derive(Clone, Debug)]
pub struct Image {
    pub width: u32,
    pub height: u32,
    pub pixels: Vec<u8>,
}

impl Image {
    /// The pixels fill exactly `width * height` pixels of `format`.
    pub open spec fn fits_spec(&self, format: PixelFormat) -> bool {
        self.pixels@.len() == self.width * self.height * format.channels_spec()
    }

    /// Whether the pixels fill exactly `width * height` pixels of `format`.
    pub fn fits(&self, format: PixelFormat) -> (r: bool)
        ensures
            r == self.fits_spec(format),
    {
        let w = self.width as u128;
        let h = self.height as u128;
        let c = format.channels() as u128;
        proof {
            assert(w * h <= 0xffff_ffffu128 * 0xffff_ffffu128) by (nonlinear_arith)
                requires
                    w <= 0xffff_ffffu128,
                    h <= 0xffff_ffffu128,
            ;
            assert(w * h * c <= 0xffff_ffffu128 * 0xffff_ffffu128 * 4) by (nonlinear_arith)
                requires
                    w * h <= 0xffff_ffffu128 * 0xffff_ffffu128,
                    c <= 4,
            ;
        }
        self.pixels.len() as u128 == w * h * c
    }

    /// Checks that the pixels match the dimensions in `format`.
    pub fn check(&self, format: PixelFormat) -> (r: Result<(), RenderError>)
        ensures
            r is Ok <==> self.fits_spec(format),
            r is Err ==> r == Err::<(), RenderError>(RenderError::ImageDecodeError),
    {
        if self.fits(format) {
            Ok(())
        } else {
            Err(RenderError::ImageDecodeError)
        }
    }

    /// A blank (all zero) image of `width * height` pixels of `format`.
    pub fn blank(width: u32, height: u32, format: PixelFormat) -> (r: Image)
        requires
            width * height * format.channels_spec() <= usize::MAX,
        ensures
            r.width == width,
            r.height == height,
            r.fits_spec(format),
            forall|i: int| 0 <= i < r.pixels@.len() ==> r.pixels@[i] == 0,
    {
        proof {
            assert(0 <= width * height * format.channels_spec()) by (nonlinear_arith);
        }
        let n = (width as usize) * (height as usize) * (format.channels() as usize);
        let mut pixels: Vec<u8> = Vec::with_capacity(n);
        let mut i: usize = 0;
        while i < n
            invariant
                i <= n,
                pixels@.len() == i,
                forall|j: int| 0 <= j < i ==> pixels@[j] == 0,
            decreases n - i,
        {
            pixels.push(0);
            i = i + 1;
        }
        Image { width, height, pixels }
    }
}

} // verus!
