//! Raw clipboard pixel data and the shape check that guards the encoder.

use vstd::prelude::*;

verus! {

/// Number of bytes one RGBA8 pixel takes.
pub const BYTES_PER_PIXEL: usize = 4;

/// A raster image as the clipboard hands it over: dimensions in pixels and
/// the row-major RGBA8 bytes.
#[derive(Debug, PartialEq, Eq)]
pub struct RawClipboardImage {
    pub width: usize,
    pub height: usize,
    pub bytes: Vec<u8>,
}

/// Why a pixel buffer cannot be used.
#[derive(Clone, Copy, Debug, PartialEq, Eq, Structural)]
pub enum ValidationError {
    /// The width or the height is zero.
    EmptyDimensions,
    /// The buffer does not hold exactly four bytes per pixel.
    LengthMismatch,
}

/// The byte length that an RGBA8 image of the given dimensions takes.
pub open spec fn expected_len(width: nat, height: nat) -> nat {
    width * height * 4
}

/// The verdict on a buffer of `len` bytes that claims the given dimensions.
/// Empty dimensions are reported first, whatever the length.
pub open spec fn verdict(width: nat, height: nat, len: nat) -> Result<(), ValidationError> {
    if width == 0 || height == 0 {
        Err(ValidationError::EmptyDimensions)
    } else if len != expected_len(width, height) {
        Err(ValidationError::LengthMismatch)
    } else {
        Ok(())
    }
}

impl RawClipboardImage {
    /// The buffer has nonzero dimensions and exactly four bytes per pixel.
    pub open spec fn is_valid(&self) -> bool {
        &&& self.width > 0
        &&& self.height > 0
        &&& self.bytes@.len() == expected_len(self.width as nat, self.height as nat)
    }

    /// The verdict on this image.
    pub open spec fn verdict(&self) -> Result<(), ValidationError> {
        verdict(self.width as nat, self.height as nat, self.bytes@.len())
    }

    /// A dimension is zero or no byte is there: nothing to process.
    pub open spec fn is_blank(&self) -> bool {
        self.width == 0 || self.height == 0 || self.bytes@.len() == 0
    }

    pub fn new(width: usize, height: usize, bytes: Vec<u8>) -> (image: RawClipboardImage)
        ensures
            image.width == width,
            image.height == height,
            image.bytes == bytes,
    {
        RawClipboardImage { width, height, bytes }
    }

    /// Checks the shape of the buffer before any encoding is attempted.
    pub fn validate(&self) -> (outcome: Result<(), ValidationError>)
        ensures
            outcome == self.verdict(),
            outcome is Ok <==> self.is_valid(),
            (self.width == 0 || self.height == 0) ==> outcome == Err::<(), _>(
                ValidationError::EmptyDimensions,
            ),
            self.width > 0 && self.height > 0 && self.bytes@.len() != expected_len(
                self.width as nat,
                self.height as nat,
            ) ==> outcome == Err::<(), _>(ValidationError::LengthMismatch),
    {
        if self.width == 0 || self.height == 0 {
            return Err(ValidationError::EmptyDimensions);
        }
        let len = self.bytes.len();
        match self.width.checked_mul(self.height) {
            None => {
                proof {
                    lemma_product_exceeds(self.width as nat, self.height as nat, 4, len as nat);
                }
                Err(ValidationError::LengthMismatch)
            },
            Some(pixels) => match pixels.checked_mul(BYTES_PER_PIXEL) {
                None => Err(ValidationError::LengthMismatch),
                Some(expected) => {
                    if expected == len {
                        Ok(())
                    } else {
                        Err(ValidationError::LengthMismatch)
                    }
                },
            },
        }
    }

    /// Tells whether the clipboard handed over an image with nothing in it.
    pub fn is_empty(&self) -> (blank: bool)
        ensures
            blank == self.is_blank(),
    {
        self.width == 0 || self.height == 0 || self.bytes.len() == 0
    }
}

/// A product that already exceeds `bound` stays above it when multiplied by a
/// positive factor.
proof fn lemma_product_exceeds(a: nat, b: nat, k: nat, bound: nat)
    requires
        a * b > bound,
        k >= 1,
    ensures
        a * b * k > bound,
{
    assert(a * b * k >= a * b) by (nonlinear_arith)
        requires
            k >= 1,
    ;
}

} // verus!
