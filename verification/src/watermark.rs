//! The watermark asset: the bundled image decoded once at startup into an
//! RGBA pixel buffer, with its intrinsic size in pixels. Decoding is done by
//! the `image` crate behind one trusted wrapper; everything around it — the
//! buffer's shape, pixel access, the failure mode — is verified.

use vstd::prelude::*;

verus! {

/// What the `image` crate decodes a byte buffer to, as width, height and the
/// RGBA samples in row-major order, four bytes per pixel — or nothing, when
/// the bytes are not a valid image. Decoding depends on the bytes alone.
pub uninterp spec fn rgba_decoding(bytes: Seq<u8>) -> Option<(u32, u32, Seq<u8>)>;

/// Relies on image::load_from_memory, DynamicImage::to_rgba8,
/// ImageBuffer::dimensions and ImageBuffer::into_raw: decoding is a function
/// of the bytes alone; `dimensions` reports the buffer's stored width and
/// height; `into_raw` hands back the RGBA8 container, which holds exactly
/// four samples per pixel.
#[verifier::external_body]
fn decode_rgba(bytes: &[u8]) -> (r: Option<(u32, u32, Vec<u8>)>)
    ensures
        match r {
            Some((w, h, px)) => {
                &&& rgba_decoding(bytes@) == Some((w, h, px@))
                &&& px@.len() == 4 * (w as nat) * (h as nat)
            },
            None => rgba_decoding(bytes@) is None,
        },
{
    match image::load_from_memory(bytes) {
        Ok(img) => {
            let img = img.to_rgba8();
            let (w, h) = img.dimensions();
            Some((w, h, img.into_raw()))
        }
        Err(_) => None,
    }
}

/// The one failure mode the shell has: the bundled bytes do not decode as an
/// image.
#[derive(Clone, Copy, Debug, PartialEq, Eq, Structural)]
pub enum WatermarkError {
    InvalidImage,
}

/// A decoded watermark: intrinsic size in pixels and the RGBA samples,
/// row-major, four bytes per pixel. Immutable once built.
#[derive(Debug)]
pub struct Watermark {
    pub width: u32,
    pub height: u32,
    pub pixels: Vec<u8>,
}

impl Watermark {
    /// The buffer holds exactly four samples for each of the
    /// `width * height` pixels.
    pub open spec fn wf(self) -> bool {
        self.pixels@.len() == 4 * (self.width as nat) * (self.height as nat)
    }

    /// Decodes a watermark from the bundled image's bytes. Returns the
    /// decoded image — its intrinsic dimensions and samples are exactly the
    /// decoding of the bytes — and fails exactly when the bytes do not decode
    /// as an image.
    pub fn from_bytes(bytes: &[u8]) -> (r: Result<Watermark, WatermarkError>)
        ensures
            match r {
                Ok(wm) => {
                    &&& rgba_decoding(bytes@) == Some((wm.width, wm.height, wm.pixels@))
                    &&& wm.wf()
                },
                Err(e) => {
                    &&& rgba_decoding(bytes@) is None
                    &&& e == WatermarkError::InvalidImage
                },
            },
    {
        match decode_rgba(bytes) {
            Some((width, height, pixels)) => Ok(Watermark { width, height, pixels }),
            None => Err(WatermarkError::InvalidImage),
        }
    }

    /// How many pixels the image has.
    pub fn pixel_count(&self) -> (r: usize)
        requires
            self.wf(),
        ensures
            r == (self.width as nat) * (self.height as nat),
    {
        let buffer_len = self.pixels.len();
        proof {
            assert((self.width as nat) * (self.height as nat) <= buffer_len) by (nonlinear_arith)
                requires buffer_len == 4 * (self.width as nat) * (self.height as nat);
        }
        (self.width as usize) * (self.height as usize)
    }

    /// The `i`-th pixel's red, green, blue and alpha samples, in that order,
    /// read from the row-major buffer.
    pub fn pixel_at(&self, i: usize) -> (r: (u8, u8, u8, u8))
        requires
            self.wf(),
            i < (self.width as nat) * (self.height as nat),
        ensures
            r.0 == self.pixels@[4 * i],
            r.1 == self.pixels@[4 * i + 1],
            r.2 == self.pixels@[4 * i + 2],
            r.3 == self.pixels@[4 * i + 3],
    {
        let buffer_len = self.pixels.len();
        proof {
            assert(4 * (i as nat) + 3 < buffer_len) by (nonlinear_arith)
                requires
                    (i as nat) < (self.width as nat) * (self.height as nat),
                    buffer_len == 4 * (self.width as nat) * (self.height as nat);
        }
        let base: usize = 4 * i;
        (self.pixels[base], self.pixels[base + 1], self.pixels[base + 2], self.pixels[base + 3])
    }
}

} // verus!
