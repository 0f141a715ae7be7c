use vstd::prelude::*;

verus! {

/// A single LED: three visible color channels plus one reserved white
/// channel, each an 8-bit value. An all-zero pixel means "off".
#[derive(Clone, Copy, PartialEq, Eq, Structural, Debug)]
pub struct Pixel {
    pub r: u8,
    pub g: u8,
    pub b: u8,
    pub w: u8,
}

/// The all-zero pixel, i.e. a dark LED.
pub open spec fn spec_pixel_off() -> Pixel {
    Pixel { r: 0, g: 0, b: 0, w: 0 }
}

/// True iff the pixel is dark on every channel.
pub open spec fn is_off(p: Pixel) -> bool {
    p == spec_pixel_off()
}

impl Pixel {
    /// Builds a dark pixel.
    pub fn off() -> (p: Pixel)
        ensures
            p == spec_pixel_off(),
    {
        Pixel { r: 0, g: 0, b: 0, w: 0 }
    }

    /// Builds a pixel from its three visible channels, reserved channel zero.
    pub fn rgb(r: u8, g: u8, b: u8) -> (p: Pixel)
        ensures
            p == (Pixel { r, g, b, w: 0 }),
    {
        Pixel { r, g, b, w: 0 }
    }
}

/// True iff every pixel of the sequence is dark.
pub open spec fn all_off(s: Seq<Pixel>) -> bool {
    forall|i: int| 0 <= i < s.len() ==> is_off(s[i])
}

} // verus!
