use vstd::prelude::*;

verus! {

/// Eight-bit gray.
pub const TYPE_GRAY_8: u32 = 196617;
/// Sixteen-bit gray.
pub const TYPE_GRAY_16: u32 = 196618;
/// Eight-bit RGB, three bytes per pixel.
pub const TYPE_RGB_8: u32 = 262169;
/// Eight-bit RGB, one plane per channel.
pub const TYPE_RGB_8_PLANAR: u32 = 266265;
/// Sixteen-bit RGB.
pub const TYPE_RGB_16: u32 = 262170;
/// Eight-bit RGB with alpha.
pub const TYPE_RGBA_8: u32 = 262297;
/// Eight-bit CMYK.
pub const TYPE_CMYK_8: u32 = 393249;
/// Sixteen-bit CMYK.
pub const TYPE_CMYK_16: u32 = 393250;
/// Single-precision float RGB.
pub const TYPE_RGB_FLT: u32 = 4456476;

/// A pixel layout as the engine encodes it in a 32-bit word. From bit 0 up:
/// three bits of bytes per sample (0 stands for 8), four bits of channels,
/// three bits of extra samples, and at bit 12 the planar flag.
#[derive(Debug, Copy, Clone, PartialEq, Eq, Structural, Hash)]
pub struct PixelFormat(pub u32);

impl PixelFormat {
    pub open spec fn spec_planar(self) -> bool {
        (self.0 >> 12u32) & 1u32 != 0
    }

    pub open spec fn spec_extra(self) -> u32 {
        (self.0 >> 7u32) & 7u32
    }

    pub open spec fn spec_channels(self) -> u32 {
        (self.0 >> 3u32) & 15u32
    }

    pub open spec fn spec_bytes_per_channel(self) -> nat {
        if self.0 & 7u32 == 0 {
            8
        } else {
            (self.0 & 7u32) as nat
        }
    }

    /// Bytes in one pixel: bytes per sample times samples, extra ones included.
    pub open spec fn spec_bytes_per_pixel(self) -> nat {
        self.spec_bytes_per_channel() * (self.spec_extra() + self.spec_channels()) as nat
    }

    /// Whether each channel lies in a plane of its own.
    pub fn planar(&self) -> (r: bool)
        ensures
            r == self.spec_planar(),
    {
        (self.0 >> 12u32) & 1u32 != 0
    }

    /// Extra samples per pixel, such as alpha.
    pub fn extra(&self) -> (r: usize)
        ensures
            r == self.spec_extra(),
            r <= 7,
    {
        let x: u32 = self.0;
        let e: u32 = (x >> 7u32) & 7u32;
        assert(((x >> 7u32) & 7u32) <= 7u32) by (bit_vector);
        e as usize
    }

    /// Colour channels per pixel.
    pub fn channels(&self) -> (r: usize)
        ensures
            r == self.spec_channels(),
            r <= 15,
    {
        let x: u32 = self.0;
        let c: u32 = (x >> 3u32) & 15u32;
        assert(((x >> 3u32) & 15u32) <= 15u32) by (bit_vector);
        c as usize
    }

    /// Bytes per sample.
    pub fn bytes_per_channel(&self) -> (r: usize)
        ensures
            r == self.spec_bytes_per_channel(),
            1 <= r <= 8,
    {
        let x: u32 = self.0;
        let b: u32 = x & 7u32;
        assert((x & 7u32) <= 7u32) by (bit_vector);
        if b != 0 {
            b as usize
        } else {
            8
        }
    }

    /// Bytes per pixel.
    pub fn bytes_per_pixel(&self) -> (r: usize)
        ensures
            r == self.spec_bytes_per_pixel(),
    {
        let b = self.bytes_per_channel();
        let n = self.extra() + self.channels();
        assert(b * n <= 8 * 22) by (nonlinear_arith)
            requires
                b <= 8,
                n <= 22,
        ;
        b * n
    }
}

} // verus!
