use crate::pixel::PixelFormat;
use vstd::prelude::*;

verus! {

/// A pixel type that does not fit the format a transform is built for.
#[derive(Debug, Copy, Clone, PartialEq, Eq, Structural)]
pub enum FormatError {
    /// Planar layouts are not supported. `input` tells which side.
    Planar { input: bool },
    /// The pixel type's size differs from the format's bytes per pixel.
    SizeMismatch { input: bool, format_bytes: usize, pixel_bytes: usize },
}

/// A raw byte slice whose length is not a whole number of pixels.
#[derive(Debug, Copy, Clone, PartialEq, Eq, Structural)]
pub struct PartialPixel {
    pub input: bool,
    pub len: usize,
    pub bytes_per_pixel: usize,
}

/// The outcome of checking one side of a transform: `pixel_bytes` is the size
/// of the pixel type, `raw_bytes` says whether it is the raw-byte type `u8`,
/// which any format accepts.
pub open spec fn format_check(format: PixelFormat, pixel_bytes: usize, raw_bytes: bool, input: bool) -> Result<(), FormatError> {
    if format.spec_planar() {
        Err(FormatError::Planar { input })
    } else if raw_bytes || format.spec_bytes_per_pixel() == pixel_bytes {
        Ok(())
    } else {
        Err(FormatError::SizeMismatch { input, format_bytes: format.spec_bytes_per_pixel() as usize, pixel_bytes })
    }
}

/// How many whole pixels a slice of `len` elements holds: the length itself
/// for a pixel type, the length over the bytes per pixel for raw bytes, and
/// nothing where raw bytes do not make whole pixels.
pub open spec fn pixels_of(len: usize, raw_bytes: bool, format: PixelFormat) -> Option<nat> {
    let bpp = format.spec_bytes_per_pixel();
    if raw_bytes && bpp > 1 {
        if (len as nat) % bpp == 0 {
            Some(len as nat / bpp)
        } else {
            None
        }
    } else {
        Some(len as nat)
    }
}

pub open spec fn min_nat(a: nat, b: nat) -> nat {
    if a <= b {
        a
    } else {
        b
    }
}

/// Checks one side of a transform before it is built.
pub fn check_format(format: PixelFormat, pixel_bytes: usize, raw_bytes: bool, input: bool) -> (r: Result<(), FormatError>)
    ensures
        r == format_check(format, pixel_bytes, raw_bytes, input),
{
    if format.planar() {
        return Err(FormatError::Planar { input });
    }
    if raw_bytes {
        return Ok(());
    }
    let bpp = format.bytes_per_pixel();
    if bpp == pixel_bytes {
        Ok(())
    } else {
        Err(FormatError::SizeMismatch { input, format_bytes: bpp, pixel_bytes })
    }
}

/// Checks both sides of a transform, the input first.
pub fn check_formats(
    in_format: PixelFormat,
    in_pixel_bytes: usize,
    in_raw_bytes: bool,
    out_format: PixelFormat,
    out_pixel_bytes: usize,
    out_raw_bytes: bool,
) -> (r: Result<(), FormatError>)
    ensures
        format_check(in_format, in_pixel_bytes, in_raw_bytes, true) is Err ==> r == format_check(
            in_format,
            in_pixel_bytes,
            in_raw_bytes,
            true,
        ),
        format_check(in_format, in_pixel_bytes, in_raw_bytes, true) is Ok ==> r == format_check(
            out_format,
            out_pixel_bytes,
            out_raw_bytes,
            false,
        ),
{
    match check_format(in_format, in_pixel_bytes, in_raw_bytes, true) {
        Err(e) => Err(e),
        Ok(()) => check_format(out_format, out_pixel_bytes, out_raw_bytes, false),
    }
}

/// Whole pixels in a slice of `len` elements; see `pixels_of`.
pub fn pixels_in(len: usize, raw_bytes: bool, format: PixelFormat, input: bool) -> (r: Result<usize, PartialPixel>)
    ensures
        match r {
            Ok(n) => pixels_of(len, raw_bytes, format) == Some(n as nat),
            Err(e) => pixels_of(len, raw_bytes, format) is None && e == (PartialPixel {
                input,
                len,
                bytes_per_pixel: format.spec_bytes_per_pixel() as usize,
            }),
        },
{
    if raw_bytes {
        let bpp = format.bytes_per_pixel();
        if bpp > 1 {
            if len % bpp != 0 {
                return Err(PartialPixel { input, len, bytes_per_pixel: bpp });
            }
            return Ok(len / bpp);
        }
    }
    Ok(len)
}

/// The number of pixels one run of a transform converts: the smaller of the
/// pixel counts of source and destination, capped at `u32::MAX`. No pixel
/// beyond either slice is touched. Fails where a raw byte slice does not hold
/// whole pixels, the source checked first.
pub fn num_pixels(
    src_len: usize,
    src_raw_bytes: bool,
    in_format: PixelFormat,
    dst_len: usize,
    dst_raw_bytes: bool,
    out_format: PixelFormat,
) -> (r: Result<u32, PartialPixel>)
    ensures
        match (pixels_of(src_len, src_raw_bytes, in_format), pixels_of(dst_len, dst_raw_bytes, out_format)) {
            (Some(s), Some(d)) => r == Ok::<u32, PartialPixel>(min_nat(min_nat(s, d), u32::MAX as nat) as u32),
            (None, _) => r is Err && r->Err_0.input,
            (Some(_), None) => r is Err && !r->Err_0.input,
        },
        r matches Ok(n) ==> {
            &&& pixels_of(src_len, src_raw_bytes, in_format) matches Some(s) && n <= s
            &&& pixels_of(dst_len, dst_raw_bytes, out_format) matches Some(d) && n <= d
        },
{
    let s = match pixels_in(src_len, src_raw_bytes, in_format, true) {
        Ok(s) => s,
        Err(e) => return Err(e),
    };
    let d = match pixels_in(dst_len, dst_raw_bytes, out_format, false) {
        Ok(d) => d,
        Err(e) => return Err(e),
    };
    let m = if s <= d { s } else { d };
    if m > u32::MAX as usize {
        Ok(u32::MAX)
    } else {
        Ok(m as u32)
    }
}

} // verus!
