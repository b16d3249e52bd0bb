use lcms2::{
    check_format, check_formats, num_pixels, pixels_in, FormatError, PartialPixel, PixelFormat, TYPE_CMYK_8,
    TYPE_GRAY_16, TYPE_GRAY_8, TYPE_RGBA_8, TYPE_RGB_16, TYPE_RGB_8, TYPE_RGB_8_PLANAR, TYPE_RGB_FLT,
};

#[test]
fn bytes_per_pixel_of_common_formats() {
    assert_eq!(1, PixelFormat(TYPE_GRAY_8).bytes_per_pixel());
    assert_eq!(2, PixelFormat(TYPE_GRAY_16).bytes_per_pixel());
    assert_eq!(3, PixelFormat(TYPE_RGB_8).bytes_per_pixel());
    assert_eq!(6, PixelFormat(TYPE_RGB_16).bytes_per_pixel());
    assert_eq!(4, PixelFormat(TYPE_RGBA_8).bytes_per_pixel());
    assert_eq!(4, PixelFormat(TYPE_CMYK_8).bytes_per_pixel());
    assert_eq!(12, PixelFormat(TYPE_RGB_FLT).bytes_per_pixel());
    assert_eq!(3, PixelFormat(TYPE_RGB_8).channels());
    assert_eq!(1, PixelFormat(TYPE_RGBA_8).extra());
    assert!(PixelFormat(TYPE_RGB_8_PLANAR).planar());
    assert!(!PixelFormat(TYPE_RGB_8).planar());
    // a zero bytes-per-sample field stands for eight bytes
    assert_eq!(8, PixelFormat(3 << 3).bytes_per_channel());
    assert_eq!(24, PixelFormat(3 << 3).bytes_per_pixel());
}

#[test]
fn mismatched_pixel_sizes_are_refused() {
    let pairs = [(TYPE_GRAY_8, 4usize), (TYPE_RGB_8, 4), (TYPE_RGB_16, 3), (TYPE_CMYK_8, 8), (TYPE_RGBA_8, 3)];
    for (format, size) in pairs {
        let bpp = PixelFormat(format).bytes_per_pixel();
        assert_eq!(
            Err(FormatError::SizeMismatch { input: true, format_bytes: bpp, pixel_bytes: size }),
            check_format(PixelFormat(format), size, false, true)
        );
    }
}

#[test]
fn matching_pixel_sizes_are_accepted() {
    assert_eq!(Ok(()), check_format(PixelFormat(TYPE_RGB_8), 3, false, true));
    assert_eq!(Ok(()), check_format(PixelFormat(TYPE_RGB_16), 6, false, false));
    assert_eq!(Ok(()), check_format(PixelFormat(TYPE_CMYK_8), 4, false, true));
    // raw bytes fit any chunky format
    assert_eq!(Ok(()), check_format(PixelFormat(TYPE_RGB_16), 1, true, true));
}

#[test]
fn planar_formats_are_refused() {
    assert_eq!(Err(FormatError::Planar { input: false }), check_format(PixelFormat(TYPE_RGB_8_PLANAR), 3, false, false));
    assert_eq!(Err(FormatError::Planar { input: true }), check_format(PixelFormat(TYPE_RGB_8_PLANAR), 1, true, true));
}

#[test]
fn both_sides_checked_input_first() {
    let r = check_formats(PixelFormat(TYPE_GRAY_8), 4, false, PixelFormat(TYPE_RGB_8_PLANAR), 3, false);
    assert_eq!(Err(FormatError::SizeMismatch { input: true, format_bytes: 1, pixel_bytes: 4 }), r);
    let r = check_formats(PixelFormat(TYPE_GRAY_8), 1, false, PixelFormat(TYPE_RGB_8), 4, false);
    assert_eq!(Err(FormatError::SizeMismatch { input: false, format_bytes: 3, pixel_bytes: 4 }), r);
    assert_eq!(Ok(()), check_formats(PixelFormat(TYPE_GRAY_8), 1, false, PixelFormat(TYPE_RGB_8), 3, false));
}

#[test]
fn pixel_count_is_the_smaller_slice() {
    let rgb = PixelFormat(TYPE_RGB_8);
    assert_eq!(Ok(3), num_pixels(3, false, rgb, 5, false, rgb));
    assert_eq!(Ok(2), num_pixels(7, false, rgb, 2, false, rgb));
    assert_eq!(Ok(0), num_pixels(0, false, rgb, 2, false, rgb));
    // gray bytes in, RGB triples out
    assert_eq!(Ok(3), num_pixels(3, true, PixelFormat(TYPE_GRAY_8), 3, false, rgb));
    // raw bytes count whole pixels
    assert_eq!(Ok(2), num_pixels(6, true, rgb, 10, false, rgb));
    assert_eq!(Ok(4), pixels_in(12, true, rgb, true));
}

#[test]
fn partial_raw_pixels_are_refused() {
    let rgb16 = PixelFormat(TYPE_RGB_16);
    assert_eq!(
        Err(PartialPixel { input: true, len: 7, bytes_per_pixel: 6 }),
        num_pixels(7, true, rgb16, 7, true, rgb16)
    );
    assert_eq!(
        Err(PartialPixel { input: false, len: 5, bytes_per_pixel: 6 }),
        num_pixels(6, true, rgb16, 5, true, rgb16)
    );
}

#[test]
fn pixel_count_is_capped_at_u32_max() {
    let gray = PixelFormat(TYPE_GRAY_8);
    let big = u32::MAX as usize + 10;
    assert_eq!(Ok(u32::MAX), num_pixels(big, false, gray, big, false, gray));
}
