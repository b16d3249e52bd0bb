use lcms2::{
    bytes_with_nul, reported_intents, text_from_bytes, text_from_c_buffer, text_from_wide, text_from_wide_chars,
    until_nul, wide_len, wide_with_nul, Error, Intent, NamedColorInfo,
};

#[test]
fn wide_text_round_trip() {
    let s = "Hello 世界！";
    let w = wide_with_nul(s);
    assert_eq!(s.chars().count() + 1, w.len());
    assert_eq!(0, *w.last().unwrap());
    assert_eq!('世' as u32, w[6]);
    assert_eq!(Ok(s.to_owned()), text_from_wide(w));
}

#[test]
fn wide_text_needs_terminator() {
    assert_eq!(Err(Error::InvalidString), text_from_wide(vec![]));
    assert_eq!(Err(Error::InvalidString), text_from_wide(vec!['a' as u32]));
    assert_eq!(Ok(String::new()), text_from_wide(vec![0]));
    // an unpaired surrogate is replaced
    assert_eq!(Ok("\u{FFFD}a".to_owned()), text_from_wide(vec![0xD800, 'a' as u32, 0]));
}

#[test]
fn wide_buffer_length() {
    assert_eq!(Err(Error::MissingData), wide_len(0, 4));
    assert_eq!(Err(Error::MissingData), wide_len(3, 4));
    assert_eq!(Err(Error::MissingData), wide_len(9, 4));
    assert_eq!(Ok(2), wide_len(8, 4));
    assert_eq!(Ok(4), wide_len(8, 2));
}

#[test]
fn ascii_text() {
    assert_eq!(Some(b"OK\0".to_vec()), bytes_with_nul("OK"));
    assert_eq!(None, bytes_with_nul("a\0b"));
    assert_eq!(Ok("OK".to_owned()), text_from_bytes(b"OK\0".to_vec()));
    assert_eq!(Err(Error::InvalidString), text_from_bytes(b"OK".to_vec()));
    assert_eq!(Err(Error::InvalidString), text_from_bytes(vec![0xff, 0]));
    assert_eq!(Err(Error::InvalidString), text_from_bytes(vec![]));
}

#[test]
fn c_buffers() {
    assert_eq!(b"hello".to_vec(), until_nul(b"hello\0world"));
    assert_eq!(b"abc".to_vec(), until_nul(b"abc"));
    assert_eq!(Vec::<u8>::new(), until_nul(b"\0abc"));
    assert_eq!("hello", text_from_c_buffer(b"hello\0\0\0"));
    assert_eq!("a\u{FFFD}", text_from_c_buffer(&[b'a', 0xff, 0, b'z']));
}

#[test]
fn profile_info_text() {
    let w: Vec<i32> = "Gray Gamma 1.8".chars().map(|c| c as i32).chain([0, 'x' as i32]).collect();
    assert_eq!(Some("Gray Gamma 1.8".to_owned()), text_from_wide_chars(&w));
    assert_eq!(Some(String::new()), text_from_wide_chars(&[]));
    assert_eq!(None, text_from_wide_chars(&[0xD800, 0]));
    assert_eq!(Some("a".to_owned()), text_from_wide_chars(&['a' as i32, -1, 0xD800]));
}

#[test]
fn named_color_entries() {
    let mut name = [0u8; 256];
    name[..5].copy_from_slice(b"hello");
    let info = NamedColorInfo::from_buffers(true, &name, b"pre\0", b"\0", [1, 2, 3], [7; 16]).unwrap();
    assert_eq!("hello", info.name);
    assert_eq!("pre", info.prefix);
    assert_eq!("", info.suffix);
    assert_eq!([1, 2, 3], info.pcs);
    assert_eq!([7; 16], info.colorant);
    assert_eq!(None, NamedColorInfo::from_buffers(false, &name, b"", b"", [0; 3], [0; 16]));
}

#[test]
fn intent_codes() {
    assert_eq!(1, Intent::RelativeColorimetric.code());
    assert_eq!(Some(Intent::PreserveKPlaneSaturation), Intent::from_code(15));
    assert_eq!(None, Intent::from_code(4));
    let codes = [0, 1, 99, 3, 10, 2];
    assert_eq!(
        vec![(Intent::Perceptual, 0), (Intent::RelativeColorimetric, 1), (Intent::AbsoluteColorimetric, 3)],
        reported_intents(&codes, 4)
    );
    assert_eq!(6 - 1, reported_intents(&codes, 100).len());
    assert!(reported_intents(&codes, 0).is_empty());
}
