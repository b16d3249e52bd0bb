use lcms2::Locale;

#[test]
fn locale() {
    let l = Locale::new("");
    assert_eq!([0u8; 3], l.language());
    assert_eq!([0u8; 3], l.country());

    let l = Locale::none();
    assert_eq!([0u8; 3], l.language());
    assert_eq!([0u8; 3], l.country());

    let l = Locale::new("Ab");
    assert_eq!([b'A', b'b', 0], l.language());
    assert_eq!([0u8; 3], l.country());

    let l = Locale::new("Ab-X");
    assert_eq!([b'A', b'b', 0], l.language());
    assert_eq!([b'X', 0, 0], l.country());

    let l = Locale::new("overlong");
    assert_eq!([b'o', b'v', 0], l.language());
    assert_eq!([b'r', b'l', 0], l.country());
    assert_eq!(b'o', l.language()[0]);
    assert_eq!(b'r', l.country()[0]);
}

#[test]
fn locale_text_form() {
    assert_eq!("en_US", Locale::new("en_US").to_string());
    assert_eq!("_", Locale::none().to_string());
    assert_eq!("Ab_X", Locale::new("Ab-X").to_string());
    assert_eq!(Locale::none(), Locale::default());
}
