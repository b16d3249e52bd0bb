use lcms2::{AllowCache, DisallowCache, Flags};

#[test]
fn flags() {
    let _ = Flags::default();
    let mut t = Flags::COPY_ALPHA() | Flags::NO_OPTIMIZE();
    t = t | Flags::CLUT_PRE_LINEARIZATION();
    assert!(t.has(Flags::CLUT_PRE_LINEARIZATION()));
    assert!(t.has(Flags::COPY_ALPHA()));
    assert!(t.has(Flags::NO_OPTIMIZE()));
    assert!(!t.has(Flags::DEVICELINK_8BITS()));
    assert!(!t.has(Flags::GAMUT_CHECK()));
    let _ = Flags::default() | Flags::NO_CACHE();
    let _ = Flags::NO_CACHE() | Flags::CLUT_PRE_LINEARIZATION();
}

#[test]
fn flag_bits_are_the_engine_values() {
    assert_eq!(0x0040, Flags::NO_CACHE().bits());
    assert_eq!(0x04000000, Flags::COPY_ALPHA().bits());
    assert_eq!(0, Flags::default().bits());
    let both = Flags::COPY_ALPHA() | Flags::NO_OPTIMIZE();
    assert_eq!(0x04000100, both.bits());
}

#[test]
fn no_cache_survives_combination() {
    let a: Flags<DisallowCache> = Flags::default() | Flags::NO_CACHE();
    let b: Flags<DisallowCache> = Flags::NO_CACHE() | Flags::GAMUT_CHECK();
    assert_eq!(0x0040, a.bits());
    assert_eq!(0x1040, b.bits());
    let c: Flags<AllowCache> = b.allow_cache();
    assert_eq!(0x1040, c.bits());
}
