use vstd::prelude::*;

verus! {

/// Marker: the transform keeps the engine's one-pixel cache, so it must not
/// be shared between threads.
#[derive(Copy, Clone, Debug)]
pub struct AllowCache;

/// Marker: the one-pixel cache is off, so the transform may be shared.
#[derive(Copy, Clone, Debug)]
pub struct DisallowCache;

/// The two cache states a set of flags can carry.
pub trait CacheFlag: Sized {
}

impl CacheFlag for AllowCache {
}

impl CacheFlag for DisallowCache {
}

/// Flags for creating a transform: a bit mask for the engine, and, in the
/// type, whether the one-pixel cache stays on. Combine them with `|`.
#[derive(Copy, Clone, Debug)]
pub struct Flags<T: CacheFlag = AllowCache>(pub u32, pub T);

impl Flags<AllowCache> {
    /// Inhibit optimizations.
    #[allow(non_snake_case)]
    pub fn NO_OPTIMIZE() -> (r: Flags<AllowCache>)
        ensures
            r.0 == 0x0100,
    {
        Flags(0x0100, AllowCache)
    }

    /// Don't transform at all.
    #[allow(non_snake_case)]
    pub fn NULL_TRANSFORM() -> (r: Flags<AllowCache>)
        ensures
            r.0 == 0x0200,
    {
        Flags(0x0200, AllowCache)
    }

    /// Proofing: mark out-of-gamut colours with the alarm codes.
    #[allow(non_snake_case)]
    pub fn GAMUT_CHECK() -> (r: Flags<AllowCache>)
        ensures
            r.0 == 0x1000,
    {
        Flags(0x1000, AllowCache)
    }

    /// Proofing: emulate the proofing device.
    #[allow(non_snake_case)]
    pub fn SOFT_PROOFING() -> (r: Flags<AllowCache>)
        ensures
            r.0 == 0x4000,
    {
        Flags(0x4000, AllowCache)
    }

    /// Black point compensation.
    #[allow(non_snake_case)]
    pub fn BLACKPOINT_COMPENSATION() -> (r: Flags<AllowCache>)
        ensures
            r.0 == 0x2000,
    {
        Flags(0x2000, AllowCache)
    }

    /// Don't fix the scum dot.
    #[allow(non_snake_case)]
    pub fn NO_WHITE_ON_WHITE_FIXUP() -> (r: Flags<AllowCache>)
        ensures
            r.0 == 0x0004,
    {
        Flags(0x0004, AllowCache)
    }

    /// Use more memory to give better accuracy.
    #[allow(non_snake_case)]
    pub fn HIGHRES_PRECALC() -> (r: Flags<AllowCache>)
        ensures
            r.0 == 0x0400,
    {
        Flags(0x0400, AllowCache)
    }

    /// Use less memory to minimize resources.
    #[allow(non_snake_case)]
    pub fn LOWRES_PRECALC() -> (r: Flags<AllowCache>)
        ensures
            r.0 == 0x0800,
    {
        Flags(0x0800, AllowCache)
    }

    /// Device links: create 8-bit device links.
    #[allow(non_snake_case)]
    pub fn DEVICELINK_8BITS() -> (r: Flags<AllowCache>)
        ensures
            r.0 == 0x0008,
    {
        Flags(0x0008, AllowCache)
    }

    /// Device links: guess the device class.
    #[allow(non_snake_case)]
    pub fn GUESS_DEVICE_CLASS() -> (r: Flags<AllowCache>)
        ensures
            r.0 == 0x0020,
    {
        Flags(0x0020, AllowCache)
    }

    /// Device links: keep the profile sequence.
    #[allow(non_snake_case)]
    pub fn KEEP_SEQUENCE() -> (r: Flags<AllowCache>)
        ensures
            r.0 == 0x0080,
    {
        Flags(0x0080, AllowCache)
    }

    /// Force CLUT optimization.
    #[allow(non_snake_case)]
    pub fn FORCE_CLUT() -> (r: Flags<AllowCache>)
        ensures
            r.0 == 0x0002,
    {
        Flags(0x0002, AllowCache)
    }

    /// Create post-linearization tables if possible.
    #[allow(non_snake_case)]
    pub fn CLUT_POST_LINEARIZATION() -> (r: Flags<AllowCache>)
        ensures
            r.0 == 0x0001,
    {
        Flags(0x0001, AllowCache)
    }

    /// Create pre-linearization tables if possible.
    #[allow(non_snake_case)]
    pub fn CLUT_PRE_LINEARIZATION() -> (r: Flags<AllowCache>)
        ensures
            r.0 == 0x0010,
    {
        Flags(0x0010, AllowCache)
    }

    /// Unbounded mode: prevent negative numbers in floating point transforms.
    #[allow(non_snake_case)]
    pub fn NO_NEGATIVES() -> (r: Flags<AllowCache>)
        ensures
            r.0 == 0x8000,
    {
        Flags(0x8000, AllowCache)
    }

    /// Alpha channels are copied.
    #[allow(non_snake_case)]
    pub fn COPY_ALPHA() -> (r: Flags<AllowCache>)
        ensures
            r.0 == 0x04000000,
    {
        Flags(0x04000000, AllowCache)
    }

    /// CRD special.
    #[allow(non_snake_case)]
    pub fn NO_DEFAULT_RESOURCE_DEF() -> (r: Flags<AllowCache>)
        ensures
            r.0 == 0x01000000,
    {
        Flags(0x01000000, AllowCache)
    }

    /// Inhibit the one-pixel cache; this is what lets a transform be shared
    /// between threads.
    #[allow(non_snake_case)]
    pub fn NO_CACHE() -> (r: Flags<DisallowCache>)
        ensures
            r.0 == 0x0040,
    {
        Flags(0x0040, DisallowCache)
    }
}

impl<T: CacheFlag> Flags<T> {
    /// The bit mask handed to the engine.
    pub fn bits(&self) -> (r: u32)
        ensures
            r == self.0,
    {
        self.0
    }

    /// The same bits, with the cache state reset to allowing the cache.
    pub fn allow_cache(&self) -> (r: Flags<AllowCache>)
        ensures
            r.0 == self.0,
    {
        Flags(self.0, AllowCache)
    }

    /// Whether any bit of `flag` is set here.
    pub fn has<F: CacheFlag>(&mut self, flag: Flags<F>) -> (r: bool)
        ensures
            r == (old(self).0 & flag.0 != 0),
            *final(self) == *old(self),
    {
        0 != (self.0 & flag.0)
    }
}

impl Default for Flags<AllowCache> {
    /// No bits set; the one-pixel cache stays on.
    fn default() -> (r: Flags<AllowCache>)
        ensures
            r.0 == 0,
    {
        Flags(0, AllowCache)
    }
}

impl<T: CacheFlag> core::ops::BitOr<Flags<T>> for Flags<DisallowCache> {
    type Output = Flags<DisallowCache>;

    /// Once the cache is off, it stays off.
    fn bitor(self, other: Flags<T>) -> Flags<DisallowCache> {
        Flags(self.0 | other.0, DisallowCache)
    }
}

impl<T: CacheFlag> vstd::std_specs::ops::BitOrSpecImpl<Flags<T>> for Flags<DisallowCache> {
    open spec fn obeys_bitor_spec() -> bool {
        true
    }

    open spec fn bitor_req(self, other: Flags<T>) -> bool {
        true
    }

    open spec fn bitor_spec(self, other: Flags<T>) -> Flags<DisallowCache> {
        Flags(self.0 | other.0, DisallowCache)
    }
}

impl<T: CacheFlag> core::ops::BitOr<Flags<T>> for Flags<AllowCache> {
    type Output = Flags<T>;

    /// The cache state of the result is that of the right-hand side.
    fn bitor(self, other: Flags<T>) -> Flags<T> {
        Flags(self.0 | other.0, other.1)
    }
}

impl<T: CacheFlag> vstd::std_specs::ops::BitOrSpecImpl<Flags<T>> for Flags<AllowCache> {
    open spec fn obeys_bitor_spec() -> bool {
        true
    }

    open spec fn bitor_req(self, other: Flags<T>) -> bool {
        true
    }

    open spec fn bitor_spec(self, other: Flags<T>) -> Flags<T> {
        Flags(self.0 | other.0, other.1)
    }
}

} // verus!
