use crate::text::string_from_chars;
use vstd::prelude::*;
use vstd::string::StringSliceAdditionalSpecFns;

verus! {

/// The byte at `i` of `s`, or zero past its end.
pub open spec fn byte_or_zero(s: Seq<u8>, i: int) -> u8 {
    if 0 <= i < s.len() {
        s[i]
    } else {
        0
    }
}

/// The bytes of `s` before its first zero.
pub open spec fn code_len(s: Seq<u8>) -> int {
    if s.len() > 0 && s[0] != 0 {
        if s.len() > 1 && s[1] != 0 {
            if s.len() > 2 && s[2] != 0 {
                3
            } else {
                2
            }
        } else {
            1
        }
    } else {
        0
    }
}

/// Language code from ISO-639/2 and region code from ISO-3166, each held as
/// a C string of at most two characters.
#[derive(Copy, Clone, Debug, PartialEq, Eq, PartialOrd, Ord, Hash)]
pub struct Locale {
    language: [u8; 3],
    country: [u8; 3],
}

impl Locale {
    pub closed spec fn spec_language(self) -> Seq<u8> {
        self.language@
    }

    pub closed spec fn spec_country(self) -> Seq<u8> {
        self.country@
    }

    /// From a name of the form "en_US": the first two bytes give the
    /// language, the two after the separator the country. Missing bytes
    /// are zero.
    pub fn new(locale_name: &str) -> (r: Locale)
        ensures
            r.spec_language() == seq![
                byte_or_zero(locale_name.spec_bytes(), 0),
                byte_or_zero(locale_name.spec_bytes(), 1),
                0u8,
            ],
            r.spec_country() == seq![
                byte_or_zero(locale_name.spec_bytes(), 3),
                byte_or_zero(locale_name.spec_bytes(), 4),
                0u8,
            ],
    {
        let b = locale_name.as_bytes();
        let n = b.len();
        let l0 = if n > 0 {
            b[0]
        } else {
            0
        };
        let l1 = if n > 1 {
            b[1]
        } else {
            0
        };
        let c0 = if n > 3 {
            b[3]
        } else {
            0
        };
        let c1 = if n > 4 {
            b[4]
        } else {
            0
        };
        let r = Locale { language: [l0, l1, 0], country: [c0, c1, 0] };
        assert(r.language@ =~= seq![l0, l1, 0u8]);
        assert(r.country@ =~= seq![c0, c1, 0u8]);
        r
    }

    /// The default, unspecified locale: both codes empty.
    pub fn none() -> (r: Locale)
        ensures
            r.spec_language() == seq![0u8, 0u8, 0u8],
            r.spec_country() == seq![0u8, 0u8, 0u8],
    {
        let r = Locale { language: [0, 0, 0], country: [0, 0, 0] };
        assert(r.language@ =~= seq![0u8, 0u8, 0u8]);
        assert(r.country@ =~= seq![0u8, 0u8, 0u8]);
        r
    }

    /// A locale from the two C strings the engine fills in.
    pub fn from_c_codes(language: [u8; 3], country: [u8; 3]) -> (r: Locale)
        ensures
            r.spec_language() == language@,
            r.spec_country() == country@,
    {
        Locale { language, country }
    }

    /// The language code as a C string.
    pub fn language(&self) -> (r: [u8; 3])
        ensures
            r@ == self.spec_language(),
    {
        self.language
    }

    /// The country code as a C string.
    pub fn country(&self) -> (r: [u8; 3])
        ensures
            r@ == self.spec_country(),
    {
        self.country
    }

    /// The language code, an underscore, and the country code, each up to
    /// its first zero byte.
    pub fn to_string(&self) -> (r: String)
        ensures
            r@.len() == code_len(self.spec_language()) + 1 + code_len(self.spec_country()),
            forall|i: int| 0 <= i < code_len(self.spec_language()) ==> r@[i] as u32 == self.spec_language()[i] as u32,
            r@[code_len(self.spec_language())] == '_',
            forall|i: int|
                0 <= i < code_len(self.spec_country()) ==> r@[code_len(self.spec_language()) + 1 + i] as u32
                    == self.spec_country()[i] as u32,
    {
        let mut chars: Vec<char> = Vec::new();
        let mut i: usize = 0;
        while i < 3 && self.language[i] != 0
            invariant
                i <= 3,
                chars@.len() == i,
                forall|j: int| 0 <= j < i ==> self.language@[j] != 0,
                forall|j: int| 0 <= j < i ==> chars@[j] as u32 == self.language@[j] as u32,
            decreases 3 - i,
        {
            chars.push(self.language[i] as char);
            i = i + 1;
        }
        assert(i == code_len(self.spec_language()));
        let ghost lang_len = i as int;
        chars.push('_');
        let mut k: usize = 0;
        while k < 3 && self.country[k] != 0
            invariant
                k <= 3,
                lang_len == code_len(self.spec_language()),
                chars@.len() == lang_len + 1 + k,
                chars@[lang_len] == '_',
                forall|j: int| 0 <= j < lang_len ==> chars@[j] as u32 == self.language@[j] as u32,
                forall|j: int| 0 <= j < k ==> self.country@[j] != 0,
                forall|j: int| 0 <= j < k ==> chars@[lang_len + 1 + j] as u32 == self.country@[j] as u32,
            decreases 3 - k,
        {
            chars.push(self.country[k] as char);
            k = k + 1;
        }
        assert(k == code_len(self.spec_country()));
        string_from_chars(chars.as_slice())
    }
}

impl Default for Locale {
    /// The unspecified locale.
    fn default() -> (r: Locale)
        ensures
            r.spec_language() == seq![0u8, 0u8, 0u8],
            r.spec_country() == seq![0u8, 0u8, 0u8],
    {
        Locale::none()
    }
}

} // verus!
