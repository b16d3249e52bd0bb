use crate::error::{Error, LCMSResult};
use vstd::prelude::*;
use vstd::string::StringSliceAdditionalSpecFns;
use vstd::utf8::{decode_utf8, valid_utf8};

verus! {

/// What `String::from_utf16_lossy` makes of a sequence of UTF-16 units.
pub uninterp spec fn utf16_lossy(units: Seq<u16>) -> Seq<char>;

/// What `String::from_utf8_lossy` makes of a sequence of bytes.
pub uninterp spec fn utf8_lossy(bytes: Seq<u8>) -> Seq<char>;

/// Whether `c` is a Unicode scalar value.
pub open spec fn is_scalar(c: u32) -> bool {
    c < 0xD800 || (0xE000 <= c && c <= 0x10FFFF)
}

/// `r` is the part of `s` before its first zero, or all of `s` if it has none.
pub open spec fn is_prefix_before_zero<T>(r: Seq<T>, s: Seq<T>, zero: T) -> bool {
    &&& r.len() <= s.len()
    &&& r == s.subrange(0, r.len() as int)
    &&& forall|i: int| 0 <= i < r.len() ==> r[i] != zero
    &&& r.len() == s.len() || s[r.len() as int] == zero
}

/// Relies on `String::from_iter` over characters: the string holds them in order.
#[verifier::external_body]
pub(crate) fn string_from_chars(v: &[char]) -> (r: String)
    ensures
        r@ == v@,
{
    String::from_iter(v.iter())
}

/// Relies on `String::from_utf8`: it fails exactly on bytes that are not
/// UTF-8, and otherwise holds the characters they encode.
#[verifier::external_body]
fn string_from_utf8(v: Vec<u8>) -> (r: Option<String>)
    ensures
        r is Some <==> valid_utf8(v@),
        r matches Some(s) ==> s@ == decode_utf8(v@),
{
    String::from_utf8(v).ok()
}

/// Relies on `String::from_utf16_lossy`: unpaired surrogates become U+FFFD;
/// the result depends on the units alone.
#[verifier::external_body]
fn string_from_utf16_lossy(v: &[u16]) -> (r: String)
    ensures
        r@ == utf16_lossy(v@),
        v@.len() == 0 ==> r@.len() == 0,
{
    String::from_utf16_lossy(v)
}

/// Relies on `String::from_utf8_lossy`: invalid sequences become U+FFFD, and
/// valid UTF-8 is decoded unchanged.
#[verifier::external_body]
fn string_from_utf8_lossy(v: &[u8]) -> (r: String)
    ensures
        r@ == utf8_lossy(v@),
        valid_utf8(v@) ==> r@ == decode_utf8(v@),
{
    String::from_utf8_lossy(v).into_owned()
}

/// Relies on `char::from_u32`: `Some` exactly for Unicode scalar values.
#[verifier::external_body]
fn char_from_u32(c: u32) -> (r: Option<char>)
    ensures
        r is Some <==> is_scalar(c),
        r matches Some(ch) ==> ch as u32 == c,
{
    char::from_u32(c)
}

/// The characters of `text` as wide characters, followed by a terminating zero.
pub fn wide_with_nul(text: &str) -> (r: Vec<u32>)
    ensures
        r@.len() == text@.len() + 1,
        forall|i: int| 0 <= i < text@.len() ==> r@[i] == text@[i] as u32,
        r@[text@.len() as int] == 0,
{
    let mut out: Vec<u32> = Vec::new();
    for c in it: text.chars()
        invariant
            it.seq() == text@,
            out@.len() == it.index(),
            forall|j: int| 0 <= j < it.index() ==> out@[j] == text@[j] as u32,
    {
        out.push(c as u32);
    }
    out.push(0);
    out
}

/// The bytes of `text` followed by a terminating zero, or `None` where the
/// text holds a zero byte itself and so cannot be passed as a C string.
pub fn bytes_with_nul(text: &str) -> (r: Option<Vec<u8>>)
    ensures
        r is None <==> exists|i: int| 0 <= i < text.spec_bytes().len() && text.spec_bytes()[i] == 0,
        r matches Some(v) ==> v@ == text.spec_bytes().push(0),
{
    let bytes = text.as_bytes();
    let mut out: Vec<u8> = Vec::new();
    let mut i: usize = 0;
    while i < bytes.len()
        invariant
            bytes@ == text.spec_bytes(),
            i <= bytes@.len(),
            out@ == bytes@.subrange(0, i as int),
            forall|j: int| 0 <= j < i ==> bytes@[j] != 0,
        decreases bytes@.len() - i,
    {
        if bytes[i] == 0 {
            return None;
        }
        out.push(bytes[i]);
        i = i + 1;
    }
    assert(out@ == bytes@);
    out.push(0);
    Some(out)
}

/// The part of a C string buffer before its first zero byte.
pub fn until_nul(buf: &[u8]) -> (r: Vec<u8>)
    ensures
        is_prefix_before_zero(r@, buf@, 0u8),
{
    let mut out: Vec<u8> = Vec::new();
    let mut i: usize = 0;
    while i < buf.len() && buf[i] != 0
        invariant
            i <= buf@.len(),
            out@ == buf@.subrange(0, i as int),
            forall|j: int| 0 <= j < i ==> buf@[j] != 0,
        decreases buf@.len() - i,
    {
        out.push(buf[i]);
        i = i + 1;
    }
    out
}

/// The number of wide characters in a buffer of `len_bytes` bytes, for wide
/// characters of `wchar_bytes` bytes. An empty or odd-sized buffer means that
/// no text is there.
pub fn wide_len(len_bytes: u32, wchar_bytes: usize) -> (r: LCMSResult<usize>)
    requires
        wchar_bytes > 0,
    ensures
        (len_bytes as int / wchar_bytes as int == 0 || len_bytes % 2 == 1) ==> r == Err::<usize, Error>(
            Error::MissingData,
        ),
        !(len_bytes as int / wchar_bytes as int == 0 || len_bytes % 2 == 1) ==> r == Ok::<usize, Error>(
            (len_bytes as int / wchar_bytes as int) as usize,
        ),
{
    let n = len_bytes as usize / wchar_bytes;
    if n == 0 || len_bytes % 2 == 1 {
        Err(Error::MissingData)
    } else {
        Ok(n)
    }
}

/// The UTF-16 units carried by wide characters: the low 16 bits of each.
pub open spec fn low_units(s: Seq<u32>) -> Seq<u16> {
    Seq::new(s.len(), |i: int| s[i] as u16)
}

/// Text from a buffer of wide characters that the engine filled, terminating
/// zero included. A buffer that does not end in zero is an invalid string;
/// otherwise the units before the zero are decoded as UTF-16, with unpaired
/// surrogates replaced.
pub fn text_from_wide(buf: Vec<u32>) -> (r: LCMSResult<String>)
    ensures
        (buf@.len() == 0 || buf@.last() != 0) ==> r == Err::<String, Error>(Error::InvalidString),
        (buf@.len() > 0 && buf@.last() == 0) ==> (r matches Ok(s) && s@ == utf16_lossy(
            low_units(buf@.drop_last()),
        )),
{
    let mut buf = buf;
    match buf.pop() {
        Some(0) => {},
        _ => {
            return Err(Error::InvalidString);
        },
    }
    let mut units: Vec<u16> = Vec::new();
    let mut i: usize = 0;
    while i < buf.len()
        invariant
            i <= buf@.len(),
            units@ == low_units(buf@).subrange(0, i as int),
        decreases buf@.len() - i,
    {
        units.push(buf[i] as u16);
        i = i + 1;
    }
    assert(units@ == low_units(buf@));
    Ok(string_from_utf16_lossy(units.as_slice()))
}

/// Text from a buffer of ASCII bytes that the engine filled, terminating zero
/// included. A buffer that does not end in zero, or whose other bytes are not
/// UTF-8, is an invalid string.
pub fn text_from_bytes(buf: Vec<u8>) -> (r: LCMSResult<String>)
    ensures
        (buf@.len() == 0 || buf@.last() != 0 || !valid_utf8(buf@.drop_last())) ==> r == Err::<String, Error>(
            Error::InvalidString,
        ),
        (buf@.len() > 0 && buf@.last() == 0 && valid_utf8(buf@.drop_last())) ==> (r matches Ok(s)
            && s@ == decode_utf8(buf@.drop_last())),
{
    let mut buf = buf;
    match buf.pop() {
        Some(0) => {},
        _ => {
            return Err(Error::InvalidString);
        },
    }
    match string_from_utf8(buf) {
        Some(s) => Ok(s),
        None => Err(Error::InvalidString),
    }
}

/// Text from a C string buffer: the bytes before the first zero, decoded as
/// UTF-8 with invalid sequences replaced.
pub fn text_from_c_buffer(buf: &[u8]) -> (r: String)
    ensures
        exists|p: Seq<u8>| is_prefix_before_zero(p, buf@, 0u8) && r@ == utf8_lossy(p),
{
    let p = until_nul(buf);
    string_from_utf8_lossy(p.as_slice())
}

/// `n` is the length of the part of `s` before its first value that is not
/// positive, or of all of `s` if every value is positive.
pub open spec fn positive_prefix_len(s: Seq<i32>, n: int) -> bool {
    &&& 0 <= n <= s.len()
    &&& forall|i: int| 0 <= i < n ==> s[i] > 0
    &&& n == s.len() || s[n] <= 0
}

/// Text from a wide-character buffer that ends at its first character that
/// is not positive. `None` where a character before that end is no Unicode
/// scalar value.
pub fn text_from_wide_chars(data: &[i32]) -> (r: Option<String>)
    ensures
        forall|n: int| #[trigger] positive_prefix_len(data@, n) ==> {
            &&& r is Some <==> (forall|i: int| 0 <= i < n ==> is_scalar(data@[i] as u32))
            &&& r matches Some(s) ==> s@.len() == n && forall|i: int| 0 <= i < n ==> s@[i] as u32 == data@[i] as u32
        },
{
    let mut chars: Vec<char> = Vec::new();
    let mut i: usize = 0;
    while i < data.len() && data[i] > 0
        invariant
            i <= data@.len(),
            chars@.len() == i,
            forall|j: int| 0 <= j < i ==> data@[j] > 0,
            forall|j: int| 0 <= j < i ==> is_scalar(data@[j] as u32),
            forall|j: int| 0 <= j < i ==> chars@[j] as u32 == data@[j] as u32,
        decreases data@.len() - i,
    {
        match char_from_u32(data[i] as u32) {
            Some(c) => chars.push(c),
            None => {
                assert(positive_prefix_len(data@, i as int) ==> false) by {
                    if positive_prefix_len(data@, i as int) {
                        assert(data@[i as int] > 0);
                    }
                }
                assert forall|n: int| #[trigger] positive_prefix_len(data@, n) implies n > i by {
                    if n <= i {
                        if n < i {
                            assert(data@[n] > 0);
                        }
                    }
                }
                return None;
            },
        }
        i = i + 1;
    }
    assert forall|n: int| #[trigger] positive_prefix_len(data@, n) implies n == i by {
        if n < i {
            assert(data@[n] > 0);
        } else if n > i {
            assert(data@[i as int] > 0);
        }
    }
    Some(string_from_chars(chars.as_slice()))
}

} // verus!
