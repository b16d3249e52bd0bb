use crate::error::{Error, LCMSResult};
use vstd::prelude::*;

verus! {

/// The signature '1CLR' of one-channel colour data.
pub const SIG_1COLOR_DATA: u32 = 0x31434C52;

/// Checks profile bytes before they are parsed: an empty buffer holds no
/// profile.
pub fn check_icc_data(len: usize) -> (r: LCMSResult<()>)
    ensures
        len == 0 ==> r == Err::<(), Error>(Error::MissingData),
        len > 0 ==> r is Ok,
{
    if len == 0 {
        Err(Error::MissingData)
    } else {
        Ok(())
    }
}

/// The size of the buffer to save a profile into, from the engine's answer
/// to the size query. A failed query, or a size of zero, means the profile
/// cannot be saved.
pub fn saved_size(query_ok: bool, len: u32) -> (r: LCMSResult<usize>)
    ensures
        (!query_ok || len == 0) ==> r == Err::<usize, Error>(Error::ObjectCreationError),
        (query_ok && len > 0) ==> r == Ok::<usize, Error>(len as usize),
{
    if !query_ok || len == 0 {
        Err(Error::ObjectCreationError)
    } else {
        Ok(len as usize)
    }
}

/// The saved profile, once the engine has filled `buf`; never a truncated
/// one: a failed fill is an error.
pub fn saved_profile(fill_ok: bool, buf: Vec<u8>) -> (r: LCMSResult<Vec<u8>>)
    ensures
        !fill_ok ==> r == Err::<Vec<u8>, Error>(Error::ObjectCreationError),
        fill_ok ==> r == Ok::<Vec<u8>, Error>(buf),
{
    if fill_ok {
        Ok(buf)
    } else {
        Err(Error::ObjectCreationError)
    }
}

/// The number of wide characters to fetch profile information into, from
/// the size in bytes the engine reported; `None` where it has none.
pub fn info_wchars(size: u32, wchar_bytes: usize) -> (r: Option<usize>)
    requires
        wchar_bytes > 0,
    ensures
        size == 0 ==> r is None,
        size > 0 ==> r == Some((size as int / wchar_bytes as int) as usize),
{
    if size == 0 {
        None
    } else {
        Some(size as usize / wchar_bytes)
    }
}

/// The colour space of a profile from the engine's report, where zero means
/// one-channel data.
pub fn color_space_or_default(reported: u32) -> (r: u32)
    ensures
        reported == 0 ==> r == SIG_1COLOR_DATA,
        reported != 0 ==> r == reported,
{
    if reported != 0 {
        reported
    } else {
        SIG_1COLOR_DATA
    }
}

} // verus!
