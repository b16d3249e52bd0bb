use crate::error::{Error, LCMSResult};
use vstd::prelude::*;

verus! {

/// The fewest parameters a parametric curve of family `curve_type` takes.
/// A negative type stands for the inverse of the positive family; unknown
/// families, such as those of plug-ins, take ten.
pub open spec fn parametric_min_params(curve_type: int) -> nat {
    let a = if curve_type < 0 {
        -curve_type
    } else {
        curve_type
    };
    if a == 1 {
        1
    } else if a == 2 {
        3
    } else if a == 3 {
        4
    } else if a == 4 {
        5
    } else if a == 5 {
        7
    } else if a == 6 {
        4
    } else if a == 7 {
        5
    } else if a == 8 {
        6
    } else if a == 108 {
        1
    } else {
        10
    }
}

/// The fewest parameters a parametric curve of family `curve_type` takes.
pub fn min_parameters(curve_type: i16) -> (r: usize)
    ensures
        r == parametric_min_params(curve_type as int),
{
    let a: i32 = if curve_type < 0 {
        -(curve_type as i32)
    } else {
        curve_type as i32
    };
    if a == 1 {
        1
    } else if a == 2 {
        3
    } else if a == 3 {
        4
    } else if a == 4 {
        5
    } else if a == 5 {
        7
    } else if a == 6 {
        4
    } else if a == 7 {
        5
    } else if a == 8 {
        6
    } else if a == 108 {
        1
    } else {
        10
    }
}

/// Checks, before any allocation, that `param_count` parameters are enough
/// for a parametric curve of family `curve_type`.
pub fn check_parametric(curve_type: i16, param_count: usize) -> (r: LCMSResult<()>)
    ensures
        param_count < parametric_min_params(curve_type as int) ==> r == Err::<(), Error>(Error::MissingData),
        param_count >= parametric_min_params(curve_type as int) ==> r is Ok,
{
    if param_count < min_parameters(curve_type) {
        Err(Error::MissingData)
    } else {
        Ok(())
    }
}

/// The entry count handed to the engine for a table of `len` samples, or
/// `None` where the engine cannot take that many.
pub fn tabulated_len(len: usize) -> (r: Option<u32>)
    ensures
        len < 0x7fff_ffff ==> r == Some(len as u32),
        len >= 0x7fff_ffff ==> r is None,
{
    if len < 0x7fff_ffff {
        Some(len as u32)
    } else {
        None
    }
}

} // verus!
