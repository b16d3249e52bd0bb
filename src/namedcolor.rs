use crate::text::{is_prefix_before_zero, text_from_c_buffer, utf8_lossy};
use vstd::prelude::*;

verus! {

/// One colour of a named-colour palette.
#[derive(Clone, Debug, PartialEq, Eq)]
pub struct NamedColorInfo {
    pub name: String,
    pub prefix: String,
    pub suffix: String,
    pub pcs: [u16; 3],
    pub colorant: [u16; 16],
}

/// The text a C string buffer holds: its bytes before the first zero,
/// decoded with invalid sequences replaced.
pub open spec fn c_text(buf: Seq<u8>, t: Seq<char>) -> bool {
    exists|p: Seq<u8>| is_prefix_before_zero(p, buf, 0u8) && t == utf8_lossy(p)
}

impl NamedColorInfo {
    /// The colour the engine filled into these buffers, or `None` where it
    /// reported that there is no such colour.
    pub fn from_buffers(
        found: bool,
        name: &[u8],
        prefix: &[u8],
        suffix: &[u8],
        pcs: [u16; 3],
        colorant: [u16; 16],
    ) -> (r: Option<NamedColorInfo>)
        ensures
            !found ==> r is None,
            found ==> (r matches Some(c) && c_text(name@, c.name@) && c_text(prefix@, c.prefix@) && c_text(
                suffix@,
                c.suffix@,
            ) && c.pcs == pcs && c.colorant == colorant),
    {
        if !found {
            return None;
        }
        Some(
            NamedColorInfo {
                name: text_from_c_buffer(name),
                prefix: text_from_c_buffer(prefix),
                suffix: text_from_c_buffer(suffix),
                pcs,
                colorant,
            },
        )
    }
}

} // verus!
