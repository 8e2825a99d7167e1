//! What a renderer decides about the surface that it draws to.

use vstd::prelude::*;

verus! {

/// Whether `index` is the format to take of those that a surface offers,
/// where `srgb` tells of each whether it is an sRGB format: the first sRGB
/// format, or the first format of all if none is.
pub open spec fn is_preferred_format(srgb: Seq<bool>, index: int) -> bool {
    &&& 0 <= index < srgb.len()
    &&& forall|j: int| 0 <= j < index ==> !srgb[j]
    &&& srgb[index] || (index == 0 && forall|j: int| 0 <= j < srgb.len() ==> !srgb[j])
}

/// Picks the format to take of those that a surface offers. A surface that
/// offers none is a caller error.
pub fn preferred_format(srgb: &[bool]) -> (index: usize)
    requires
        srgb@.len() > 0,
    ensures
        is_preferred_format(srgb@, index as int),
{
    let mut i: usize = 0;
    while i < srgb.len()
        invariant
            i <= srgb@.len(),
            forall|j: int| 0 <= j < i ==> !srgb@[j],
        decreases srgb@.len() - i,
    {
        if srgb[i] {
            return i;
        }
        i += 1;
    }
    0
}

/// Whether a surface can be given the size `width` by `height`: neither may
/// be zero.
pub fn accepts_size(width: u32, height: u32) -> (accepted: bool)
    ensures
        accepted == (width > 0 && height > 0),
{
    width > 0 && height > 0
}

} // verus!
