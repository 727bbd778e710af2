//! Which packages a run takes in.

use vstd::prelude::*;

verus! {

/// Whether a package is taken in. `wanted` tells of each pattern that asks
/// for packages whether it matches the package's name, `unwanted` tells the
/// same of each pattern that refuses packages. A match in `unwanted` leaves
/// the package out; else it is taken in where `wanted` is empty, or holds a
/// match.
pub open spec fn included(wanted: Seq<bool>, unwanted: Seq<bool>) -> bool {
    !unwanted.contains(true) && (wanted.len() == 0 || wanted.contains(true))
}

/// Tells whether `flags` holds a `true`.
pub fn any(flags: &Vec<bool>) -> (r: bool)
    ensures
        r == flags@.contains(true),
{
    let mut i: usize = 0;
    while i < flags.len()
        invariant
            i <= flags.len(),
            forall|j: int| 0 <= j < i ==> !flags@[j],
        decreases flags.len() - i,
    {
        if flags[i] {
            return true;
        }
        i = i + 1;
    }
    false
}

/// Decides whether to take a package in, from what the patterns made of its
/// name: `wanted` holds one flag for each pattern that asks for packages,
/// `unwanted` one for each pattern that refuses them. Refusing overrides
/// asking.
pub fn should_include(wanted: &Vec<bool>, unwanted: &Vec<bool>) -> (r: bool)
    ensures
        r == included(wanted@, unwanted@),
{
    if any(unwanted) {
        false
    } else if wanted.is_empty() {
        true
    } else {
        any(wanted)
    }
}

} // verus!
