//! Building argument lists token by token.

use crate::text::tokens;
use vstd::prelude::*;
use vstd::string::*;

verus! {

/// Gives `Vec<String>` builder semantics: each call appends one token and
/// hands the list back, so that calls can be chained.
pub trait PushStr {
    /// Appends one token and hands the list back for the next one.
    fn push_str(&mut self, s: &str) -> &mut Self;
}

impl PushStr for Vec<String> {
    fn push_str(&mut self, s: &str) -> (r: &mut Self)
        ensures
            tokens(r@) == tokens(old(self)@).push(s@),
            *final(self) == *final(r),
    {
        self.push(s.to_owned());
        proof {
            assert(tokens(self@) =~= tokens(old(self)@).push(s@));
        }
        self
    }
}

} // verus!
