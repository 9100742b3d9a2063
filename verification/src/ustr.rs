//! Short bounded names used as texture keys and animation names.

use vstd::prelude::*;

verus! {

/// Upper bound on the length of a short name.
pub const USTR_CAP: usize = 32;

/// A short interned name: texture keys and animation names. Mirrors a
/// stack-allocated bounded string; here the bound is a type invariant.
#[derive(Debug)]
pub struct Ustr {
    chars: String,
}

impl View for Ustr {
    type V = Seq<char>;

    closed spec fn view(&self) -> Seq<char> {
        self.chars@
    }
}

impl Ustr {
    #[verifier::type_invariant]
    spec fn len_bounded(self) -> bool {
        self.chars@.len() <= USTR_CAP
    }

    /// Borrow the name's characters.
    pub fn as_string(&self) -> (r: &String)
        ensures
            r@ == self@,
    {
        &self.chars
    }
}

impl Clone for Ustr {
    fn clone(&self) -> (r: Self)
        ensures
            r@ == self@,
    {
        proof {
            use_type_invariant(self);
        }
        Ustr { chars: self.chars.clone() }
    }
}

/// Make a short name from a string slice. Longer inputs do not fit a bounded
/// name, so they are excluded up front.
pub fn ustr(s: &str) -> (u: Ustr)
    requires
        s@.len() <= USTR_CAP,
    ensures
        u@ == s@,
{
    Ustr { chars: s.to_owned() }
}

} // verus!
