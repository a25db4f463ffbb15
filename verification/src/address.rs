//! Account addresses, held by their canonical encoding.

use crate::storage::KEY_SEGMENT_SEPARATOR;
use vstd::prelude::*;

verus! {

/// An account, identified by its canonical encoding.
///
/// Two addresses are the same account exactly when their encodings are the
/// same text, so the encoding is the whole of the mathematical model.
#[derive(Debug, PartialEq, Eq, Hash)]
pub struct Address {
    encoded: String,
}

impl View for Address {
    type V = Seq<char>;

    closed spec fn view(&self) -> Seq<char> {
        self.encoded@
    }
}

impl Address {
    /// Whether `s` can be the encoding of an address: it is not empty and
    /// holds no key segment separator.
    pub open spec fn valid_encoding(s: Seq<char>) -> bool {
        &&& s.len() > 0
        &&& forall|i: int| 0 <= i < s.len() ==> s[i] != KEY_SEGMENT_SEPARATOR
    }

    #[verifier::type_invariant]
    spec fn well_formed(self) -> bool {
        Self::valid_encoding(self.encoded@)
    }

    /// Reads an address from its encoding. Fails exactly on text that is no
    /// valid encoding.
    pub fn decode(encoded: &str) -> (address: Option<Address>)
        ensures
            address is Some <==> Self::valid_encoding(encoded@),
            address matches Some(a) ==> a@ == encoded@,
    {
        let mut empty = true;
        for c in it: encoded.chars()
            invariant
                it.seq() == encoded@,
                empty <==> it.index() == 0,
                forall|i: int| 0 <= i < it.index() ==> encoded@[i] != KEY_SEGMENT_SEPARATOR,
        {
            if c == KEY_SEGMENT_SEPARATOR {
                return None;
            }
            empty = false;
        }
        if empty {
            return None;
        }
        Some(Address { encoded: String::from_str(encoded) })
    }

    /// The canonical encoding of the address.
    pub fn encode(&self) -> (encoded: String)
        ensures
            encoded@ == self@,
            Self::valid_encoding(encoded@),
    {
        proof {
            use_type_invariant(self);
        }
        self.encoded.clone()
    }
}

impl Clone for Address {
    fn clone(&self) -> (copy: Self)
        ensures
            copy@ == self@,
    {
        proof {
            use_type_invariant(self);
        }
        Address { encoded: self.encoded.clone() }
    }
}

} // verus!
