//! Transaction identifiers in their conventional rendering.

use crate::hex::lower_hex;
use vstd::prelude::*;
use vstd::string::*;

verus! {

/// The characters `0`..`9` and `a`..`f`.
pub open spec fn is_lower_hex_char(c: char) -> bool {
    ('0' <= c && c <= '9') || ('a' <= c && c <= 'f')
}

/// A transaction identifier is a 32-byte hash written as 64 lowercase
/// hexadecimal characters.
pub open spec fn is_txid_hex(s: Seq<char>) -> bool {
    &&& s.len() == 64
    &&& forall|i: int| 0 <= i < s.len() ==> is_lower_hex_char(#[trigger] s[i])
}

/// The identifier of one transaction. Its view is the hexadecimal text.
#[derive(Debug, PartialEq, Eq, Hash)]
pub struct Txid {
    hex: String,
}

impl View for Txid {
    type V = Seq<char>;

    closed spec fn view(&self) -> Seq<char> {
        self.hex@
    }
}

impl Txid {
    #[verifier::type_invariant]
    spec fn well_formed(&self) -> bool {
        is_txid_hex(self.hex@)
    }

    /// Accepts exactly the texts that are identifiers.
    pub fn from_hex(s: &str) -> (r: Option<Txid>)
        ensures
            r is Some <==> is_txid_hex(s@),
            r is Some ==> r.unwrap()@ == s@,
    {
        broadcast use is_ascii_spec_bytes;

        if !s.is_ascii() {
            return None;
        }
        let bytes = s.as_bytes();
        if bytes.len() != 64 {
            return None;
        }
        let mut i: usize = 0;
        while i < 64
            invariant
                i <= 64,
                bytes@.len() == 64,
                s@.len() == 64,
                is_ascii(s),
                forall|j: int| 0 <= j < 64 ==> s@[j] as u8 == #[trigger] bytes@[j],
                forall|j: int| 0 <= j < i ==> is_lower_hex_char(#[trigger] s@[j]),
            decreases 64 - i,
        {
            let b: u8 = bytes[i];
            let digit = 0x30 <= b && b <= 0x39;
            let letter = 0x61 <= b && b <= 0x66;
            if !(digit || letter) {
                return None;
            }
            i += 1;
        }
        Some(Txid { hex: s.to_owned() })
    }

    /// Wraps a text already known to be an identifier.
    pub(crate) fn new(hex: String) -> (r: Txid)
        requires
            is_txid_hex(hex@),
        ensures
            r@ == hex@,
    {
        Txid { hex }
    }

    /// The hexadecimal text of the identifier.
    pub fn as_str(&self) -> (s: &str)
        ensures
            s@ == self@,
            is_txid_hex(s@),
    {
        proof {
            use_type_invariant(self);
        }
        self.hex.as_str()
    }
}

impl Clone for Txid {
    fn clone(&self) -> (r: Self)
        ensures
            r == *self,
    {
        proof {
            use_type_invariant(self);
        }
        Txid { hex: self.hex.clone() }
    }
}

/// The texts of some identifiers.
pub open spec fn ids_text(ids: Seq<Txid>) -> Seq<Seq<char>> {
    ids.map_values(|id: Txid| id@)
}

/// The lowercase rendering of any 32 bytes is an identifier.
pub proof fn lemma_hash_text_is_txid(hash: Seq<u8>)
    requires
        hash.len() == 32,
    ensures
        is_txid_hex(lower_hex(hash)),
{
    let text = lower_hex(hash);
    assert forall|i: int| 0 <= i < text.len() implies is_lower_hex_char(#[trigger] text[i]) by {
        let b = hash[i / 2] as int;
    }
}

} // verus!
