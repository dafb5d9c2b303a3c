//! The participants of a transfer.

use crate::address::{address_text, render_address};
use vstd::prelude::*;

verus! {

/// A participant of a transfer, known to the rules by its identifier alone.
#[derive(Debug, PartialEq, Eq)]
pub struct Party {
    identifier: String,
}

impl View for Party {
    type V = Seq<char>;

    /// The identifier, character by character.
    closed spec fn view(&self) -> Seq<char> {
        self.identifier@
    }
}

impl Clone for Party {
    fn clone(&self) -> (copy: Self)
        ensures
            copy@ == self@,
    {
        Party { identifier: self.identifier.clone() }
    }
}

impl Party {
    /// A party with the given identifier; any string is taken.
    pub fn new(identifier: String) -> (party: Party)
        ensures
            party@ == identifier@,
    {
        Party { identifier }
    }

    /// The party behind the account with the 32-byte address `key`: its identifier is the
    /// address in text form.
    pub fn from_address(key: &[u8; 32]) -> (party: Party)
        ensures
            party@ == address_text(key@),
    {
        Party { identifier: render_address(key) }
    }

    /// The identifier.
    pub fn identifier(&self) -> (identifier: &str)
        ensures
            identifier@ == self@,
    {
        self.identifier.as_str()
    }
}

} // verus!
