//! Caller principals.

use vstd::prelude::*;

verus! {

/// A caller principal: an address that the transport has verified. Two
/// identities are the same principal when their addresses are equal.
#[derive(Debug, PartialEq, Eq)]
pub struct Identity {
    pub address: String,
}

impl View for Identity {
    type V = Seq<char>;

    open spec fn view(&self) -> Seq<char> {
        self.address@
    }
}

impl Clone for Identity {
    fn clone(&self) -> (copy: Self)
        ensures
            copy == *self,
    {
        Identity { address: self.address.clone() }
    }
}

impl Identity {
    pub fn new(address: &str) -> (id: Identity)
        ensures
            id@ == address@,
    {
        Identity { address: address.to_owned() }
    }

    /// Whether `self` and `other` are the same principal.
    pub fn same_as(&self, other: &Identity) -> (same: bool)
        ensures
            same == (self@ == other@),
    {
        self.address == other.address
    }

    pub fn as_str(&self) -> (address: &str)
        ensures
            address@ == self@,
    {
        self.address.as_str()
    }
}

/// The principal that an optional identity stands for, if any.
pub open spec fn principal(slot: Option<Identity>) -> Option<Seq<char>> {
    match slot {
        Some(id) => Some(id@),
        None => None,
    }
}

} // verus!
