//! The address of an upstream service together with the identity that the
//! service is expected to have.

use vstd::prelude::*;
use crate::bytes::same_bytes;

verus! {

/// A uri and the public key of the service behind it.
#[derive(Debug, Clone, PartialEq, Eq)]
pub struct KeyedUri {
    pub uri: String,
    pub pubkey: Vec<u8>,
}

/// Mathematical value of a [`KeyedUri`].
pub struct KeyedUriView {
    pub uri: Seq<char>,
    pub pubkey: Seq<u8>,
}

impl View for KeyedUri {
    type V = KeyedUriView;

    open spec fn view(&self) -> KeyedUriView {
        KeyedUriView { uri: self.uri@, pubkey: self.pubkey@ }
    }
}

impl KeyedUri {
    /// Whether `self` and `other` name the same service: the same uri and
    /// the same public key.
    pub fn same_as(&self, other: &KeyedUri) -> (same: bool)
        ensures
            same == (self@ == other@),
    {
        self.uri == other.uri && same_bytes(&self.pubkey, &other.pubkey)
    }
}

} // verus!
