//! What the entity store and the identity verifier hand to an operation.

use vstd::prelude::*;
use crate::pubkey::Pubkey;

verus! {

/// A caller whose identity was authenticated before the operation began.
#[derive(Clone, Copy, Debug, PartialEq, Eq)]
pub struct Signer {
    /// The authenticated identity.
    pub key: Pubkey,
}

impl Signer {
    /// The identity of the caller.
    pub fn key(&self) -> (key: Pubkey)
        ensures
            key == self.key,
    {
        self.key
    }
}

/// A record together with the address at which the store keeps it.
#[derive(Debug, PartialEq, Eq)]
pub struct Account<T> {
    /// Where the record is stored.
    pub key: Pubkey,
    /// The record.
    pub data: T,
}

impl<T: Copy> Clone for Account<T> {
    fn clone(&self) -> (copy: Self)
        ensures
            copy == *self,
    {
        *self
    }
}

impl<T: Copy> Copy for Account<T> {

}

impl<T> Account<T> {
    /// The address at which the record is stored.
    pub fn key(&self) -> (key: Pubkey)
        ensures
            key == self.key,
    {
        self.key
    }
}

} // verus!
