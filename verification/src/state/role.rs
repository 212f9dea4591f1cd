use vstd::prelude::*;
use crate::constants::ACCOUNT_DISCRIMINATOR_LEN;

verus! {

/// A named set of capability bits.
#[derive(Clone, Copy, Debug, PartialEq, Eq)]
pub struct Role {
    /// The numeric identifier under which the role is stored.
    pub role_id: u64,
    /// The label: its first 32 bytes, padded with zero bytes.
    pub name: [u8; 32],
    /// The capability bits that the role grants.
    pub scopes_bitmask: u64,
}

impl Role {
    /// Bytes that the stored record takes.
    pub const SPACE: usize = ACCOUNT_DISCRIMINATOR_LEN + 8 + 32 + 8;

    /// Whether the role grants every bit of `required_scopes_mask`.
    pub open spec fn grants(&self, required_scopes_mask: u64) -> bool {
        self.scopes_bitmask & required_scopes_mask == required_scopes_mask
    }
}

} // verus!
