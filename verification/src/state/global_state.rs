use vstd::prelude::*;
use crate::constants::ACCOUNT_DISCRIMINATOR_LEN;
use crate::pubkey::Pubkey;

verus! {

/// The configuration of a deployment. There is one such record.
#[derive(Clone, Copy, Debug, PartialEq, Eq)]
pub struct GlobalState {
    /// The only principal that may perform administrative operations.
    pub authority: Pubkey,
    /// The bump seed of the address at which the record is stored.
    pub bump: u8,
}

impl GlobalState {
    /// Bytes that the stored record takes.
    pub const SPACE: usize = ACCOUNT_DISCRIMINATOR_LEN + 32 + 1;
}

} // verus!
