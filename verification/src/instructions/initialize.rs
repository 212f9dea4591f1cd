//! Initialization: the configuration record is written once.

use vstd::prelude::*;
use crate::accounts::{Account, Signer};
use crate::errors::GatekeeperError;
use crate::pubkey::Pubkey;
use crate::state::GlobalState;

verus! {

/// The bump seeds that the store found for the records it created.
#[derive(Clone, Copy, Debug, PartialEq, Eq)]
pub struct InitializeBumps {
    /// The bump seed of the address of the configuration record.
    pub global_state: u8,
}

/// The records that initialization touches. Only `global_state` is written.
#[derive(Clone, Copy, Debug, PartialEq, Eq)]
pub struct Initialize {
    /// The caller.
    pub authority: Signer,
    /// The place of the configuration record, which the store has just
    /// created.
    pub global_state: Account<GlobalState>,
    /// The bump seeds that the store found.
    pub bumps: InitializeBumps,
}

impl Initialize {
    /// The records after `authority` was recorded.
    pub open spec fn initialized(&self, authority: Pubkey) -> Initialize {
        Initialize {
            global_state: Account {
                key: self.global_state.key,
                data: GlobalState { authority, bump: self.bumps.global_state },
            },
            ..*self
        }
    }
}

/// Records `authority` as the principal of all administrative operations.
/// Only that principal itself may ask for it.
pub fn handler(ctx: &mut Initialize, authority: Pubkey) -> (r: Result<(), GatekeeperError>)
    ensures
        r == if old(ctx).authority.key == authority {
            Ok::<(), GatekeeperError>(())
        } else {
            Err::<(), GatekeeperError>(GatekeeperError::Unauthorized)
        },
        *final(ctx) == if r is Ok {
            old(ctx).initialized(authority)
        } else {
            *old(ctx)
        },
{
    if ctx.authority.key() != authority {
        return Err(GatekeeperError::Unauthorized);
    }
    ctx.global_state.data.authority = authority;
    ctx.global_state.data.bump = ctx.bumps.global_state;
    Ok(())
}

} // verus!
