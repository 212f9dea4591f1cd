//! Revoking a key.

use vstd::prelude::*;
use crate::accounts::{Account, Signer};
use crate::constants::KEY_STATUS_REVOKED;
use crate::errors::GatekeeperError;
use crate::helpers::{assert_authority, authority_verdict};
use crate::pubkey::Pubkey;
use crate::state::{ApiKey, GlobalState};

verus! {

/// The records that revoking a key touches. Only `api_key` is written.
#[derive(Clone, Copy, Debug, PartialEq, Eq)]
pub struct RevokeKey {
    /// The caller.
    pub authority: Signer,
    /// The configuration of the deployment.
    pub global_state: Account<GlobalState>,
    /// The key, as the store found it under the owner that the caller gave.
    pub api_key: Account<ApiKey>,
}

impl RevokeKey {
    /// The records after the key was revoked.
    pub open spec fn revoked(&self) -> RevokeKey {
        RevokeKey {
            api_key: Account {
                key: self.api_key.key,
                data: ApiKey { status: KEY_STATUS_REVOKED, ..self.api_key.data },
            },
            ..*self
        }
    }
}

/// Marks the key as revoked and leaves its other fields as they are. A key
/// that was revoked before stays revoked. The store has looked the key up by
/// `_owner`; the owner is not read again.
pub fn handler(ctx: &mut RevokeKey, _owner: Pubkey) -> (r: Result<(), GatekeeperError>)
    ensures
        r == authority_verdict(old(ctx).global_state, old(ctx).authority),
        *final(ctx) == if r is Ok {
            old(ctx).revoked()
        } else {
            *old(ctx)
        },
        r is Ok ==> final(ctx).api_key.data.is_revoked() && final(ctx).api_key.data.wf(),
        old(ctx).api_key.data.is_revoked() ==> final(ctx).api_key.data.is_revoked(),
{
    assert_authority(&ctx.global_state, &ctx.authority)?;
    ctx.api_key.data.status = KEY_STATUS_REVOKED;
    Ok(())
}

} // verus!
