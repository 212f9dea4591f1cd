//! Checks and conversions that several operations share.

use vstd::prelude::*;
use vstd::utf8::encode_utf8;
use crate::accounts::{Account, Signer};
use crate::constants::ROLE_NAME_LEN;
use crate::errors::GatekeeperError;
use crate::state::GlobalState;

verus! {

/// Whether `authority` is the principal that `global_state` records.
pub open spec fn is_authority(global_state: Account<GlobalState>, authority: Signer) -> bool {
    global_state.data.authority == authority.key
}

/// What an administrative operation answers to `authority`: the recorded
/// authority is admitted, anybody else is `Unauthorized`.
pub open spec fn authority_verdict(global_state: Account<GlobalState>, authority: Signer) -> Result<
    (),
    GatekeeperError,
> {
    if is_authority(global_state, authority) {
        Ok(())
    } else {
        Err(GatekeeperError::Unauthorized)
    }
}

/// Admits the recorded authority and nobody else.
pub fn assert_authority(global_state: &Account<GlobalState>, authority: &Signer) -> (r: Result<
    (),
    GatekeeperError,
>)
    ensures
        r == authority_verdict(*global_state, *authority),
{
    if global_state.data.authority != authority.key() {
        return Err(GatekeeperError::Unauthorized);
    }
    Ok(())
}

/// The stored form of a name given as bytes: its first 32 bytes, followed by
/// zero bytes up to the length 32.
pub open spec fn fixed_name(bytes: Seq<u8>) -> Seq<u8> {
    Seq::new(
        ROLE_NAME_LEN as nat,
        |i: int|
            if i < bytes.len() {
                bytes[i]
            } else {
                0u8
            },
    )
}

/// The stored form of `name`: the first 32 bytes of its UTF-8 encoding,
/// padded with zero bytes. A longer name is cut, not refused, and the cut
/// may fall inside a character.
pub fn to_fixed_name(name: String) -> (out: [u8; 32])
    ensures
        out@ == fixed_name(encode_utf8(name@)),
{
    let mut out = [0u8; 32];
    let bytes = name.as_str().as_bytes();
    let len = if bytes.len() < ROLE_NAME_LEN {
        bytes.len()
    } else {
        ROLE_NAME_LEN
    };
    let mut i: usize = 0;
    while i < len
        invariant
            i <= len <= ROLE_NAME_LEN,
            len <= bytes@.len(),
            forall|j: int| 0 <= j < i ==> out@[j] == bytes@[j],
            forall|j: int| i <= j < ROLE_NAME_LEN ==> out@[j] == 0u8,
        decreases len - i,
    {
        out[i] = bytes[i];
        i += 1;
    }
    assert(out@ =~= fixed_name(bytes@));
    out
}

} // verus!
