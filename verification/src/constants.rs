//! Fixed values of the stored layout and of address derivation.

use vstd::prelude::*;

verus! {

/// Bytes of the header that precedes every stored record and tells its kind.
pub const ACCOUNT_DISCRIMINATOR_LEN: usize = 8;

/// Seed of the address of the global configuration record: the ASCII bytes
/// of `global_state`.
pub const GLOBAL_STATE_SEED: [u8; 12] = [
    0x67, 0x6c, 0x6f, 0x62, 0x61, 0x6c, 0x5f, 0x73, 0x74, 0x61, 0x74, 0x65,
];

/// Seed of the address of a usage plan: the ASCII bytes of `plan`.
pub const PLAN_SEED: [u8; 4] = [0x70, 0x6c, 0x61, 0x6e];

/// Seed of the address of a role: the ASCII bytes of `role`.
pub const ROLE_SEED: [u8; 4] = [0x72, 0x6f, 0x6c, 0x65];

/// Seed of the address of an API key: the ASCII bytes of `key`.
pub const KEY_SEED: [u8; 3] = [0x6b, 0x65, 0x79];

/// Status of a key that may be used.
pub const KEY_STATUS_ACTIVE: u8 = 0;

/// Status of a key that was revoked. It is terminal.
pub const KEY_STATUS_REVOKED: u8 = 1;

/// Bytes kept of a role's name.
pub const ROLE_NAME_LEN: usize = 32;

} // verus!
