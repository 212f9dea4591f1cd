//! Canonical addresses: where the store keeps the record of a numeric
//! identifier.

use vstd::prelude::*;
use vstd::bytes::{spec_u64_to_le_bytes, u64_to_le_bytes};
use crate::constants::{PLAN_SEED, ROLE_SEED};
use crate::pubkey::Pubkey;

verus! {

/// The address that the runtime derives from `seeds` for the program
/// `program_id`, with the bump seed that it found, or `None` where it
/// derives none. It is what `Pubkey::try_find_program_address` of
/// `anchor_lang` returns: a search over hashes of the seeds, which is not
/// written out here.
pub uninterp spec fn program_address(seeds: Seq<Seq<u8>>, program_id: Seq<u8>) -> Option<
    (Seq<u8>, u8),
>;

/// An address that may be absent, with its bump seed, as plain values.
pub open spec fn found_view(found: Option<(Pubkey, u8)>) -> Option<(Seq<u8>, u8)> {
    match found {
        Some((address, bump)) => Some((address@, bump)),
        None => None,
    }
}

/// Calls `anchor_lang::prelude::Pubkey::try_find_program_address`. The
/// contract says that the call is a function of the seeds and of the program
/// address, and gives its result the name `program_address`; it says nothing
/// of which address comes out. The call does not panic: where no address can
/// be derived, or the seeds are too many or too long, it returns `None`.
#[verifier::external_body]
pub(crate) fn try_find_program_address(seeds: &[&[u8]], program_id: &Pubkey) -> (found: Option<
    (Pubkey, u8),
>)
    ensures
        found_view(found) == program_address(
            seeds@.map_values(|seed: &[u8]| seed@),
            program_id@,
        ),
{
    let program = anchor_lang::prelude::Pubkey::new_from_array(program_id.bytes);
    match anchor_lang::prelude::Pubkey::try_find_program_address(seeds, &program) {
        Some((address, bump)) => Some((Pubkey { bytes: address.to_bytes() }, bump)),
        None => None,
    }
}

/// The seeds of a record that is stored under a tag and a numeric
/// identifier: the tag, then the identifier as eight little-endian bytes.
pub open spec fn numbered_seeds(tag: Seq<u8>, id: u64) -> Seq<Seq<u8>> {
    seq![tag, spec_u64_to_le_bytes(id)]
}

/// The address at which this program's record with the given seeds is
/// stored, if one can be derived.
pub open spec fn canonical_address(seeds: Seq<Seq<u8>>) -> Option<Seq<u8>> {
    match program_address(seeds, crate::id()@) {
        Some((address, _)) => Some(address),
        None => None,
    }
}

/// The canonical address of the usage plan `plan_id`.
pub open spec fn spec_plan_address(plan_id: u64) -> Option<Seq<u8>> {
    canonical_address(numbered_seeds(PLAN_SEED@, plan_id))
}

/// The canonical address of the role `role_id`.
pub open spec fn spec_role_address(role_id: u64) -> Option<Seq<u8>> {
    canonical_address(numbered_seeds(ROLE_SEED@, role_id))
}

/// The bytes of an address that may be absent.
pub open spec fn view_of(address: Option<Pubkey>) -> Option<Seq<u8>> {
    match address {
        Some(key) => Some(key@),
        None => None,
    }
}

/// Derives the address of the record stored under `tag` and `id`.
fn numbered_address(tag: &[u8], id: u64) -> (found: Option<Pubkey>)
    ensures
        view_of(found) == canonical_address(numbered_seeds(tag@, id)),
{
    let id_bytes = u64_to_le_bytes(id);
    let seeds: [&[u8]; 2] = [tag, id_bytes.as_slice()];
    let program_id = crate::id();
    let found = try_find_program_address(seeds.as_slice(), &program_id);
    proof {
        assert(seeds@.map_values(|seed: &[u8]| seed@) =~= numbered_seeds(tag@, id));
    }
    match found {
        Some((address, _)) => Some(address),
        None => None,
    }
}

/// The canonical address of the usage plan `plan_id`.
pub fn plan_address(plan_id: u64) -> (found: Option<Pubkey>)
    ensures
        view_of(found) == spec_plan_address(plan_id),
{
    numbered_address(PLAN_SEED.as_slice(), plan_id)
}

/// The canonical address of the role `role_id`.
pub fn role_address(role_id: u64) -> (found: Option<Pubkey>)
    ensures
        view_of(found) == spec_role_address(role_id),
{
    numbered_address(ROLE_SEED.as_slice(), role_id)
}

} // verus!
