//! Deterministic derivation of referral-record addresses.
//!
//! A referral record is trusted only if its supplied address equals the one
//! freshly re-derived from the referrer's identity; the derivation itself is
//! performed by the host ledger's address scheme.

use vstd::prelude::*;

verus! {

/// The address that the host ledger's program-derived-address scheme assigns
/// to the referral record of `identity` under `program_id`. The derivation is
/// a pure function of its inputs; its value is fixed by the outside scheme
/// and deliberately left unspecified here.
pub uninterp spec fn record_address_of(identity: Seq<u8>, program_id: Seq<u8>) -> Seq<u8>;

/// Whether the scheme finds a record address for `identity` under
/// `program_id` at all. Like the address itself this is a pure function of
/// the two inputs (the search tries bump seeds in a fixed order); it is false
/// only in the statistically improbable case that no bump seed works.
pub uninterp spec fn record_address_findable(identity: Seq<u8>, program_id: Seq<u8>) -> bool;

/// Relies on solana_program's `Pubkey::try_find_program_address`: the derived
/// address (under the fixed record namespace seed used below) is a
/// deterministic function of the identity and the program id alone, computed
/// by hashing, and so is whether any bump seed yields a valid address;
/// `None` is returned only when none does.
#[verifier::external_body]
pub(crate) fn find_record_address(identity: &[u8; 32], program_id: &[u8; 32]) -> (r: Option<
    [u8; 32],
>)
    ensures
        r is Some <==> record_address_findable(identity@, program_id@),
        r matches Some(address) ==> address@ == record_address_of(identity@, program_id@),
{
    let program_id = solana_program::pubkey::Pubkey::new_from_array(*program_id);
    solana_program::pubkey::Pubkey::try_find_program_address(
        &[b"fee_recommend_reward", identity.as_ref()],
        &program_id,
    ).map(|(address, _bump)| address.to_bytes())
}

/// Byte-for-byte equality of two addresses.
pub fn address_eq(a: &[u8; 32], b: &[u8; 32]) -> (r: bool)
    ensures
        r <==> a@ == b@,
{
    let mut i: usize = 0;
    while i < 32
        invariant
            i <= 32,
            forall|j: int| 0 <= j < i ==> a@[j] == b@[j],
        decreases 32 - i,
    {
        if a[i] != b[i] {
            return false;
        }
        i += 1;
    }
    proof {
        assert(a@ =~= b@);
    }
    true
}

} // verus!
