//! Multi-tier referral-reward distribution.
//!
//! A trade's fee is split across up to five referral tiers: tier `i` receives
//! `floor(fee * tier_bps[i] / 10000)` added to its referrer's accumulator
//! record, and the residue goes to the protocol treasury. A record is touched
//! only if its supplied address matches the one re-derived from the
//! referrer's identity and the record was created earlier; any failure aborts
//! the whole distribution with no record changed.

use vstd::prelude::*;

use crate::error::SwapError;
use crate::fee::Fees;
use crate::pda::{address_eq, find_record_address, record_address_findable, record_address_of};

use vstd::arithmetic::div_mod::lemma_div_pos_is_pos;
use vstd::arithmetic::mul::lemma_mul_nonnegative;
use vstd::bytes::{
    lemma_auto_spec_u64_to_from_le_bytes, spec_u64_from_le_bytes, spec_u64_to_le_bytes,
    u64_from_le_bytes, u64_to_le_bytes,
};
use vstd::slice::slice_subrange;

verus! {

/// Per-referrer accumulator record, created (zeroed) before first use and
/// never deleted.
#[derive(Clone, Copy, Debug, PartialEq, Eq, Structural)]
pub struct FeeRecommendReward {
    pub unclaimed_sol: u64,
    pub total_reward: u64,
}

impl FeeRecommendReward {
    /// The reward still claimable never exceeds the lifetime total.
    pub open spec fn wf(self) -> bool {
        self.unclaimed_sol <= self.total_reward
    }
}

/// The record's fixed storage layout: `unclaimed_sol` at byte offset 0 and
/// `total_reward` at byte offset 8, each 8 bytes little-endian. Stored state
/// is mutated through this encoding, field by field at its fixed offset.
pub open spec fn spec_record_bytes(record: FeeRecommendReward) -> Seq<u8> {
    spec_u64_to_le_bytes(record.unclaimed_sol) + spec_u64_to_le_bytes(record.total_reward)
}

/// Encode a record in its fixed 16-byte layout.
pub fn record_to_bytes(record: &FeeRecommendReward) -> (s: Vec<u8>)
    ensures
        s@ == spec_record_bytes(*record),
        s@.len() == 16,
{
    let mut s = u64_to_le_bytes(record.unclaimed_sol);
    let mut tail = u64_to_le_bytes(record.total_reward);
    s.append(&mut tail);
    proof {
        lemma_auto_spec_u64_to_from_le_bytes();
    }
    s
}

/// Decode a record from its fixed 16-byte layout; the inverse of
/// `record_to_bytes`.
pub fn record_from_bytes(s: &[u8]) -> (record: FeeRecommendReward)
    requires
        s@.len() == 16,
    ensures
        spec_record_bytes(record) == s@,
{
    let unclaimed_sol = u64_from_le_bytes(slice_subrange(s, 0, 8));
    let total_reward = u64_from_le_bytes(slice_subrange(s, 8, 16));
    proof {
        lemma_auto_spec_u64_to_from_le_bytes();
        assert(spec_u64_to_le_bytes(unclaimed_sol) + spec_u64_to_le_bytes(total_reward) =~= s@);
    }
    FeeRecommendReward { unclaimed_sol, total_reward }
}

/// Round-trip law of the fixed record layout: the encoding is injective, so
/// a decoder that inverts it (as `record_from_bytes` promises) gives an
/// encoded record back unchanged.
pub proof fn lemma_record_bytes_roundtrip(record: FeeRecommendReward, other: FeeRecommendReward)
    ensures
        spec_record_bytes(record).len() == 16,
        spec_record_bytes(record) == spec_record_bytes(other) ==> record == other,
{
    lemma_auto_spec_u64_to_from_le_bytes();
    if spec_record_bytes(record) == spec_record_bytes(other) {
        assert(spec_u64_to_le_bytes(record.unclaimed_sol) =~= spec_record_bytes(
            record,
        ).subrange(0, 8));
        assert(spec_u64_to_le_bytes(record.total_reward) =~= spec_record_bytes(record).subrange(
            8,
            16,
        ));
        assert(spec_u64_to_le_bytes(other.unclaimed_sol) =~= spec_record_bytes(other).subrange(
            0,
            8,
        ));
        assert(spec_u64_to_le_bytes(other.total_reward) =~= spec_record_bytes(other).subrange(
            8,
            16,
        ));
        assert(spec_u64_from_le_bytes(spec_u64_to_le_bytes(record.unclaimed_sol))
            == spec_u64_from_le_bytes(spec_u64_to_le_bytes(other.unclaimed_sol)));
        assert(spec_u64_from_le_bytes(spec_u64_to_le_bytes(record.total_reward))
            == spec_u64_from_le_bytes(spec_u64_to_le_bytes(other.total_reward)));
    }
}

/// The reward of one referral tier: `floor(trading_fee * bps / 10000)`.
pub open spec fn tier_reward(trading_fee: u64, bps: u16) -> int {
    trading_fee * (bps as int) / 10000
}

/// The sum of the rewards of the first `n` tiers.
pub open spec fn total_tier_reward(trading_fee: u64, list: Seq<u16>, n: int) -> int
    decreases n,
{
    if n <= 0 {
        0
    } else {
        total_tier_reward(trading_fee, list, n - 1) + tier_reward(trading_fee, list[n - 1])
    }
}

/// A referral record after one distribution step: both accumulators grow by
/// the tier's reward.
pub open spec fn updated_record(
    trading_fee: u64,
    list: Seq<u16>,
    record: FeeRecommendReward,
    i: int,
) -> FeeRecommendReward {
    FeeRecommendReward {
        unclaimed_sol: (record.unclaimed_sol + tier_reward(trading_fee, list[i])) as u64,
        total_reward: (record.total_reward + tier_reward(trading_fee, list[i])) as u64,
    }
}

/// The byte views of a list of addresses.
pub open spec fn address_views(addresses: Seq<[u8; 32]>) -> Seq<Seq<u8>> {
    addresses.map_values(|address: [u8; 32]| address@)
}

/// The record addresses the host ledger's scheme derives for a list of
/// referrer identities.
pub open spec fn derived_addresses(accounts: Seq<[u8; 32]>, program_id: Seq<u8>) -> Seq<Seq<u8>> {
    accounts.map_values(|identity: [u8; 32]| record_address_of(identity@, program_id))
}

/// What stops the distribution at tier `i`, if anything: an overflowing tier
/// product, a record address that is not the expected one, a record that was
/// never created, or an overflowing accumulator.
pub open spec fn tier_fault(
    trading_fee: u64,
    list: Seq<u16>,
    expected: Seq<Seq<u8>>,
    claimed: Seq<[u8; 32]>,
    records: Seq<Option<FeeRecommendReward>>,
    i: int,
) -> Option<SwapError> {
    if trading_fee * (list[i] as int) > u64::MAX {
        Some(SwapError::ArithmeticFault)
    } else if expected[i] != claimed[i]@ {
        Some(SwapError::ReferralRecordMismatch)
    } else if records[i] is None {
        Some(SwapError::ReferralRecordUninitialized)
    } else if records[i]->Some_0.unclaimed_sol + tier_reward(trading_fee, list[i]) > u64::MAX
        || records[i]->Some_0.total_reward + tier_reward(trading_fee, list[i]) > u64::MAX
        || total_tier_reward(trading_fee, list, i + 1) > u64::MAX {
        Some(SwapError::ArithmeticFault)
    } else {
        None
    }
}

/// The first tier fault among tiers `0 .. n`, if any.
pub open spec fn first_tier_fault(
    trading_fee: u64,
    list: Seq<u16>,
    expected: Seq<Seq<u8>>,
    claimed: Seq<[u8; 32]>,
    records: Seq<Option<FeeRecommendReward>>,
    n: int,
) -> Option<SwapError>
    decreases n,
{
    if n <= 0 {
        None
    } else if first_tier_fault(trading_fee, list, expected, claimed, records, n - 1) is Some {
        first_tier_fault(trading_fee, list, expected, claimed, records, n - 1)
    } else {
        tier_fault(trading_fee, list, expected, claimed, records, n - 1)
    }
}

/// Why a whole distribution fails, if it does: too many referrer entries, the
/// first tier fault, or a tier table that hands out more than the fee.
pub open spec fn distribution_fault(
    trading_fee: u64,
    list: Seq<u16>,
    expected: Seq<Seq<u8>>,
    claimed: Seq<[u8; 32]>,
    records: Seq<Option<FeeRecommendReward>>,
) -> Option<SwapError> {
    let n = claimed.len() as int;
    if n > 5 {
        Some(SwapError::TooManyReferralTiers)
    } else if first_tier_fault(trading_fee, list, expected, claimed, records, n) is Some {
        first_tier_fault(trading_fee, list, expected, claimed, records, n)
    } else if total_tier_reward(trading_fee, list, n) > trading_fee {
        Some(SwapError::ArithmeticFault)
    } else {
        None
    }
}

proof fn lemma_tier_reward_nonneg(trading_fee: u64, bps: u16)
    ensures
        0 <= tier_reward(trading_fee, bps),
{
    lemma_mul_nonnegative(trading_fee as int, bps as int);
    lemma_div_pos_is_pos(trading_fee * (bps as int), 10000);
}

proof fn lemma_first_tier_fault_of_prefix(
    trading_fee: u64,
    list: Seq<u16>,
    expected: Seq<Seq<u8>>,
    claimed: Seq<[u8; 32]>,
    records: Seq<Option<FeeRecommendReward>>,
    i: int,
    n: int,
)
    requires
        0 <= i < n,
        forall|j: int|
            0 <= j < i ==> tier_fault(trading_fee, list, expected, claimed, records, j) is None,
        tier_fault(trading_fee, list, expected, claimed, records, i) is Some,
    ensures
        first_tier_fault(trading_fee, list, expected, claimed, records, n) == tier_fault(
            trading_fee,
            list,
            expected,
            claimed,
            records,
            i,
        ),
    decreases n,
{
    if n - 1 == i {
        lemma_first_tier_fault_all_none(trading_fee, list, expected, claimed, records, i);
    } else {
        lemma_first_tier_fault_of_prefix(trading_fee, list, expected, claimed, records, i, n - 1);
    }
}

proof fn lemma_first_tier_fault_all_none(
    trading_fee: u64,
    list: Seq<u16>,
    expected: Seq<Seq<u8>>,
    claimed: Seq<[u8; 32]>,
    records: Seq<Option<FeeRecommendReward>>,
    n: int,
)
    requires
        forall|j: int|
            0 <= j < n ==> tier_fault(trading_fee, list, expected, claimed, records, j) is None,
    ensures
        first_tier_fault(trading_fee, list, expected, claimed, records, n) is None,
    decreases n,
{
    if n > 0 {
        lemma_first_tier_fault_all_none(trading_fee, list, expected, claimed, records, n - 1);
    }
}

proof fn lemma_first_tier_fault_kind(
    trading_fee: u64,
    list: Seq<u16>,
    expected: Seq<Seq<u8>>,
    claimed: Seq<[u8; 32]>,
    records: Seq<Option<FeeRecommendReward>>,
    n: int,
)
    ensures
        first_tier_fault(trading_fee, list, expected, claimed, records, n) matches Some(e) ==> (e
            == SwapError::ArithmeticFault || e == SwapError::ReferralRecordMismatch || e
            == SwapError::ReferralRecordUninitialized),
    decreases n,
{
    if n > 0 {
        lemma_first_tier_fault_kind(trading_fee, list, expected, claimed, records, n - 1);
    }
}

proof fn lemma_first_tier_fault_none_pointwise(
    trading_fee: u64,
    list: Seq<u16>,
    expected: Seq<Seq<u8>>,
    claimed: Seq<[u8; 32]>,
    records: Seq<Option<FeeRecommendReward>>,
    n: int,
)
    requires
        first_tier_fault(trading_fee, list, expected, claimed, records, n) is None,
    ensures
        forall|j: int|
            0 <= j < n ==> tier_fault(trading_fee, list, expected, claimed, records, j) is None,
    decreases n,
{
    if n > 0 {
        lemma_first_tier_fault_none_pointwise(
            trading_fee,
            list,
            expected,
            claimed,
            records,
            n - 1,
        );
    }
}

impl Fees {
    /// Distribute `trading_fee` across the supplied referral records, given
    /// the expected (freshly re-derived) address of each record. Everything
    /// is validated and computed first; the records are only written once the
    /// whole distribution is known to succeed. Returns the residual fee owed
    /// to the treasury and the total handed to referrers, which always add
    /// back up to `trading_fee` exactly.
    pub fn distribute_recommend_rewards(
        &self,
        trading_fee: u64,
        expected_pdas: &Vec<[u8; 32]>,
        recommend_pdas: &Vec<[u8; 32]>,
        records: &mut Vec<Option<FeeRecommendReward>>,
        recommend_reward_list: &[u16; 5],
    ) -> (r: Result<(u64, u64), SwapError>)
        requires
            expected_pdas@.len() == recommend_pdas@.len(),
            old(records)@.len() == recommend_pdas@.len(),
        ensures
            r is Ok <==> distribution_fault(
                trading_fee,
                recommend_reward_list@,
                address_views(expected_pdas@),
                recommend_pdas@,
                old(records)@,
            ) is None,
            r matches Err(e) ==> Some(e) == distribution_fault(
                trading_fee,
                recommend_reward_list@,
                address_views(expected_pdas@),
                recommend_pdas@,
                old(records)@,
            ),
            r is Err ==> final(records)@ == old(records)@,
            r matches Ok((residue_fee, total_reward_fee)) ==> {
                let n = recommend_pdas@.len() as int;
                &&& total_reward_fee == total_tier_reward(trading_fee, recommend_reward_list@, n)
                &&& residue_fee == trading_fee - total_reward_fee
                &&& residue_fee + total_reward_fee == trading_fee
                &&& final(records)@.len() == old(records)@.len()
                &&& forall|i: int|
                    0 <= i < n ==> final(records)@[i] == Some(
                        updated_record(
                            trading_fee,
                            recommend_reward_list@,
                            old(records)@[i]->Some_0,
                            i,
                        ),
                    )
                &&& forall|i: int|
                    0 <= i < n && old(records)@[i]->Some_0.wf()
                        ==> final(records)@[i]->Some_0.wf()
                &&& forall|i: int|
                    0 <= i < n ==> old(records)@[i]->Some_0.unclaimed_sol + tier_reward(
                        trading_fee,
                        recommend_reward_list@[i],
                    ) <= u64::MAX && old(records)@[i]->Some_0.total_reward + tier_reward(
                        trading_fee,
                        recommend_reward_list@[i],
                    ) <= u64::MAX
                &&& forall|i: int|
                    0 <= i < n ==> {
                        &&& final(records)@[i]->Some_0.unclaimed_sol
                            >= old(records)@[i]->Some_0.unclaimed_sol
                        &&& final(records)@[i]->Some_0.total_reward
                            >= old(records)@[i]->Some_0.total_reward
                    }
            },
    {
        let n = recommend_pdas.len();
        if n > 5 {
            return Err(SwapError::TooManyReferralTiers);
        }
        let mut new_records: Vec<Option<FeeRecommendReward>> = Vec::new();
        let mut total_reward_fee: u64 = 0;
        let mut i: usize = 0;
        while i < n
            invariant
                n == recommend_pdas@.len(),
                n <= 5,
                expected_pdas@.len() == n,
                old(records)@.len() == n,
                records@ == old(records)@,
                i <= n,
                new_records@.len() == i,
                total_reward_fee == total_tier_reward(
                    trading_fee,
                    recommend_reward_list@,
                    i as int,
                ),
                forall|j: int|
                    0 <= j < i ==> tier_fault(
                        trading_fee,
                        recommend_reward_list@,
                        address_views(expected_pdas@),
                        recommend_pdas@,
                        old(records)@,
                        j,
                    ) is None,
                forall|j: int|
                    0 <= j < i ==> new_records@[j] == Some(
                        updated_record(
                            trading_fee,
                            recommend_reward_list@,
                            old(records)@[j]->Some_0,
                            j,
                        ),
                    ),
            decreases n - i,
        {
            let ghost fault = tier_fault(
                trading_fee,
                recommend_reward_list@,
                address_views(expected_pdas@),
                recommend_pdas@,
                old(records)@,
                i as int,
            );
            let recommend_reward = recommend_reward_list[i];
            let reward_fee = match trading_fee.checked_mul(recommend_reward as u64) {
                Some(product) => product / 10000,
                None => {
                    proof {
                        lemma_first_tier_fault_of_prefix(
                            trading_fee,
                            recommend_reward_list@,
                            address_views(expected_pdas@),
                            recommend_pdas@,
                            old(records)@,
                            i as int,
                            n as int,
                        );
                    }
                    return Err(SwapError::ArithmeticFault);
                },
            };
            if !address_eq(&expected_pdas[i], &recommend_pdas[i]) {
                proof {
                    lemma_first_tier_fault_of_prefix(
                        trading_fee,
                        recommend_reward_list@,
                        address_views(expected_pdas@),
                        recommend_pdas@,
                        old(records)@,
                        i as int,
                        n as int,
                    );
                }
                return Err(SwapError::ReferralRecordMismatch);
            }
            let record = match records[i] {
                Some(record) => record,
                None => {
                    proof {
                        lemma_first_tier_fault_of_prefix(
                            trading_fee,
                            recommend_reward_list@,
                            address_views(expected_pdas@),
                            recommend_pdas@,
                            old(records)@,
                            i as int,
                            n as int,
                        );
                    }
                    return Err(SwapError::ReferralRecordUninitialized);
                },
            };
            let updated = match (
                record.unclaimed_sol.checked_add(reward_fee),
                record.total_reward.checked_add(reward_fee),
                total_reward_fee.checked_add(reward_fee),
            ) {
                (Some(new_unclaimed_sol), Some(new_total_reward), Some(new_total_reward_fee)) => {
                    total_reward_fee = new_total_reward_fee;
                    FeeRecommendReward {
                        unclaimed_sol: new_unclaimed_sol,
                        total_reward: new_total_reward,
                    }
                },
                _ => {
                    proof {
                        lemma_first_tier_fault_of_prefix(
                            trading_fee,
                            recommend_reward_list@,
                            address_views(expected_pdas@),
                            recommend_pdas@,
                            old(records)@,
                            i as int,
                            n as int,
                        );
                    }
                    return Err(SwapError::ArithmeticFault);
                },
            };
            new_records.push(Some(updated));
            i += 1;
        }
        proof {
            lemma_first_tier_fault_all_none(
                trading_fee,
                recommend_reward_list@,
                address_views(expected_pdas@),
                recommend_pdas@,
                old(records)@,
                n as int,
            );
        }
        let residue_fee = match trading_fee.checked_sub(total_reward_fee) {
            Some(residue_fee) => residue_fee,
            None => {
                return Err(SwapError::ArithmeticFault);
            },
        };
        proof {
            assert forall|j: int|
                0 <= j < n as int && old(records)@[j]->Some_0.wf() implies (
            new_records@[j]->Some_0).wf() by {
                assert(tier_fault(
                    trading_fee,
                    recommend_reward_list@,
                    address_views(expected_pdas@),
                    recommend_pdas@,
                    old(records)@,
                    j,
                ) is None);
                lemma_tier_reward_nonneg(trading_fee, recommend_reward_list@[j]);
            }
            assert forall|j: int| 0 <= j < n as int implies old(records)@[j]->Some_0.unclaimed_sol
                + tier_reward(trading_fee, recommend_reward_list@[j]) <= u64::MAX
                && old(records)@[j]->Some_0.total_reward
                + tier_reward(trading_fee, recommend_reward_list@[j]) <= u64::MAX by {
                assert(tier_fault(
                    trading_fee,
                    recommend_reward_list@,
                    address_views(expected_pdas@),
                    recommend_pdas@,
                    old(records)@,
                    j,
                ) is None);
            }
            assert forall|j: int| 0 <= j < n as int implies (new_records@[j]->Some_0).unclaimed_sol
                >= old(records)@[j]->Some_0.unclaimed_sol && (new_records@[j]->Some_0).total_reward
                >= old(records)@[j]->Some_0.total_reward by {
                assert(tier_fault(
                    trading_fee,
                    recommend_reward_list@,
                    address_views(expected_pdas@),
                    recommend_pdas@,
                    old(records)@,
                    j,
                ) is None);
                lemma_tier_reward_nonneg(trading_fee, recommend_reward_list@[j]);
            }
        }
        *records = new_records;
        Ok((residue_fee, total_reward_fee))
    }

    /// Distribute `trading_fee` across the referral tiers: re-derive every
    /// record address from its referrer's identity, verify the supplied
    /// locations, and credit each record its tier's reward. Returns the
    /// residual fee owed to the treasury and the total handed to referrers.
    pub fn reward_recommend(
        &self,
        trading_fee: u64,
        recommend_accounts: &Vec<[u8; 32]>,
        recommend_pdas: &Vec<[u8; 32]>,
        records: &mut Vec<Option<FeeRecommendReward>>,
        recommend_reward_list: &[u16; 5],
        program_id: &[u8; 32],
    ) -> (r: Result<(u64, u64), SwapError>)
        requires
            recommend_accounts@.len() == recommend_pdas@.len(),
            old(records)@.len() == recommend_pdas@.len(),
        ensures
            r is Err ==> final(records)@ == old(records)@,
            recommend_accounts@.len() > 5 <==> r == Err::<(u64, u64), SwapError>(
                SwapError::TooManyReferralTiers,
            ),
            r matches Err(e) ==> (e == SwapError::TooManyReferralTiers
                || e == SwapError::ReferralRecordMismatch
                || e == SwapError::ReferralRecordUninitialized
                || e == SwapError::ArithmeticFault),
            recommend_accounts@.len() <= 5 ==> {
                let n = recommend_accounts@.len() as int;
                if exists|i: int|
                    0 <= i < n && !record_address_findable(
                        recommend_accounts@[i]@,
                        program_id@,
                    ) {
                    r == Err::<(u64, u64), SwapError>(SwapError::ReferralRecordMismatch)
                } else {
                    &&& (r is Ok <==> distribution_fault(
                        trading_fee,
                        recommend_reward_list@,
                        derived_addresses(recommend_accounts@, program_id@),
                        recommend_pdas@,
                        old(records)@,
                    ) is None)
                    &&& (r matches Err(e) ==> Some(e) == distribution_fault(
                        trading_fee,
                        recommend_reward_list@,
                        derived_addresses(recommend_accounts@, program_id@),
                        recommend_pdas@,
                        old(records)@,
                    ))
                }
            },
            r matches Ok((residue_fee, total_reward_fee)) ==> {
                let n = recommend_accounts@.len() as int;
                &&& forall|i: int|
                    0 <= i < n ==> recommend_pdas@[i]@ == record_address_of(
                        recommend_accounts@[i]@,
                        program_id@,
                    )
                &&& forall|i: int|
                    0 <= i < n ==> record_address_findable(recommend_accounts@[i]@, program_id@)
                &&& forall|i: int| 0 <= i < n ==> old(records)@[i] is Some
                &&& total_reward_fee == total_tier_reward(trading_fee, recommend_reward_list@, n)
                &&& residue_fee == trading_fee - total_reward_fee
                &&& residue_fee + total_reward_fee == trading_fee
                &&& final(records)@.len() == old(records)@.len()
                &&& forall|i: int|
                    0 <= i < n ==> final(records)@[i] == Some(
                        updated_record(
                            trading_fee,
                            recommend_reward_list@,
                            old(records)@[i]->Some_0,
                            i,
                        ),
                    )
                &&& forall|i: int|
                    0 <= i < n && old(records)@[i]->Some_0.wf()
                        ==> final(records)@[i]->Some_0.wf()
                &&& forall|i: int|
                    0 <= i < n ==> old(records)@[i]->Some_0.unclaimed_sol + tier_reward(
                        trading_fee,
                        recommend_reward_list@[i],
                    ) <= u64::MAX && old(records)@[i]->Some_0.total_reward + tier_reward(
                        trading_fee,
                        recommend_reward_list@[i],
                    ) <= u64::MAX
                &&& forall|i: int|
                    0 <= i < n ==> {
                        &&& final(records)@[i]->Some_0.unclaimed_sol
                            >= old(records)@[i]->Some_0.unclaimed_sol
                        &&& final(records)@[i]->Some_0.total_reward
                            >= old(records)@[i]->Some_0.total_reward
                    }
            },
    {
        let n = recommend_accounts.len();
        if n > 5 {
            return Err(SwapError::TooManyReferralTiers);
        }
        let mut expected_pdas: Vec<[u8; 32]> = Vec::new();
        let mut i: usize = 0;
        while i < n
            invariant
                n == recommend_accounts@.len(),
                n <= 5,
                i <= n,
                records@ == old(records)@,
                old(records)@.len() == recommend_pdas@.len(),
                recommend_accounts@.len() == recommend_pdas@.len(),
                expected_pdas@.len() == i,
                forall|j: int|
                    0 <= j < i ==> expected_pdas@[j]@ == record_address_of(
                        recommend_accounts@[j]@,
                        program_id@,
                    ),
                forall|j: int|
                    0 <= j < i ==> record_address_findable(recommend_accounts@[j]@, program_id@),
            decreases n - i,
        {
            match find_record_address(&recommend_accounts[i], program_id) {
                Some(address) => expected_pdas.push(address),
                None => {
                    return Err(SwapError::ReferralRecordMismatch);
                },
            }
            i += 1;
        }
        let r = self.distribute_recommend_rewards(
            trading_fee,
            &expected_pdas,
            recommend_pdas,
            records,
            recommend_reward_list,
        );
        proof {
            assert forall|j: int| 0 <= j < n as int implies address_views(expected_pdas@)[j]
                == derived_addresses(recommend_accounts@, program_id@)[j] by {
                assert(expected_pdas@[j]@ == record_address_of(
                    recommend_accounts@[j]@,
                    program_id@,
                ));
            }
            assert(address_views(expected_pdas@) =~= derived_addresses(
                recommend_accounts@,
                program_id@,
            ));
            if r is Ok {
                lemma_first_tier_fault_none_pointwise(
                    trading_fee,
                    recommend_reward_list@,
                    address_views(expected_pdas@),
                    recommend_pdas@,
                    old(records)@,
                    n as int,
                );
                assert forall|j: int| 0 <= j < n as int implies recommend_pdas@[j]@
                    == record_address_of(recommend_accounts@[j]@, program_id@) by {
                    assert(tier_fault(
                        trading_fee,
                        recommend_reward_list@,
                        address_views(expected_pdas@),
                        recommend_pdas@,
                        old(records)@,
                        j,
                    ) is None);
                }
                assert forall|j: int| 0 <= j < n as int implies old(records)@[j] is Some by {
                    assert(tier_fault(
                        trading_fee,
                        recommend_reward_list@,
                        address_views(expected_pdas@),
                        recommend_pdas@,
                        old(records)@,
                        j,
                    ) is None);
                }
            } else {
                lemma_first_tier_fault_kind(
                    trading_fee,
                    recommend_reward_list@,
                    address_views(expected_pdas@),
                    recommend_pdas@,
                    old(records)@,
                    n as int,
                );
            }
        }
        r
    }
}

/// Release a referrer's accumulated reward: the unclaimed amount is handed
/// back (for the caller to pay out) and reset to zero; the lifetime total is
/// kept.
pub fn recommender_claim_sol(fee_recommend_reward: &mut FeeRecommendReward) -> (claim_amount: u64)
    ensures
        claim_amount == old(fee_recommend_reward).unclaimed_sol,
        final(fee_recommend_reward).unclaimed_sol == 0,
        final(fee_recommend_reward).total_reward == old(fee_recommend_reward).total_reward,
        final(fee_recommend_reward).wf(),
{
    let claim_amount = fee_recommend_reward.unclaimed_sol;
    fee_recommend_reward.unclaimed_sol = 0;
    claim_amount
}

} // verus!
