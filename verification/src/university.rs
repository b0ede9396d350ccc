use vstd::prelude::*;

use crate::digest::digests_equal;
use crate::digest::zero_digest;
use crate::digest::zero_digest_bytes;
use crate::errors::CampaignError;

verus! {

/// The organization-wide aggregate: one root value standing for the fold of
/// many sealed records' roots, written only by its declared authority.
pub struct UniversityPerformance {
    pub authority: [u8; 32],
    pub university_id: String,
    pub total_campaigns: u32,
    pub created_at: i64,
    pub updated_at: i64,
    pub final_merkle_root: [u8; 32],
}

impl UniversityPerformance {
    /// Fixed footprint of the aggregate account: every field at its
    /// worst-case encoded width, the identifier length-prefixed.
    pub const BASE_LEN: usize = 32 + 4 + 50 + 4 + 8 + 8 + 32;

    /// The aggregate holds no growing collections: its size is its base.
    pub const LEN: usize = UniversityPerformance::BASE_LEN;
}

/// Creates the aggregate for one organization: owned by `authority`, the
/// campaign counter at zero, the all-zero root, and both timestamps at
/// `now`.
pub fn initialize_final_root(authority: [u8; 32], university_id: String, now: i64) -> (root:
    UniversityPerformance)
    ensures
        root.authority == authority,
        root.university_id@ == university_id@,
        root.total_campaigns == 0,
        root.created_at == now,
        root.updated_at == now,
        root.final_merkle_root@ == zero_digest(),
{
    UniversityPerformance {
        authority,
        university_id,
        total_campaigns: 0,
        created_at: now,
        updated_at: now,
        final_merkle_root: zero_digest_bytes(),
    }
}

/// Which result an aggregate update owes: only the declared authority may
/// write, and for it the overwrite always goes through.
pub open spec fn update_outcome(authority: Seq<u8>, caller: Seq<u8>) -> Result<
    (),
    CampaignError,
> {
    if caller != authority {
        Err(CampaignError::Unauthorized)
    } else {
        Ok(())
    }
}

/// Overwrites the aggregate root with a value folded off-band from the
/// sealed records' roots, and moves `updated_at` to `now`; the identity,
/// counter, and creation time never change, and a caller other than the
/// authority changes nothing at all.
pub fn update_final_merkle_root(
    final_root: &mut UniversityPerformance,
    caller: [u8; 32],
    new_root: [u8; 32],
    now: i64,
) -> (result: Result<(), CampaignError>)
    ensures
        result == update_outcome(old(final_root).authority@, caller@),
        result is Err ==> *final(final_root) == *old(final_root),
        result is Ok ==> {
            &&& final(final_root).final_merkle_root == new_root
            &&& final(final_root).updated_at == now
            &&& final(final_root).authority == old(final_root).authority
            &&& final(final_root).university_id == old(final_root).university_id
            &&& final(final_root).total_campaigns == old(final_root).total_campaigns
            &&& final(final_root).created_at == old(final_root).created_at
        },
{
    if !digests_equal(&caller, &final_root.authority) {
        return Err(CampaignError::Unauthorized);
    }
    final_root.final_merkle_root = new_root;
    final_root.updated_at = now;
    Ok(())
}

} // verus!
