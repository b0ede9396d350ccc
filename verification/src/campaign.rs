use vstd::prelude::*;
use vstd::string::StrSliceExecFns;

use crate::digest::digests_equal;
use crate::digest::zero_digest;
use crate::digest::zero_digest_bytes;
use crate::errors::CampaignError;
use crate::merkle::build_root;
use crate::merkle::leaves_of;
use crate::merkle::merkle_root_of;

verus! {

/// Longest accepted record identifier, in characters.
pub const MAX_CAMPAIGN_ID_LEN: usize = 50;

/// Longest accepted semester tag, in characters.
pub const MAX_SEMESTER_LEN: usize = 20;

/// Longest accepted public key blob, in bytes.
pub const MAX_PUBLIC_KEY_LEN: usize = 300;

/// Ceiling on responses accepted through open single-response submission.
pub const MAX_SINGLE_RESPONSES: u32 = 10;

/// A survey record: the ordered commitments and their encrypted payloads
/// collected while open, the lifecycle flag, and the Merkle root written at
/// publication.
pub struct SurveyCampaign {
    pub authority: [u8; 32],
    pub campaign_id: String,
    pub semester: String,
    pub campaign_type: u8,
    pub total_responses: u32,
    pub created_at: i64,
    pub updated_at: i64,
    pub is_published: bool,
    pub merkle_root: [u8; 32],
    pub encrypted_responses: Vec<[u8; 256]>,
    pub commitments: Vec<[u8; 32]>,
    pub blind_signature_public_key: Vec<u8>,
    pub encryption_public_key: Vec<u8>,
}

impl SurveyCampaign {
    /// Fixed overhead of a serialized record: every field at its worst-case
    /// encoded width, length-prefixed strings and blobs counting prefix plus
    /// maximum length.
    pub const BASE_LEN: usize = 32 + 4 + 50 + 4 + 20 + 1 + 4 + 8 + 8 + 1 + 32 + 4 + 4 + 4 + 300
        + 4 + 300;

    /// Initial footprint of a record holding no responses.
    pub const LEN: usize = SurveyCampaign::BASE_LEN;

    /// Footprint of an unsealed record holding `n` entries: each entry
    /// carries a 256-byte encrypted payload and a 32-byte commitment.
    pub open spec fn spec_size_for_responses(n: nat) -> nat {
        (SurveyCampaign::BASE_LEN + n * 288) as nat
    }

    /// Footprint of a sealed record holding `n` entries: only the 32-byte
    /// commitments remain.
    pub open spec fn spec_size_after_publishing(n: nat) -> nat {
        (SurveyCampaign::BASE_LEN + n * 32) as nat
    }

    /// Exact storage footprint required for an unsealed record holding
    /// `num_responses` entries.
    pub fn calculate_size_for_responses(num_responses: u32) -> (size: usize)
        requires
            SurveyCampaign::spec_size_for_responses(num_responses as nat) <= usize::MAX,
        ensures
            size == SurveyCampaign::spec_size_for_responses(num_responses as nat),
    {
        SurveyCampaign::BASE_LEN + (num_responses as usize) * (256 + 32)
    }

    /// Exact storage footprint required for a sealed record holding
    /// `num_responses` entries.
    pub fn calculate_size_after_publishing(num_responses: u32) -> (size: usize)
        requires
            SurveyCampaign::spec_size_after_publishing(num_responses as nat) <= usize::MAX,
        ensures
            size == SurveyCampaign::spec_size_after_publishing(num_responses as nat),
    {
        SurveyCampaign::BASE_LEN + (num_responses as usize) * 32
    }

    /// Well-formedness of a record: length ceilings hold, the counter equals
    /// the number of commitments, payloads pair one-to-one with commitments
    /// while the record is open and are gone once it is published, and the
    /// root stays the all-zero sentinel until publication.
    pub open spec fn wf(self) -> bool {
        &&& self.campaign_id@.len() <= MAX_CAMPAIGN_ID_LEN
        &&& self.semester@.len() <= MAX_SEMESTER_LEN
        &&& self.campaign_type <= 1
        &&& self.blind_signature_public_key@.len() <= MAX_PUBLIC_KEY_LEN
        &&& self.encryption_public_key@.len() <= MAX_PUBLIC_KEY_LEN
        &&& self.total_responses as nat == self.commitments@.len()
        &&& if self.is_published {
            self.encrypted_responses@.len() == 0
        } else {
            self.encrypted_responses@.len() == self.commitments@.len() && self.merkle_root@
                == zero_digest()
        }
    }
}

/// Which result record creation owes for the given field lengths and
/// category: the first ceiling exceeded decides, and creation succeeds if
/// and only if every ceiling holds.
pub open spec fn create_outcome(
    id_len: nat,
    semester_len: nat,
    campaign_type: u8,
    blind_key_len: nat,
    enc_key_len: nat,
) -> Result<(), CampaignError> {
    if id_len > MAX_CAMPAIGN_ID_LEN {
        Err(CampaignError::CampaignIdTooLong)
    } else if semester_len > MAX_SEMESTER_LEN {
        Err(CampaignError::SemesterTooLong)
    } else if campaign_type > 1 {
        Err(CampaignError::InvalidCampaignType)
    } else if blind_key_len > MAX_PUBLIC_KEY_LEN {
        Err(CampaignError::PublicKeyTooLong)
    } else if enc_key_len > MAX_PUBLIC_KEY_LEN {
        Err(CampaignError::PublicKeyTooLong)
    } else {
        Ok(())
    }
}

/// Creates a record in the open state, owned by `authority`: counters at
/// zero, no entries, the all-zero root, and both timestamps at `now`.
/// Fails, creating nothing, exactly when a field exceeds its ceiling or the
/// category is invalid.
pub fn create_campaign(
    authority: [u8; 32],
    campaign_id: String,
    semester: String,
    campaign_type: u8,
    blind_signature_public_key: Vec<u8>,
    encryption_public_key: Vec<u8>,
    now: i64,
) -> (result: Result<SurveyCampaign, CampaignError>)
    ensures
        match result {
            Ok(c) => {
                &&& create_outcome(
                    campaign_id@.len(),
                    semester@.len(),
                    campaign_type,
                    blind_signature_public_key@.len(),
                    encryption_public_key@.len(),
                ) == Ok::<(), CampaignError>(())
                &&& c.wf()
                &&& c.authority == authority
                &&& c.campaign_id@ == campaign_id@
                &&& c.semester@ == semester@
                &&& c.campaign_type == campaign_type
                &&& c.total_responses == 0
                &&& c.created_at == now
                &&& c.updated_at == now
                &&& !c.is_published
                &&& c.merkle_root@ == zero_digest()
                &&& c.commitments@.len() == 0
                &&& c.encrypted_responses@.len() == 0
                &&& c.blind_signature_public_key@ == blind_signature_public_key@
                &&& c.encryption_public_key@ == encryption_public_key@
            },
            Err(e) => create_outcome(
                campaign_id@.len(),
                semester@.len(),
                campaign_type,
                blind_signature_public_key@.len(),
                encryption_public_key@.len(),
            ) == Err::<(), CampaignError>(e),
        },
{
    if campaign_id.as_str().unicode_len() > MAX_CAMPAIGN_ID_LEN {
        return Err(CampaignError::CampaignIdTooLong);
    }
    if semester.as_str().unicode_len() > MAX_SEMESTER_LEN {
        return Err(CampaignError::SemesterTooLong);
    }
    if campaign_type > 1 {
        return Err(CampaignError::InvalidCampaignType);
    }
    if blind_signature_public_key.len() > MAX_PUBLIC_KEY_LEN {
        return Err(CampaignError::PublicKeyTooLong);
    }
    if encryption_public_key.len() > MAX_PUBLIC_KEY_LEN {
        return Err(CampaignError::PublicKeyTooLong);
    }
    Ok(
        SurveyCampaign {
            authority,
            campaign_id,
            semester,
            campaign_type,
            total_responses: 0,
            created_at: now,
            updated_at: now,
            is_published: false,
            merkle_root: zero_digest_bytes(),
            encrypted_responses: Vec::new(),
            commitments: Vec::new(),
            blind_signature_public_key,
            encryption_public_key,
        },
    )
}

/// Which result an authority-only batch append owes: a sealed record rejects
/// everything, then only the authority may proceed, the two arrays must pair
/// up, and the counter must stay representable; only then does the batch go
/// in.
pub open spec fn batch_outcome(
    published: bool,
    authority: Seq<u8>,
    caller: Seq<u8>,
    n_commitments: nat,
    n_payloads: nat,
    total: u32,
) -> Result<(), CampaignError> {
    if published {
        Err(CampaignError::CampaignAlreadyPublished)
    } else if caller != authority {
        Err(CampaignError::Unauthorized)
    } else if n_commitments != n_payloads {
        Err(CampaignError::MismatchedDataLength)
    } else if total + n_commitments > u32::MAX {
        Err(CampaignError::CounterOverflow)
    } else {
        Ok(())
    }
}

/// Appends a batch of commitments and their encrypted payloads, in order,
/// on behalf of the record's authority. On success both collections grow by
/// the batch, the counter grows by its length, and `updated_at` moves to
/// `now`; on any failure the record is untouched.
pub fn submit_batch_responses(
    campaign: &mut SurveyCampaign,
    caller: [u8; 32],
    commitments: Vec<[u8; 32]>,
    encrypted_responses: Vec<[u8; 256]>,
    now: i64,
) -> (result: Result<(), CampaignError>)
    ensures
        result == batch_outcome(
            old(campaign).is_published,
            old(campaign).authority@,
            caller@,
            commitments@.len(),
            encrypted_responses@.len(),
            old(campaign).total_responses,
        ),
        result is Err ==> *final(campaign) == *old(campaign),
        result is Ok ==> {
            &&& final(campaign).commitments@ == old(campaign).commitments@ + commitments@
            &&& final(campaign).encrypted_responses@ == old(campaign).encrypted_responses@
                + encrypted_responses@
            &&& final(campaign).total_responses == old(campaign).total_responses
                + commitments@.len()
            &&& final(campaign).updated_at == now
            &&& final(campaign).authority == old(campaign).authority
            &&& final(campaign).campaign_id == old(campaign).campaign_id
            &&& final(campaign).semester == old(campaign).semester
            &&& final(campaign).campaign_type == old(campaign).campaign_type
            &&& final(campaign).created_at == old(campaign).created_at
            &&& final(campaign).is_published == old(campaign).is_published
            &&& final(campaign).merkle_root == old(campaign).merkle_root
            &&& final(campaign).blind_signature_public_key == old(
                campaign,
            ).blind_signature_public_key
            &&& final(campaign).encryption_public_key == old(campaign).encryption_public_key
        },
        old(campaign).wf() ==> final(campaign).wf(),
{
    if campaign.is_published {
        return Err(CampaignError::CampaignAlreadyPublished);
    }
    if !digests_equal(&caller, &campaign.authority) {
        return Err(CampaignError::Unauthorized);
    }
    if commitments.len() != encrypted_responses.len() {
        return Err(CampaignError::MismatchedDataLength);
    }
    let headroom = u32::MAX - campaign.total_responses;
    if commitments.len() > headroom as usize {
        return Err(CampaignError::CounterOverflow);
    }
    let count = commitments.len() as u32;
    let mut commitments = commitments;
    let mut encrypted_responses = encrypted_responses;
    campaign.commitments.append(&mut commitments);
    campaign.encrypted_responses.append(&mut encrypted_responses);
    campaign.total_responses = campaign.total_responses + count;
    campaign.updated_at = now;
    Ok(())
}

/// Which result open single-response submission owes: a sealed record
/// rejects everything, and an open one accepts any caller until the
/// single-submission ceiling is reached.
pub open spec fn single_outcome(published: bool, total: u32) -> Result<(), CampaignError> {
    if published {
        Err(CampaignError::CampaignAlreadyPublished)
    } else if total >= MAX_SINGLE_RESPONSES {
        Err(CampaignError::RecordFull)
    } else {
        Ok(())
    }
}

/// Appends one commitment and its encrypted payload through the open
/// participant-submission path: any caller is accepted, but only until the
/// record holds `MAX_SINGLE_RESPONSES` responses. On success both
/// collections grow by the entry and `updated_at` moves to `now`; on any
/// failure the record is untouched.
pub fn submit_response(
    campaign: &mut SurveyCampaign,
    commitment: [u8; 32],
    encrypted_response: [u8; 256],
    now: i64,
) -> (result: Result<(), CampaignError>)
    ensures
        result == single_outcome(old(campaign).is_published, old(campaign).total_responses),
        result is Err ==> *final(campaign) == *old(campaign),
        result is Ok ==> {
            &&& final(campaign).commitments@ == old(campaign).commitments@.push(commitment)
            &&& final(campaign).encrypted_responses@ == old(
                campaign,
            ).encrypted_responses@.push(encrypted_response)
            &&& final(campaign).total_responses == old(campaign).total_responses + 1
            &&& final(campaign).updated_at == now
            &&& final(campaign).authority == old(campaign).authority
            &&& final(campaign).campaign_id == old(campaign).campaign_id
            &&& final(campaign).semester == old(campaign).semester
            &&& final(campaign).campaign_type == old(campaign).campaign_type
            &&& final(campaign).created_at == old(campaign).created_at
            &&& final(campaign).is_published == old(campaign).is_published
            &&& final(campaign).merkle_root == old(campaign).merkle_root
            &&& final(campaign).blind_signature_public_key == old(
                campaign,
            ).blind_signature_public_key
            &&& final(campaign).encryption_public_key == old(campaign).encryption_public_key
        },
        old(campaign).wf() ==> final(campaign).wf(),
{
    if campaign.is_published {
        return Err(CampaignError::CampaignAlreadyPublished);
    }
    if campaign.total_responses >= MAX_SINGLE_RESPONSES {
        return Err(CampaignError::RecordFull);
    }
    campaign.commitments.push(commitment);
    campaign.encrypted_responses.push(encrypted_response);
    campaign.total_responses = campaign.total_responses + 1;
    campaign.updated_at = now;
    Ok(())
}

/// Which result sealing owes: only the authority may seal, a sealed record
/// never seals again, and a record without responses cannot be sealed.
pub open spec fn publish_outcome(
    published: bool,
    authority: Seq<u8>,
    caller: Seq<u8>,
    total: u32,
) -> Result<(), CampaignError> {
    if caller != authority {
        Err(CampaignError::Unauthorized)
    } else if published {
        Err(CampaignError::CampaignAlreadyPublished)
    } else if total == 0 {
        Err(CampaignError::NoResponsesSubmitted)
    } else {
        Ok(())
    }
}

/// Seals the record with a root computed off-band over its commitments and
/// stored verbatim. On success the record becomes published, the payloads
/// are purged, the commitments and counter are untouched, and `updated_at`
/// moves to `now`; on any failure the record is untouched.
pub fn publish_campaign_results(
    campaign: &mut SurveyCampaign,
    caller: [u8; 32],
    merkle_root: [u8; 32],
    now: i64,
) -> (result: Result<(), CampaignError>)
    ensures
        result == publish_outcome(
            old(campaign).is_published,
            old(campaign).authority@,
            caller@,
            old(campaign).total_responses,
        ),
        result is Err ==> *final(campaign) == *old(campaign),
        result is Ok ==> {
            &&& final(campaign).is_published
            &&& final(campaign).merkle_root == merkle_root
            &&& final(campaign).encrypted_responses@.len() == 0
            &&& final(campaign).commitments@ == old(campaign).commitments@
            &&& final(campaign).total_responses == old(campaign).total_responses
            &&& final(campaign).updated_at == now
            &&& final(campaign).authority == old(campaign).authority
            &&& final(campaign).campaign_id == old(campaign).campaign_id
            &&& final(campaign).semester == old(campaign).semester
            &&& final(campaign).campaign_type == old(campaign).campaign_type
            &&& final(campaign).created_at == old(campaign).created_at
            &&& final(campaign).blind_signature_public_key == old(
                campaign,
            ).blind_signature_public_key
            &&& final(campaign).encryption_public_key == old(campaign).encryption_public_key
        },
        old(campaign).wf() ==> final(campaign).wf(),
{
    if !digests_equal(&caller, &campaign.authority) {
        return Err(CampaignError::Unauthorized);
    }
    if campaign.is_published {
        return Err(CampaignError::CampaignAlreadyPublished);
    }
    if campaign.total_responses == 0 {
        return Err(CampaignError::NoResponsesSubmitted);
    }
    campaign.merkle_root = merkle_root;
    campaign.is_published = true;
    campaign.updated_at = now;
    campaign.encrypted_responses.clear();
    Ok(())
}

/// Seals the record with the root the ledger computes itself over its own
/// ordered commitments. Otherwise exactly like sealing with a precomputed
/// root: payloads purged, commitments kept, `updated_at` at `now`, and the
/// record untouched on any failure.
pub fn publish_computed_campaign_results(
    campaign: &mut SurveyCampaign,
    caller: [u8; 32],
    now: i64,
) -> (result: Result<(), CampaignError>)
    ensures
        result == publish_outcome(
            old(campaign).is_published,
            old(campaign).authority@,
            caller@,
            old(campaign).total_responses,
        ),
        result is Err ==> *final(campaign) == *old(campaign),
        result is Ok ==> {
            &&& final(campaign).is_published
            &&& final(campaign).merkle_root@ == merkle_root_of(
                leaves_of(old(campaign).commitments@),
            )
            &&& final(campaign).encrypted_responses@.len() == 0
            &&& final(campaign).commitments@ == old(campaign).commitments@
            &&& final(campaign).total_responses == old(campaign).total_responses
            &&& final(campaign).updated_at == now
            &&& final(campaign).authority == old(campaign).authority
            &&& final(campaign).campaign_id == old(campaign).campaign_id
            &&& final(campaign).semester == old(campaign).semester
            &&& final(campaign).campaign_type == old(campaign).campaign_type
            &&& final(campaign).created_at == old(campaign).created_at
            &&& final(campaign).blind_signature_public_key == old(
                campaign,
            ).blind_signature_public_key
            &&& final(campaign).encryption_public_key == old(campaign).encryption_public_key
        },
        old(campaign).wf() ==> final(campaign).wf(),
{
    if !digests_equal(&caller, &campaign.authority) {
        return Err(CampaignError::Unauthorized);
    }
    if campaign.is_published {
        return Err(CampaignError::CampaignAlreadyPublished);
    }
    if campaign.total_responses == 0 {
        return Err(CampaignError::NoResponsesSubmitted);
    }
    let root = build_root(&campaign.commitments);
    campaign.merkle_root = root;
    campaign.is_published = true;
    campaign.updated_at = now;
    campaign.encrypted_responses.clear();
    Ok(())
}

/// While a record is open, reading it shows as many payloads as
/// commitments, and the response counter equals both; appends preserve
/// well-formedness, so this holds after every append.
pub proof fn lemma_open_record_counts(c: SurveyCampaign)
    requires
        c.wf(),
        !c.is_published,
    ensures
        c.commitments@.len() == c.encrypted_responses@.len(),
        c.total_responses as nat == c.commitments@.len(),
{
}

/// Storage sizing is monotonically non-decreasing in the number of entries,
/// for the unsealed and for the sealed layout alike.
pub proof fn lemma_size_monotone(m: nat, n: nat)
    requires
        m <= n,
    ensures
        SurveyCampaign::spec_size_for_responses(m) <= SurveyCampaign::spec_size_for_responses(n),
        SurveyCampaign::spec_size_after_publishing(m)
            <= SurveyCampaign::spec_size_after_publishing(n),
{
}

/// Sealing reclaims storage: with at least one entry, the sealed layout is
/// strictly smaller than the unsealed one for the same entry count.
pub proof fn lemma_sealed_size_smaller(n: nat)
    requires
        n > 0,
    ensures
        SurveyCampaign::spec_size_after_publishing(n) < SurveyCampaign::spec_size_for_responses(n),
{
}

/// A record seals at most once: once published, no sealing attempt by any
/// caller succeeds, and the authority itself is told the record is already
/// published.
pub proof fn lemma_publish_only_once(authority: Seq<u8>, caller: Seq<u8>, total: u32)
    ensures
        publish_outcome(true, authority, caller, total) is Err,
        caller == authority ==> publish_outcome(true, authority, caller, total) == Err::<
            (),
            CampaignError,
        >(CampaignError::CampaignAlreadyPublished),
{
}

/// Authority gating: a caller other than the declared authority never gets
/// past the outcome checks of batch append, sealing, or the aggregate
/// update, so no such call ever mutates authority-gated state; an open
/// record answers it with `Unauthorized`, and sealing and the aggregate
/// update answer it with `Unauthorized` in every state.
pub proof fn lemma_unauthorized_never_mutates(
    published: bool,
    authority: Seq<u8>,
    caller: Seq<u8>,
    n_commitments: nat,
    n_payloads: nat,
    total: u32,
)
    requires
        caller != authority,
    ensures
        batch_outcome(published, authority, caller, n_commitments, n_payloads, total) is Err,
        !published ==> batch_outcome(published, authority, caller, n_commitments, n_payloads, total)
            == Err::<(), CampaignError>(CampaignError::Unauthorized),
        publish_outcome(published, authority, caller, total) == Err::<(), CampaignError>(
            CampaignError::Unauthorized,
        ),
        crate::university::update_outcome(authority, caller) == Err::<(), CampaignError>(
            CampaignError::Unauthorized,
        ),
{
}

} // verus!
