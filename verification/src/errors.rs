use vstd::prelude::*;

verus! {

/// Failures surfaced by record and aggregate operations. Every one is a
/// precondition check made before any mutation: an operation either fully
/// applies or fails with the state unchanged.
#[derive(Clone, Copy, Debug, PartialEq, Eq, Structural)]
pub enum CampaignError {
    /// The record was already sealed; no further mutation is accepted.
    CampaignAlreadyPublished,
    /// The record identifier exceeds its length ceiling.
    CampaignIdTooLong,
    /// The semester tag exceeds its length ceiling.
    SemesterTooLong,
    /// The category value lies outside its enumerated set.
    InvalidCampaignType,
    /// A public key blob exceeds its length ceiling.
    PublicKeyTooLong,
    /// The caller is not the record's declared authority.
    Unauthorized,
    /// Sealing was requested while the record holds no responses.
    NoResponsesSubmitted,
    /// A batch carried differing numbers of commitments and payloads.
    MismatchedDataLength,
    /// Open single-response submission reached its per-record ceiling.
    RecordFull,
    /// The response counter would exceed its maximum representable value.
    CounterOverflow,
}

} // verus!
