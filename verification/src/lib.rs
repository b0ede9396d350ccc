//! Append-only, authority-gated record store for anonymous survey
//! responses, built around a two-phase commitment scheme: encrypted
//! payloads collected while a campaign is open, and a Merkle root over the
//! ordered commitments once it is published.

pub mod campaign;
pub mod digest;
pub mod errors;
pub mod merkle;
pub mod university;

pub use crate::campaign::SurveyCampaign;
pub use crate::campaign::create_campaign;
pub use crate::campaign::publish_campaign_results;
pub use crate::campaign::publish_computed_campaign_results;
pub use crate::campaign::submit_batch_responses;
pub use crate::campaign::submit_response;
pub use crate::digest::combine_digests;
pub use crate::digest::digests_equal;
pub use crate::digest::zero_digest_bytes;
pub use crate::errors::CampaignError;
pub use crate::merkle::build_root;
pub use crate::university::UniversityPerformance;
pub use crate::university::initialize_final_root;
pub use crate::university::update_final_merkle_root;
