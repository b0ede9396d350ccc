use anonymous_survey::CampaignError;
use anonymous_survey::SurveyCampaign;
use anonymous_survey::build_root;
use anonymous_survey::create_campaign;
use anonymous_survey::publish_campaign_results;
use anonymous_survey::publish_computed_campaign_results;
use anonymous_survey::submit_batch_responses;
use anonymous_survey::submit_response;

const AUTH: [u8; 32] = [11u8; 32];
const OTHER: [u8; 32] = [22u8; 32];

fn fresh_campaign() -> SurveyCampaign {
    create_campaign(
        AUTH,
        String::from("course-eval-2024"),
        String::from("fall"),
        0,
        vec![1u8; 294],
        vec![2u8; 294],
        1_000,
    )
    .unwrap()
}

#[test]
fn create_sets_initial_state() {
    let c = fresh_campaign();
    assert_eq!(c.authority, AUTH);
    assert_eq!(c.campaign_id, "course-eval-2024");
    assert_eq!(c.semester, "fall");
    assert_eq!(c.campaign_type, 0);
    assert_eq!(c.total_responses, 0);
    assert_eq!(c.created_at, 1_000);
    assert_eq!(c.updated_at, 1_000);
    assert!(!c.is_published);
    assert_eq!(c.merkle_root, [0u8; 32]);
    assert!(c.commitments.is_empty());
    assert!(c.encrypted_responses.is_empty());
}

#[test]
fn create_accepts_identifier_at_the_ceiling() {
    let r = create_campaign(
        AUTH,
        "a".repeat(50),
        "b".repeat(20),
        1,
        vec![0u8; 300],
        vec![0u8; 300],
        0,
    );
    assert!(r.is_ok());
}

#[test]
fn create_rejects_long_campaign_id() {
    let r = create_campaign(AUTH, "a".repeat(51), String::from("fall"), 0, vec![], vec![], 0);
    assert_eq!(r.err(), Some(CampaignError::CampaignIdTooLong));
}

#[test]
fn create_rejects_long_semester() {
    let r = create_campaign(AUTH, String::from("id"), "b".repeat(21), 0, vec![], vec![], 0);
    assert_eq!(r.err(), Some(CampaignError::SemesterTooLong));
}

#[test]
fn create_rejects_invalid_campaign_type() {
    let r = create_campaign(AUTH, String::from("id"), String::from("fall"), 2, vec![], vec![], 0);
    assert_eq!(r.err(), Some(CampaignError::InvalidCampaignType));
}

#[test]
fn create_rejects_long_blind_signature_key() {
    let r = create_campaign(
        AUTH,
        String::from("id"),
        String::from("fall"),
        0,
        vec![0u8; 301],
        vec![],
        0,
    );
    assert_eq!(r.err(), Some(CampaignError::PublicKeyTooLong));
}

#[test]
fn create_rejects_long_encryption_key() {
    let r = create_campaign(
        AUTH,
        String::from("id"),
        String::from("fall"),
        0,
        vec![0u8; 300],
        vec![0u8; 301],
        0,
    );
    assert_eq!(r.err(), Some(CampaignError::PublicKeyTooLong));
}

#[test]
fn batch_append_grows_collections_in_order() {
    let mut c = fresh_campaign();
    let commitments = vec![[1u8; 32], [2u8; 32]];
    let payloads = vec![[9u8; 256], [8u8; 256]];
    let r = submit_batch_responses(&mut c, AUTH, commitments.clone(), payloads.clone(), 2_000);
    assert_eq!(r, Ok(()));
    assert_eq!(c.commitments, commitments);
    assert_eq!(c.encrypted_responses, payloads);
    assert_eq!(c.total_responses, 2);
    assert_eq!(c.updated_at, 2_000);
    assert_eq!(c.commitments.len(), c.encrypted_responses.len());
    assert_eq!(c.total_responses as usize, c.commitments.len());
}

#[test]
fn batch_append_rejects_mismatched_lengths() {
    let mut c = fresh_campaign();
    let r = submit_batch_responses(&mut c, AUTH, vec![[1u8; 32]], vec![], 2_000);
    assert_eq!(r, Err(CampaignError::MismatchedDataLength));
    assert_eq!(c.total_responses, 0);
    assert!(c.commitments.is_empty());
}

#[test]
fn batch_append_rejects_non_authority_and_leaves_record_unchanged() {
    let mut c = fresh_campaign();
    let r = submit_batch_responses(&mut c, OTHER, vec![[1u8; 32]], vec![[0u8; 256]], 2_000);
    assert_eq!(r, Err(CampaignError::Unauthorized));
    assert!(c.commitments.is_empty());
    assert!(c.encrypted_responses.is_empty());
    assert_eq!(c.total_responses, 0);
    assert_eq!(c.updated_at, 1_000);
}

#[test]
fn batch_append_rejects_published_record() {
    let mut c = fresh_campaign();
    submit_batch_responses(&mut c, AUTH, vec![[1u8; 32]], vec![[0u8; 256]], 2_000).unwrap();
    publish_campaign_results(&mut c, AUTH, [7u8; 32], 3_000).unwrap();
    let r = submit_batch_responses(&mut c, AUTH, vec![[2u8; 32]], vec![[0u8; 256]], 4_000);
    assert_eq!(r, Err(CampaignError::CampaignAlreadyPublished));
    assert_eq!(c.total_responses, 1);
}

#[test]
fn batch_append_rejects_counter_overflow() {
    let mut c = fresh_campaign();
    c.total_responses = u32::MAX;
    let r = submit_batch_responses(&mut c, AUTH, vec![[1u8; 32]], vec![[0u8; 256]], 2_000);
    assert_eq!(r, Err(CampaignError::CounterOverflow));
}

#[test]
fn single_submission_accepts_any_caller_until_full() {
    let mut c = fresh_campaign();
    for i in 0..10u8 {
        let r = submit_response(&mut c, [i; 32], [i; 256], 2_000 + i as i64);
        assert_eq!(r, Ok(()));
    }
    assert_eq!(c.total_responses, 10);
    let r = submit_response(&mut c, [99u8; 32], [99u8; 256], 3_000);
    assert_eq!(r, Err(CampaignError::RecordFull));
    assert_eq!(c.total_responses, 10);
}

#[test]
fn single_submission_rejects_published_record() {
    let mut c = fresh_campaign();
    submit_response(&mut c, [1u8; 32], [1u8; 256], 2_000).unwrap();
    publish_campaign_results(&mut c, AUTH, [7u8; 32], 3_000).unwrap();
    let r = submit_response(&mut c, [2u8; 32], [2u8; 256], 4_000);
    assert_eq!(r, Err(CampaignError::CampaignAlreadyPublished));
}

#[test]
fn publish_stores_precomputed_root_and_purges_payloads() {
    let mut c = fresh_campaign();
    let commitments = vec![[1u8; 32], [2u8; 32], [3u8; 32]];
    let payloads = vec![[9u8; 256], [8u8; 256], [7u8; 256]];
    submit_batch_responses(&mut c, AUTH, commitments.clone(), payloads, 2_000).unwrap();
    let before = c.commitments.clone();
    let root = [42u8; 32];
    let r = publish_campaign_results(&mut c, AUTH, root, 3_000);
    assert_eq!(r, Ok(()));
    assert!(c.is_published);
    assert_eq!(c.merkle_root, root);
    assert!(c.encrypted_responses.is_empty());
    assert_eq!(c.commitments, before);
    assert_eq!(c.total_responses, 3);
    assert_eq!(c.updated_at, 3_000);
}

#[test]
fn publish_rejects_non_authority_and_leaves_record_unchanged() {
    let mut c = fresh_campaign();
    submit_batch_responses(&mut c, AUTH, vec![[1u8; 32]], vec![[0u8; 256]], 2_000).unwrap();
    let r = publish_campaign_results(&mut c, OTHER, [7u8; 32], 3_000);
    assert_eq!(r, Err(CampaignError::Unauthorized));
    assert!(!c.is_published);
    assert_eq!(c.merkle_root, [0u8; 32]);
    assert_eq!(c.encrypted_responses.len(), 1);
    assert_eq!(c.updated_at, 2_000);
}

#[test]
fn publish_rejects_empty_record() {
    let mut c = fresh_campaign();
    let r = publish_campaign_results(&mut c, AUTH, [7u8; 32], 3_000);
    assert_eq!(r, Err(CampaignError::NoResponsesSubmitted));
    assert!(!c.is_published);
}

#[test]
fn second_publish_always_fails() {
    let mut c = fresh_campaign();
    submit_batch_responses(&mut c, AUTH, vec![[1u8; 32]], vec![[0u8; 256]], 2_000).unwrap();
    publish_campaign_results(&mut c, AUTH, [7u8; 32], 3_000).unwrap();
    let r = publish_campaign_results(&mut c, AUTH, [8u8; 32], 4_000);
    assert_eq!(r, Err(CampaignError::CampaignAlreadyPublished));
    assert_eq!(c.merkle_root, [7u8; 32]);
    let r2 = publish_computed_campaign_results(&mut c, AUTH, 5_000);
    assert_eq!(r2, Err(CampaignError::CampaignAlreadyPublished));
}

#[test]
fn end_to_end_batch_then_computed_publish() {
    let mut c = fresh_campaign();
    assert_eq!(c.total_responses, 0);
    let commitments = vec![[1u8; 32], [2u8; 32], [3u8; 32]];
    let payloads = vec![[9u8; 256], [8u8; 256], [7u8; 256]];
    submit_batch_responses(&mut c, AUTH, commitments.clone(), payloads, 2_000).unwrap();
    assert_eq!(c.total_responses, 3);
    let r = publish_computed_campaign_results(&mut c, AUTH, 3_000);
    assert_eq!(r, Ok(()));
    assert!(c.is_published);
    assert_eq!(c.merkle_root, build_root(&commitments));
    assert!(c.encrypted_responses.is_empty());
    assert_eq!(c.commitments, commitments);
}

#[test]
fn size_for_responses_matches_layout() {
    assert_eq!(SurveyCampaign::BASE_LEN, 780);
    assert_eq!(SurveyCampaign::LEN, SurveyCampaign::BASE_LEN);
    assert_eq!(SurveyCampaign::calculate_size_for_responses(0), 780);
    assert_eq!(SurveyCampaign::calculate_size_for_responses(10), 780 + 10 * 288);
}

#[test]
fn sealed_size_is_smaller_and_sizes_are_monotone() {
    assert_eq!(SurveyCampaign::calculate_size_after_publishing(10), 780 + 10 * 32);
    for n in 1..20u32 {
        assert!(
            SurveyCampaign::calculate_size_after_publishing(n)
                < SurveyCampaign::calculate_size_for_responses(n)
        );
        assert!(
            SurveyCampaign::calculate_size_for_responses(n - 1)
                <= SurveyCampaign::calculate_size_for_responses(n)
        );
    }
}
