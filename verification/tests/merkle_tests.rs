use anonymous_survey::build_root;
use anonymous_survey::combine_digests;
use anonymous_survey::digests_equal;
use anonymous_survey::zero_digest_bytes;
use sha2::Digest;

fn sha_pair(a: &[u8; 32], b: &[u8; 32]) -> [u8; 32] {
    let mut buf = [0u8; 64];
    buf[..32].copy_from_slice(a);
    buf[32..].copy_from_slice(b);
    sha2::Sha256::digest(buf).into()
}

#[test]
fn zero_digest_is_all_zero() {
    assert_eq!(zero_digest_bytes(), [0u8; 32]);
}

#[test]
fn combine_matches_sha256_of_concatenation() {
    let a = [1u8; 32];
    let b = [2u8; 32];
    let combined = combine_digests(&a, &b);
    assert_eq!(combined, sha_pair(&a, &b));
    assert_ne!(combined, a);
    assert_ne!(combined, b);
}

#[test]
fn digests_equal_agrees_with_bytewise_equality() {
    let a = [7u8; 32];
    let mut b = [7u8; 32];
    assert!(digests_equal(&a, &b));
    b[31] = 8;
    assert!(!digests_equal(&a, &b));
}

#[test]
fn root_of_empty_list_is_zero() {
    let commitments: Vec<[u8; 32]> = Vec::new();
    assert_eq!(build_root(&commitments), [0u8; 32]);
}

#[test]
fn root_of_single_commitment_is_itself() {
    let c = [9u8; 32];
    assert_eq!(build_root(&vec![c]), c);
}

#[test]
fn root_of_pair_is_hash_of_concatenation() {
    let a = [1u8; 32];
    let b = [2u8; 32];
    assert_eq!(build_root(&vec![a, b]), sha_pair(&a, &b));
}

#[test]
fn odd_node_is_carried_not_duplicated() {
    let a = [1u8; 32];
    let b = [2u8; 32];
    let c = [3u8; 32];
    let expected = sha_pair(&sha_pair(&a, &b), &c);
    assert_eq!(build_root(&vec![a, b, c]), expected);
}

#[test]
fn five_leaves_carry_the_odd_node_through_two_levels() {
    let a = [1u8; 32];
    let b = [2u8; 32];
    let c = [3u8; 32];
    let d = [4u8; 32];
    let e = [5u8; 32];
    let ab = sha_pair(&a, &b);
    let cd = sha_pair(&c, &d);
    let abcd = sha_pair(&ab, &cd);
    let expected = sha_pair(&abcd, &e);
    assert_eq!(build_root(&vec![a, b, c, d, e]), expected);
}

#[test]
fn root_is_order_sensitive() {
    let a = [1u8; 32];
    let b = [2u8; 32];
    assert_ne!(build_root(&vec![a, b]), build_root(&vec![b, a]));
    let c = [3u8; 32];
    assert_ne!(build_root(&vec![a, b, c]), build_root(&vec![c, b, a]));
}
