use defguard_mfa::model::MfaError;
use defguard_mfa::token::{issue_token, parse_token, TOKEN_TTL_SECONDS};

const PUBKEY: &str = "AAAAAAAAAAAAAAAAAAAAAAAAAAAAAAAAAAAAAAAAAAA=";

#[test]
fn issued_token_names_its_subject() {
    let key = b"signing-key".to_vec();
    let token = issue_token(&key, PUBKEY, 1_000).unwrap();
    assert!(token.starts_with("desktop-client-mfa:00000000000000001300"));
    assert_eq!(parse_token(&key, &token, 1_000).unwrap(), PUBKEY);
    assert_eq!(parse_token(&key, &token, 1_299).unwrap(), PUBKEY);
}

#[test]
fn token_expires_after_its_lifetime() {
    let key = b"signing-key".to_vec();
    let token = issue_token(&key, PUBKEY, 1_000).unwrap();
    assert_eq!(TOKEN_TTL_SECONDS, 300);
    assert_eq!(parse_token(&key, &token, 1_300), Err(MfaError::InvalidArgument));
    assert_eq!(parse_token(&key, &token, 5_000), Err(MfaError::InvalidArgument));
}

#[test]
fn token_from_another_key_is_rejected() {
    let token = issue_token(&b"one key".to_vec(), PUBKEY, 1_000).unwrap();
    assert_eq!(
        parse_token(&b"other key".to_vec(), &token, 1_000),
        Err(MfaError::InvalidArgument)
    );
}

#[test]
fn token_with_altered_signature_is_rejected() {
    let key = b"signing-key".to_vec();
    let token = issue_token(&key, PUBKEY, 1_000).unwrap();
    let mut altered: Vec<char> = token.chars().collect();
    let last = altered.len() - 1;
    altered[last] = if altered[last] == 'A' { 'B' } else { 'A' };
    let altered: String = altered.into_iter().collect();
    assert_eq!(parse_token(&key, &altered, 1_000), Err(MfaError::InvalidArgument));
}

#[test]
fn token_with_altered_subject_is_rejected() {
    let key = b"signing-key".to_vec();
    let token = issue_token(&key, PUBKEY, 1_000).unwrap();
    let altered = token.replacen("AAAA", "BAAA", 1);
    assert_ne!(altered, token);
    assert_eq!(parse_token(&key, &altered, 1_000), Err(MfaError::InvalidArgument));
}

#[test]
fn malformed_tokens_are_rejected() {
    let key = b"signing-key".to_vec();
    for token in ["", "garbage", "desktop-client-mfa:", "x.y.z"] {
        assert_eq!(parse_token(&key, token, 0), Err(MfaError::InvalidArgument));
    }
    let other_purpose = issue_token(&key, PUBKEY, 1_000)
        .unwrap()
        .replacen("desktop-client-mfa", "password-reset-xyz", 1);
    assert_eq!(parse_token(&key, &other_purpose, 1_000), Err(MfaError::InvalidArgument));
}

#[test]
fn expiry_past_the_clock_range_is_internal() {
    let key = b"signing-key".to_vec();
    assert_eq!(issue_token(&key, PUBKEY, u64::MAX - 10), Err(MfaError::Internal));
    assert!(issue_token(&key, PUBKEY, u64::MAX - 300).is_ok());
}

#[test]
fn signature_depends_on_the_key() {
    let a = issue_token(&b"one key".to_vec(), PUBKEY, 7).unwrap();
    let b = issue_token(&b"other key".to_vec(), PUBKEY, 7).unwrap();
    assert_ne!(a, b);
    let claims_len = 60 + PUBKEY.len();
    assert_eq!(a[..claims_len], b[..claims_len]);
    assert_eq!(&a[claims_len..claims_len + 1], ".");
    assert!(a.len() > claims_len + 1);
}

#[test]
fn empty_subject_round_trips() {
    let key = b"k".to_vec();
    let token = issue_token(&key, "", 0).unwrap();
    assert_eq!(parse_token(&key, &token, 299).unwrap(), "");
}
