use api::infra::bcrypt::{stored_hash, verification_result, BcryptPasswordHash};
use api::shared::password_hash::PasswordHash;
use api::shared::validators::uuid;
use api::shared::validators::uuid::{uuid_outcome, FieldError};
use api::shared::vo::contribution::{CollaborativeEntityName, Contribution};
use api::domain::genre;

#[test]
fn uuid_accepts_hyphenated_simple_braced_and_urn_forms() {
    assert!(uuid("8115d6e2-e15f-42dc-8858-edd305805a7d").is_ok());
    assert!(uuid("8115d6e2e15f42dc8858edd305805a7d").is_ok());
    assert!(uuid("{8115d6e2-e15f-42dc-8858-edd305805a7d}").is_ok());
    assert!(uuid("urn:uuid:8115d6e2-e15f-42dc-8858-edd305805a7d").is_ok());
}

#[test]
fn uuid_refuses_other_text() {
    let err = uuid("not-a-uuid").unwrap_err();
    assert_eq!(err, FieldError::InvalidUuid);
    assert_eq!(err.code(), "Invalid UUID");
    assert_eq!(err.to_validation_error().code, "Invalid UUID");
    assert!(uuid("").is_err());
    assert!(uuid("8115d6e2-e15f-42dc-8858-edd305805a7").is_err());
}

#[test]
fn uuid_outcome_follows_the_parse() {
    assert!(uuid_outcome(true).is_ok());
    assert_eq!(uuid_outcome(false), Err(FieldError::InvalidUuid));
}

#[test]
fn password_verifies_against_its_own_hash() {
    let hasher = BcryptPasswordHash;
    let hash = hasher.hash_password("hunter2");
    assert_eq!(hash.len(), 60);
    assert!(hash.starts_with("$2b$10$"));
    assert!(hasher.verify_password("hunter2", &hash));
    assert!(!hasher.verify_password("hunter3", &hash));
}

#[test]
fn two_hashes_of_one_password_differ_and_both_verify() {
    let hasher = BcryptPasswordHash;
    let a = hasher.hash_password("secret");
    let b = hasher.hash_password("secret");
    assert_ne!(a, b);
    assert!(hasher.verify_password("secret", &a));
    assert!(hasher.verify_password("secret", &b));
}

#[test]
fn malformed_hash_verifies_nothing() {
    let hasher = BcryptPasswordHash;
    assert!(!hasher.verify_password("anything", ""));
    assert!(!hasher.verify_password("anything", "$2b$10$short"));
}

#[test]
fn default_contribution_creates_an_empty_genre() {
    match Contribution::default() {
        Contribution::Genre(genre::Contribution::Create(g)) => {
            assert_eq!(g.name, "");
            assert_eq!(g.parent_id, None);
        }
        other => panic!("unexpected default contribution: {:?}", other),
    }
    assert_ne!(CollaborativeEntityName::Genre, CollaborativeEntityName::Album);
}

#[test]
fn stored_hash_and_verification_result_follow_the_outcome() {
    assert_eq!(stored_hash(Ok(String::from("h"))), "h");
    assert_eq!(stored_hash(Err(bcrypt::BcryptError::CostNotAllowed(2))), "");
    assert!(verification_result(Ok(true)));
    assert!(!verification_result(Ok(false)));
    assert!(!verification_result(Err(bcrypt::BcryptError::InvalidHash("bad"))));
}

#[test]
fn uuid_accepts_either_case_and_refuses_misplaced_hyphens() {
    assert!(uuid("URN:UUID:8115D6E2-E15F-42DC-8858-EDD305805A7D").is_ok());
    assert!(uuid("{8115d6e2-e15f-42dc-8858-edd305805a7d").is_err());
    assert!(uuid("8115d6e2e-15f-42dc-8858-edd305805a7d").is_err());
    assert!(uuid("8115d6e2-e15f-42dc-8858-edd305805a7g").is_err());
}
