use base64::Engine;
use paper_raid_bff::error::AppError;
use paper_raid_bff::identity::{AlphaIdentity, AlphaIdentityScope};
use paper_raid_bff::json::JsonValue;
use paper_raid_bff::registration::{
    build_human_registration_challenge, human_registration_challenge, human_registration_claim,
    registration_challenge_from_proof, with_claim_signing_bytes, validate_recovered_human_player, HumanRegistrationProof,
};
use sha2::{Digest, Sha256};

const SCHEMA: &str = "hepta.human_key_registration.v2";

fn identity() -> AlphaIdentity {
    AlphaIdentity {
        player_id: 0x1111_1111_1111_4111_8111_1111_1111_1111,
        subject_id: "subject-alpha".to_string(),
        nakama_user_id: 0x2222_2222_2222_4222_8222_2222_2222_2222,
        display_name: "Alpha".to_string(),
        scopes: vec![AlphaIdentityScope::Author],
        author_roles: Vec::new(),
    }
}

fn public_key() -> [u8; 32] {
    ed25519_dalek::SigningKey::from_bytes(&[7_u8; 32])
        .verifying_key()
        .to_bytes()
}

fn base64(bytes: &[u8]) -> String {
    base64::engine::general_purpose::STANDARD.encode(bytes)
}

/// The idempotency key as the registration protocol defines it, computed
/// incrementally.
fn expected_idempotency(identity: &AlphaIdentity, key: &[u8], issued: i64) -> u128 {
    fn field(hasher: &mut Sha256, value: &[u8]) {
        hasher.update((value.len() as u32).to_be_bytes());
        hasher.update(value);
    }
    let mut hasher = Sha256::new();
    hasher.update(b"paper_raid_bff_human_registration_idempotency_v1\0");
    field(&mut hasher, identity.subject_id.as_bytes());
    field(&mut hasher, uuid::Uuid::from_u128(identity.player_id).as_bytes());
    field(&mut hasher, uuid::Uuid::from_u128(identity.nakama_user_id).as_bytes());
    field(&mut hasher, key);
    hasher.update(issued.to_be_bytes());
    let digest = hasher.finalize();
    let mut bytes: [u8; 16] = digest[..16].try_into().expect("sixteen bytes");
    bytes[6] = (bytes[6] & 0x0f) | 0x50;
    bytes[8] = (bytes[8] & 0x3f) | 0x80;
    uuid::Uuid::from_bytes(bytes).as_u128()
}

const ISSUED: i64 = 1_786_406_400;

#[test]
fn challenges_are_server_derived_from_identity_key_and_bucket() {
    let id = identity();
    let key = public_key();
    let key_text = base64(&key);
    let challenge = build_human_registration_challenge(&id, SCHEMA, &key_text, ISSUED, ISSUED + 17)
        .expect("challenge");
    let key_digest = hex::encode(Sha256::digest(key));
    assert_eq!(challenge.schema, SCHEMA);
    assert_eq!(challenge.player_id, id.player_id);
    assert_eq!(challenge.subject_id, "subject-alpha");
    assert_eq!(challenge.nakama_user_id, id.nakama_user_id);
    assert_eq!(challenge.display_name, "Alpha");
    assert_eq!(challenge.signing_key_id, format!("human-ed25519:{key_digest}"));
    assert_eq!(challenge.signing_public_key, key_text);
    assert_eq!(challenge.signing_public_key_hash, format!("sha256:{key_digest}"));
    assert_eq!(challenge.idempotency_key, expected_idempotency(&id, &key, ISSUED));
    assert_eq!(uuid::Uuid::from_u128(challenge.idempotency_key).get_version_num(), 5);
    assert_eq!(challenge.issued_at_unix, ISSUED);
    assert_eq!(challenge.expires_at_unix, ISSUED + 600);
    assert!(challenge.signing_bytes.is_empty());

    let later = build_human_registration_challenge(&id, SCHEMA, &key_text, ISSUED, ISSUED + 599)
        .expect("same bucket");
    assert_eq!(later.idempotency_key, challenge.idempotency_key);
    assert_eq!(later.signing_key_id, challenge.signing_key_id);
}

#[test]
fn challenges_refuse_other_windows_and_keys() {
    let id = identity();
    let key_text = base64(&public_key());
    for (issued, now) in [
        (ISSUED + 1, ISSUED + 1),
        (ISSUED, ISSUED - 1),
        (ISSUED, ISSUED + 600),
        (-300, 0),
    ] {
        assert!(matches!(
            build_human_registration_challenge(&id, SCHEMA, &key_text, issued, now),
            Err(AppError::Forbidden)
        ));
    }
    assert_eq!(
        build_human_registration_challenge(&id, SCHEMA, "not base64!", ISSUED, ISSUED).map(|_| ()),
        Err(AppError::Invalid("human signing public key must be canonical base64".to_string()))
    );
    assert_eq!(
        build_human_registration_challenge(&id, SCHEMA, &base64(&[1_u8; 31]), ISSUED, ISSUED).map(|_| ()),
        Err(AppError::Invalid(
            "human signing public key must be canonical padded base64 for 32 bytes".to_string()
        ))
    );
    let off_curve = (0_u8..=255)
        .map(|b| [b; 32])
        .find(|bytes| ed25519_dalek::VerifyingKey::from_bytes(bytes).is_err())
        .expect("some bytes are no point");
    assert_eq!(
        build_human_registration_challenge(&id, SCHEMA, &base64(&off_curve), ISSUED, ISSUED).map(|_| ()),
        Err(AppError::Invalid("human signing public key is not Ed25519".to_string()))
    );
}

fn recovery_proof(idempotency_key: u128, expires_at_unix: i64) -> HumanRegistrationProof {
    HumanRegistrationProof {
        signing_public_key: base64(&public_key()),
        idempotency_key,
        issued_at_unix: ISSUED,
        expires_at_unix,
        key_proof_signature: base64(&[0_u8; 64]),
    }
}

fn text(value: &str) -> JsonValue {
    JsonValue::String(value.to_string())
}

#[test]
fn recovery_proofs_name_their_challenge_and_registered_key() {
    let id = identity();
    let key = public_key();
    let good = expected_idempotency(&id, &key, ISSUED);
    let challenge = registration_challenge_from_proof(&id, SCHEMA, &recovery_proof(good, ISSUED + 600), ISSUED + 30)
        .expect("recovered challenge");
    assert_eq!(challenge.idempotency_key, good);
    assert!(matches!(
        registration_challenge_from_proof(&id, SCHEMA, &recovery_proof(good ^ 1, ISSUED + 600), ISSUED + 30),
        Err(AppError::Forbidden)
    ));
    assert!(matches!(
        registration_challenge_from_proof(&id, SCHEMA, &recovery_proof(good, ISSUED + 601), ISSUED + 30),
        Err(AppError::Forbidden)
    ));

    let player = |key_id: &str| {
        JsonValue::Object(vec![
            ("player_id".to_string(), text(&uuid::Uuid::from_u128(id.player_id).to_string())),
            ("subject_id".to_string(), text("subject-alpha")),
            ("signing_key_id".to_string(), text(key_id)),
            ("signing_public_key".to_string(), text(&challenge.signing_public_key)),
            ("signing_public_key_hash".to_string(), text(&challenge.signing_public_key_hash)),
            ("display_name".to_string(), text("ignored")),
        ])
    };
    assert_eq!(
        validate_recovered_human_player(&id, &challenge, &player(&challenge.signing_key_id)),
        Ok(())
    );
    assert_eq!(
        validate_recovered_human_player(&id, &challenge, &player("human-ed25519:other")),
        Err(AppError::Conflict(
            "the registered human signing key differs from this recovery proof".to_string()
        ))
    );
    assert_eq!(
        validate_recovered_human_player(&id, &challenge, &JsonValue::Object(vec![])),
        Err(AppError::Upstream)
    );
}

fn test_identity(subject: &str, player: &str, nakama: &str) -> AlphaIdentity {
    AlphaIdentity {
        player_id: uuid::Uuid::parse_str(player).expect("player").as_u128(),
        subject_id: subject.to_string(),
        nakama_user_id: uuid::Uuid::parse_str(nakama).expect("nakama").as_u128(),
        display_name: "Test Player".to_string(),
        scopes: vec![AlphaIdentityScope::Author],
        author_roles: Vec::new(),
    }
}

#[test]
fn human_registration_is_server_derived_and_exactly_signed() {
    let identity = test_identity(
        "subject-alpha",
        "11111111-1111-4111-8111-111111111111",
        "22222222-2222-4222-8222-222222222222",
    );
    let signing_key = ed25519_dalek::SigningKey::from_bytes(&[7_u8; 32]);
    let public_key = base64(&signing_key.verifying_key().to_bytes());
    let first = human_registration_challenge(&identity, SCHEMA, &public_key, 1_800_000_123)
        .expect("challenge");
    let replay = human_registration_challenge(&identity, SCHEMA, &public_key, 1_800_000_299)
        .expect("same time bucket");
    assert_eq!(first.idempotency_key, replay.idempotency_key);
    assert_eq!(first.signing_bytes, replay.signing_bytes);
    assert_eq!(first.player_id, identity.player_id);
    assert_eq!(first.subject_id, identity.subject_id);
    assert_eq!(first.nakama_user_id, identity.nakama_user_id);
    assert_eq!(first.display_name, identity.display_name);
    assert_eq!(first.issued_at_unix, 1_800_000_000);
    assert_eq!(first.expires_at_unix, 1_800_000_600);
    assert!(first.signing_key_id.starts_with("human-ed25519:"));
    assert!(build_human_registration_challenge(
        &identity,
        SCHEMA,
        &public_key,
        first.issued_at_unix,
        first.expires_at_unix,
    )
    .is_err());
}

#[test]
fn committed_registration_response_loss_recovers_only_the_same_imported_key() {
    let identity = test_identity(
        "subject-recovery",
        "31111111-1111-4111-8111-111111111111",
        "32222222-2222-4222-8222-222222222222",
    );
    let signing_key = ed25519_dalek::SigningKey::from_bytes(&[17_u8; 32]);
    let public_key = base64(&signing_key.verifying_key().to_bytes());
    let challenge = human_registration_challenge(&identity, SCHEMA, &public_key, 1_800_000_123)
        .expect("challenge");
    let offered = HumanRegistrationProof {
        signing_public_key: public_key,
        idempotency_key: challenge.idempotency_key,
        issued_at_unix: challenge.issued_at_unix,
        expires_at_unix: challenge.expires_at_unix,
        key_proof_signature: base64(&[0_u8; 64]),
    };
    let original = registration_challenge_from_proof(&identity, SCHEMA, &offered, offered.issued_at_unix)
        .expect("original proof remains verifiable for an applied self-read recovery");
    let committed_player = |public_key: &str| {
        JsonValue::Object(vec![
            (
                "player_id".to_string(),
                text(&uuid::Uuid::from_u128(identity.player_id).to_string()),
            ),
            ("subject_id".to_string(), text(&identity.subject_id)),
            ("signing_key_id".to_string(), text(&original.signing_key_id)),
            ("signing_public_key".to_string(), text(public_key)),
            (
                "signing_public_key_hash".to_string(),
                text(&original.signing_public_key_hash),
            ),
        ])
    };
    validate_recovered_human_player(&identity, &original, &committed_player(&original.signing_public_key))
        .expect("same imported key recovers committed registration");
    assert!(matches!(
        validate_recovered_human_player(&identity, &original, &committed_player(&base64(&[23_u8; 32]))),
        Err(AppError::Conflict(_))
    ));
    assert!(registration_challenge_from_proof(&identity, SCHEMA, &offered, offered.expires_at_unix).is_err());
}

#[test]
fn claim_signing_bytes_complete_the_challenge() {
    let id = identity();
    let key_text = base64(&public_key());
    let challenge = build_human_registration_challenge(&id, SCHEMA, &key_text, ISSUED, ISSUED + 1)
        .expect("challenge");
    let claim = human_registration_claim(&challenge);
    assert_eq!(claim.schema, SCHEMA);
    assert_eq!(claim.player_id, id.player_id);
    assert_eq!(claim.subject_id, "subject-alpha");
    assert_eq!(claim.signing_key_id, challenge.signing_key_id);
    assert_eq!(claim.signing_public_key, key_text);
    assert_eq!(claim.signing_public_key_hash, challenge.signing_public_key_hash);
    assert_eq!(
        claim.nonce,
        uuid::Uuid::from_u128(challenge.idempotency_key).to_string()
    );
    assert_eq!((claim.issued_at_unix, claim.expires_at_unix), (ISSUED, ISSUED + 600));

    let encoded = b"claim bytes".to_vec();
    let key_id = challenge.signing_key_id.clone();
    let signed = with_claim_signing_bytes(challenge, Ok(encoded.clone())).expect("signed");
    assert_eq!(signed.signing_bytes, base64(&encoded));
    assert_eq!(signed.signing_key_id, key_id);
    assert_eq!(signed.issued_at_unix, ISSUED);

    let again = build_human_registration_challenge(&id, SCHEMA, &key_text, ISSUED, ISSUED + 1)
        .expect("challenge");
    assert_eq!(
        with_claim_signing_bytes(again, Err("claim is not encodable".to_string())).err(),
        Some(AppError::Invalid("claim is not encodable".into()))
    );
}
