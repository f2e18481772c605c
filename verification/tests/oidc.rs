use paper_raid_bff::oidc::{
    stable_subject_id, validate_display_name, validate_scopes, validate_subject, OidcAudience,
    OidcClaimsError, OidcConfigError, OidcProviderConfig, OidcProviderConfigInput,
    VerifiedOidcClaims,
};

fn input() -> OidcProviderConfigInput {
    OidcProviderConfigInput {
        issuer: "https://identity.example.test/tenant-a".into(),
        authorization_endpoint: "https://identity.example.test/tenant-a/authorize".into(),
        token_endpoint: "https://identity.example.test/tenant-a/token".into(),
        jwks_uri: "https://identity.example.test/tenant-a/keys".into(),
        client_id: "paper-raid-beta".into(),
        redirect_uri: "https://research.example.test/oidc/callback".into(),
        scopes: vec!["openid".into(), "profile".into()],
        clock_skew_seconds: 60,
        max_token_age_seconds: 600,
    }
}

fn config() -> OidcProviderConfig {
    OidcProviderConfig::from_input(&input(), "https://research.example.test/").unwrap()
}

fn claims() -> VerifiedOidcClaims {
    VerifiedOidcClaims {
        iss: "https://identity.example.test/tenant-a".into(),
        sub: "user-123".into(),
        aud: OidcAudience::One("paper-raid-beta".into()),
        azp: None,
        exp: 1_700,
        iat: 1_000,
        nonce: "n".repeat(32),
        name: Some("Researcher One".into()),
        preferred_username: None,
    }
}

#[test]
fn provider_config_is_https_and_callback_bound() {
    let config = config();
    assert_eq!(config.scopes, ["openid", "profile"]);
    let invalid = OidcProviderConfigInput {
        issuer: "http://identity.example.test".into(),
        authorization_endpoint: "https://identity.example.test/authorize".into(),
        token_endpoint: "https://identity.example.test/token".into(),
        jwks_uri: "https://identity.example.test/keys".into(),
        client_id: "paper-raid-beta".into(),
        redirect_uri: "https://attacker.example.test/callback".into(),
        scopes: vec!["openid".into()],
        clock_skew_seconds: 60,
        max_token_age_seconds: 600,
    };
    assert!(OidcProviderConfig::from_input(&invalid, "https://research.example.test/").is_err());
}

#[test]
fn verified_claims_bind_issuer_audience_nonce_and_time() {
    let now = 1_500;
    let config = config();
    let identity = config
        .validate_verified_claims(&claims(), &"n".repeat(32), now)
        .unwrap();
    assert!(identity.subject_id.starts_with("oidc:"));
    assert!(!identity.subject_id.contains("user-123"));
    assert_eq!(identity.display_name, "Researcher One");

    let mut issuer_mismatch = claims();
    issuer_mismatch.iss = "https://identity.example.test/tenant-b".into();
    assert!(config
        .validate_verified_claims(&issuer_mismatch, &"n".repeat(32), now)
        .is_err());

    let mut audience_mismatch = claims();
    audience_mismatch.aud = OidcAudience::One("another-client".into());
    assert!(config
        .validate_verified_claims(&audience_mismatch, &"n".repeat(32), now)
        .is_err());

    assert!(config
        .validate_verified_claims(&claims(), &"x".repeat(32), now)
        .is_err());
}

#[test]
fn multiple_audiences_require_matching_authorized_party() {
    let now = 1_500;
    let config = config();
    let mut claims = claims();
    claims.aud = OidcAudience::Many(vec!["paper-raid-beta".into(), "api".into()]);
    assert!(config
        .validate_verified_claims(&claims, &"n".repeat(32), now)
        .is_err());
    claims.azp = Some("paper-raid-beta".into());
    assert!(config
        .validate_verified_claims(&claims, &"n".repeat(32), now)
        .is_ok());
    claims.aud = OidcAudience::Many(vec!["paper-raid-beta".into(), "paper-raid-beta".into()]);
    assert!(config
        .validate_verified_claims(&claims, &"n".repeat(32), now)
        .is_err());
}

#[test]
fn stale_future_and_control_character_claims_fail_closed() {
    let now = 1_500;
    let config = config();

    let mut stale = claims();
    stale.iat = 700;
    assert!(config
        .validate_verified_claims(&stale, &"n".repeat(32), now)
        .is_err());

    let mut future = claims();
    future.iat = 1_700;
    assert!(config
        .validate_verified_claims(&future, &"n".repeat(32), now)
        .is_err());

    let mut excessive_lifetime = claims();
    excessive_lifetime.exp = 1_800;
    assert!(config
        .validate_verified_claims(&excessive_lifetime, &"n".repeat(32), now)
        .is_err());

    let mut control = claims();
    control.name = Some("Researcher\nAdmin".into());
    assert!(config
        .validate_verified_claims(&control, &"n".repeat(32), now)
        .is_err());
}

#[test]
fn each_claim_refusal_is_reported() {
    let config = config();
    let nonce = "n".repeat(32);
    let check = |c: &VerifiedOidcClaims, now: i64| config.validate_verified_claims(c, &nonce, now);
    let mut empty = claims();
    empty.aud = OidcAudience::Many(vec![]);
    assert_eq!(check(&empty, 1_500), Err(OidcClaimsError::AudienceEmpty));
    let mut azp = claims();
    azp.azp = Some("other".into());
    assert_eq!(check(&azp, 1_500), Err(OidcClaimsError::AzpMismatch));
    let mut subject = claims();
    subject.sub = String::new();
    assert_eq!(check(&subject, 1_500), Err(OidcClaimsError::SubjectInvalid));
    assert_eq!(check(&claims(), 1_761), Err(OidcClaimsError::Expired));
    let mut inverted = claims();
    inverted.exp = 1_000;
    assert_eq!(check(&inverted, 1_000), Err(OidcClaimsError::LifetimeInvalid));
    let mut unnamed = claims();
    unnamed.name = None;
    assert_eq!(check(&unnamed, 1_500), Err(OidcClaimsError::DisplayNameMissing));
    unnamed.preferred_username = Some("researcher".into());
    assert_eq!(check(&unnamed, 1_500).unwrap().display_name, "researcher");
    assert_eq!(
        config.validate_verified_claims(&claims(), &"n".repeat(31), 1_500),
        Err(OidcClaimsError::NonceMismatch)
    );
    assert_eq!(
        OidcClaimsError::TooOld.message(),
        "OIDC token is older than the configured maximum"
    );
}

#[test]
fn subject_id_is_a_hash_of_issuer_and_subject() {
    let id = stable_subject_id("https://identity.example.test/tenant-a", "user-123");
    assert_eq!(id.len(), 5 + 16 + 1 + 32);
    assert_eq!(&id[21..22], ":");
    // SHA-256("abc") = ba7816bf8f01cfea414140de5dae2223b00361a396177a9cb410ff61f20015ad
    assert_eq!(
        stable_subject_id("abc", "abc"),
        "oidc:ba7816bf8f01cfea:ba7816bf8f01cfea414140de5dae2223"
    );
    assert!(validate_subject("user"));
    assert!(!validate_subject("user\u{7f}"));
    assert!(validate_display_name(" Ada "));
    assert!(!validate_display_name("   "));
    assert!(!validate_display_name(&"a".repeat(81)));
}

#[test]
fn configuration_ranges_and_scopes_are_enforced() {
    let mut skew = input();
    skew.clock_skew_seconds = 121;
    assert_eq!(
        OidcProviderConfig::from_input(&skew, "https://research.example.test/"),
        Err(OidcConfigError::ClockSkewRange)
    );
    let mut age = input();
    age.max_token_age_seconds = 59;
    assert_eq!(
        OidcProviderConfig::from_input(&age, "https://research.example.test/"),
        Err(OidcConfigError::MaxAgeRange)
    );
    let mut query = input();
    query.jwks_uri = "https://identity.example.test/keys?x=1".into();
    assert_eq!(
        OidcProviderConfig::from_input(&query, "https://research.example.test/"),
        Err(OidcConfigError::UrlNotPlainHttps("jwks_uri"))
    );
    let mut loopback = input();
    loopback.redirect_uri = "http://127.0.0.1:8080/oidc/callback".into();
    assert!(OidcProviderConfig::from_input(&loopback, "http://127.0.0.1:8080/").is_ok());
    assert_eq!(
        OidcConfigError::UrlInvalid("issuer").message(),
        "issuer is invalid"
    );
    assert_eq!(
        validate_scopes(&vec!["profile".into()]),
        Err(OidcConfigError::ScopesMissingOpenid)
    );
    assert_eq!(
        validate_scopes(&vec!["openid".into(), "openid".into()]),
        Err(OidcConfigError::ScopesInvalid)
    );
    assert_eq!(validate_scopes(&vec![]), Err(OidcConfigError::ScopeCount));
}
