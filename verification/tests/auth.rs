use launcher_core::credentials::{
    AccountCredentials, AuthStage, AuthStageWithData, MinecraftAccessToken, TokenType,
    TokenValidationResult, TokenWithExpiry, XstsToken, AUTH_STAGE_COUNT,
};

fn token(value: &str, expiry: i64) -> TokenWithExpiry {
    TokenWithExpiry {
        token: value.to_string(),
        expiry,
    }
}

fn full_chain(now: i64) -> AccountCredentials {
    AccountCredentials {
        msa_refresh: Some("refresh".to_string()),
        msa_access: Some(token("msa", now + 1000)),
        xbl: Some(token("xbl", now + 1000)),
        xsts: Some(XstsToken {
            token: "xsts".to_string(),
            expiry: now + 1000,
            userhash: "uhs".to_string(),
        }),
        access_token: Some(token("access", now + 1000)),
    }
}

fn empty_chain() -> AccountCredentials {
    AccountCredentials {
        msa_refresh: None,
        msa_access: None,
        xbl: None,
        xsts: None,
        access_token: None,
    }
}

#[test]
fn resolve_fully_valid_chain_returns_access_token_and_changes_nothing() {
    let now = 1_000_000;
    let mut chain = full_chain(now);
    let before = chain.clone();
    let stage = chain.stage(now);
    assert_eq!(
        stage,
        AuthStageWithData::AccessToken(MinecraftAccessToken("access".to_string()))
    );
    assert_eq!(chain, before);
}

#[test]
fn resolve_expired_access_falls_back_to_xbox_secure_and_clears_only_that_slot() {
    let now = 1_000_000;
    let mut chain = full_chain(now);
    chain.access_token = Some(token("stale", now - 1));
    let before = chain.clone();
    let stage = chain.stage(now);
    assert_eq!(
        stage,
        AuthStageWithData::XboxSecure {
            xsts: "xsts".to_string(),
            userhash: "uhs".to_string(),
        }
    );
    assert_eq!(chain.access_token, None);
    assert_eq!(chain.xsts, before.xsts);
    assert_eq!(chain.xbl, before.xbl);
    assert_eq!(chain.msa_access, before.msa_access);
    assert_eq!(chain.msa_refresh, before.msa_refresh);
}

#[test]
fn resolve_access_expiring_exactly_now_counts_as_expired() {
    let now = 1_000_000;
    let mut chain = full_chain(now);
    chain.access_token = Some(token("stale", now));
    let stage = chain.stage(now);
    assert_eq!(stage.stage(), AuthStage::XboxSecure);
    assert_eq!(chain.access_token, None);
}

#[test]
fn resolve_falls_back_to_xbox_live_then_msa_access_then_refresh() {
    let now = 500;
    let mut chain = full_chain(now);
    chain.access_token = None;
    chain.xsts = None;
    let stage = chain.stage(now);
    assert_eq!(stage, AuthStageWithData::XboxLive("xbl".to_string()));

    let mut chain = full_chain(now);
    chain.access_token = None;
    chain.xsts = None;
    chain.xbl = Some(token("old", now - 10));
    let stage = chain.stage(now);
    assert_eq!(stage, AuthStageWithData::MsaAccess("msa".to_string()));
    assert_eq!(chain.xbl, None);

    let mut chain = empty_chain();
    chain.msa_refresh = Some("refresh".to_string());
    let stage = chain.stage(now);
    assert_eq!(stage, AuthStageWithData::MsaRefresh("refresh".to_string()));
}

#[test]
fn resolve_all_absent_returns_initial() {
    let mut chain = empty_chain();
    let stage = chain.stage(42);
    assert_eq!(stage, AuthStageWithData::Initial);
    assert_eq!(chain, empty_chain());
}

#[test]
fn resolve_everything_expired_returns_initial_and_clears_all_but_refresh_absent() {
    let now = 1_000_000;
    let mut chain = full_chain(now);
    chain.msa_refresh = None;
    chain.msa_access = Some(token("a", now - 1));
    chain.xbl = Some(token("b", now - 1));
    chain.xsts = Some(XstsToken {
        token: "c".to_string(),
        expiry: now - 1,
        userhash: "u".to_string(),
    });
    chain.access_token = Some(token("d", now - 1));
    let stage = chain.stage(now);
    assert_eq!(stage, AuthStageWithData::Initial);
    assert_eq!(chain, empty_chain());
}

#[test]
fn resolve_twice_is_idempotent() {
    let now = 1_000_000;
    let mut chain = full_chain(now);
    chain.access_token = Some(token("stale", now - 1));
    chain.xbl = Some(token("old", now - 10));

    let first = chain.stage(now);
    let after_first = chain.clone();
    let second = chain.stage(now);
    assert_eq!(first, second);
    assert_eq!(chain, after_first);
}

#[test]
fn stage_tags_follow_payload_variants() {
    assert_eq!(AuthStageWithData::Initial.stage(), AuthStage::Initial);
    assert_eq!(
        AuthStageWithData::MsaRefresh("r".to_string()).stage(),
        AuthStage::MsaRefresh
    );
    assert_eq!(
        AuthStageWithData::MsaAccess("m".to_string()).stage(),
        AuthStage::MsaAccess
    );
    assert_eq!(
        AuthStageWithData::XboxLive("x".to_string()).stage(),
        AuthStage::XboxLive
    );
    assert_eq!(
        AuthStageWithData::XboxSecure {
            xsts: "x".to_string(),
            userhash: "u".to_string()
        }
        .stage(),
        AuthStage::XboxSecure
    );
    assert_eq!(
        AuthStageWithData::AccessToken(MinecraftAccessToken("a".to_string())).stage(),
        AuthStage::AccessToken
    );
}

#[test]
fn auth_stages_are_totally_ordered_by_pipeline_position() {
    assert!(AuthStage::Initial < AuthStage::MsaRefresh);
    assert!(AuthStage::MsaRefresh < AuthStage::MsaAccess);
    assert!(AuthStage::MsaAccess < AuthStage::XboxLive);
    assert!(AuthStage::XboxLive < AuthStage::XboxSecure);
    assert!(AuthStage::XboxSecure < AuthStage::AccessToken);
    assert_eq!(AUTH_STAGE_COUNT, 6);
}

#[test]
fn validate_all_absent_reports_exactly_the_five_kinds() {
    let chain = empty_chain();
    match chain.validate_token_chain(123) {
        TokenValidationResult::Invalid(kinds) => {
            assert_eq!(kinds.len(), 5);
            for expected in [
                TokenType::AccessToken,
                TokenType::Xsts,
                TokenType::Xbl,
                TokenType::MsaAccess,
                TokenType::MsaRefresh,
            ] {
                assert!(kinds.contains(&expected));
            }
        }
        TokenValidationResult::Valid => panic!("an empty chain must not validate"),
    }
}

#[test]
fn validate_fully_valid_chain_is_valid() {
    let now = 1_000_000;
    let chain = full_chain(now);
    assert!(matches!(
        chain.validate_token_chain(now),
        TokenValidationResult::Valid
    ));
}

#[test]
fn validate_reports_each_expired_or_missing_slot() {
    let now = 1_000_000;

    let mut chain = full_chain(now);
    chain.access_token = Some(token("stale", now));
    match chain.validate_token_chain(now) {
        TokenValidationResult::Invalid(kinds) => {
            assert_eq!(kinds, vec![TokenType::AccessToken]);
        }
        TokenValidationResult::Valid => panic!("expired access token must invalidate"),
    }

    let mut chain = full_chain(now);
    chain.xbl = None;
    chain.msa_refresh = None;
    match chain.validate_token_chain(now) {
        TokenValidationResult::Invalid(kinds) => {
            assert_eq!(kinds, vec![TokenType::Xbl, TokenType::MsaRefresh]);
        }
        TokenValidationResult::Valid => panic!("missing slots must invalidate"),
    }
}

#[test]
fn validate_does_not_mutate_the_chain() {
    let now = 1_000_000;
    let mut chain = full_chain(now);
    chain.access_token = Some(token("stale", now - 1));
    let before = chain.clone();
    let _ = chain.validate_token_chain(now);
    assert_eq!(chain, before);
}

#[test]
fn resolver_and_validator_agree_on_a_fully_valid_chain() {
    let now = 1_000_000;
    let mut chain = full_chain(now);
    assert!(matches!(
        chain.validate_token_chain(now),
        TokenValidationResult::Valid
    ));
    assert_eq!(chain.stage(now).stage(), AuthStage::AccessToken);
}

#[test]
fn resolver_and_validator_agree_on_an_all_absent_chain() {
    let mut chain = empty_chain();
    assert!(matches!(
        chain.validate_token_chain(5),
        TokenValidationResult::Invalid(kinds) if kinds.len() == 5
    ));
    assert_eq!(chain.stage(5).stage(), AuthStage::Initial);
}

#[test]
fn default_chain_is_empty() {
    let chain = AccountCredentials::default();
    assert_eq!(chain, empty_chain());
}
