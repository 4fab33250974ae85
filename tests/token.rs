use schwab_auth::error::AuthError;
use schwab_auth::token::{Token, TokenGrant, ACCESS_TOKEN_LIFETIME_MS, REFRESH_TOKEN_LIFETIME_MS};

fn grant(refresh: Option<&str>) -> TokenGrant {
    TokenGrant {
        access: "ACCESS".to_string(),
        refresh: refresh.map(|s| s.to_string()),
        token_type: "Bearer".to_string(),
    }
}

#[test]
fn mint_sets_fields_and_expiries() {
    let t = Token::mint(grant(Some("REFRESH")), 1_000).unwrap();
    assert_eq!(
        t,
        Token {
            access: "ACCESS".to_string(),
            access_expires_in: 1_801_000,
            refresh: "REFRESH".to_string(),
            refresh_expires_in: 604_801_000,
            type_: "Bearer".to_string(),
        }
    );
    assert_eq!(ACCESS_TOKEN_LIFETIME_MS, 30 * 60 * 1000);
    assert_eq!(REFRESH_TOKEN_LIFETIME_MS, 7 * 24 * 60 * 60 * 1000);
}

#[test]
fn mint_without_refresh_token_fails() {
    assert!(matches!(
        Token::mint(grant(None), 1_000),
        Err(AuthError::MissingRefreshToken)
    ));
}

#[test]
fn mint_at_end_of_time_overflows() {
    assert!(matches!(
        Token::mint(grant(Some("R")), i64::MAX),
        Err(AuthError::TimestampOverflow)
    ));
    let last = i64::MAX - REFRESH_TOKEN_LIFETIME_MS;
    let t = Token::mint(grant(Some("R")), last).unwrap();
    assert_eq!(t.refresh_expires_in, i64::MAX);
    assert!(matches!(
        Token::mint(grant(Some("R")), last + 1),
        Err(AuthError::TimestampOverflow)
    ));
}

#[test]
fn mint_now_spaces_expiries_by_lifetimes() {
    let t = Token::mint_now(grant(Some("REFRESH"))).unwrap();
    assert_eq!(
        t.refresh_expires_in - t.access_expires_in,
        REFRESH_TOKEN_LIFETIME_MS - ACCESS_TOKEN_LIFETIME_MS
    );
    assert_eq!(t.access, "ACCESS");
    assert!(matches!(
        Token::mint_now(grant(None)),
        Err(AuthError::MissingRefreshToken)
    ));
}

#[test]
fn refresh_replaces_access_only() {
    let t = Token::mint(grant(Some("REFRESH")), 0).unwrap();
    let g = TokenGrant {
        access: "NEW".to_string(),
        refresh: None,
        token_type: "Bearer".to_string(),
    };
    let r = t.refreshed(g, 5_000).unwrap();
    assert_eq!(r.access, "NEW");
    assert_eq!(r.access_expires_in, 1_805_000);
    assert_eq!(r.refresh, "REFRESH");
    assert_eq!(r.refresh_expires_in, 604_800_000);
    assert_eq!(r.type_, "Bearer");
    assert_eq!(t.access, "ACCESS");
    assert!(matches!(
        t.refreshed(grant(None), i64::MAX),
        Err(AuthError::TimestampOverflow)
    ));
}

#[test]
fn validity_windows() {
    let t = Token::mint(grant(Some("R")), 0).unwrap();
    assert!(t.access_valid_at(0));
    assert!(t.access_valid_at(1_799_999));
    assert!(!t.access_valid_at(1_800_000));
    assert!(t.refresh_valid_at(1_800_000));
    assert!(!t.refresh_valid_at(604_800_000));
}
