use staff_records::authorization::{
    authorize, bearer_token, identify, subject_of, Context, Identity,
};
use staff_records::errors::AppError;
use staff_records::utils::jwt::{issue, AuthError, Claims};

const USER: &str = "550e8400-e29b-41d4-a716-446655440000";

fn unauthorized(message: &str) -> Result<Identity, AppError> {
    Err(AppError::Unauthorized(message.to_string()))
}

fn bearer(token: &str) -> String {
    format!("Bearer {}", token)
}

#[test]
fn bearer_token_is_what_follows_the_scheme() {
    assert_eq!(bearer_token(Some("Bearer abc.def.ghi")), Some("abc.def.ghi".to_string()));
    assert_eq!(bearer_token(Some("Bearer a b")), Some("a b".to_string()));
    assert_eq!(bearer_token(None), None);
    assert_eq!(bearer_token(Some("")), None);
    assert_eq!(bearer_token(Some("Bearer")), None);
    assert_eq!(bearer_token(Some("Bearer ")), None);
    assert_eq!(bearer_token(Some("bearer abc")), None);
    assert_eq!(bearer_token(Some("Basic abc")), None);
    assert_eq!(bearer_token(Some("abc")), None);
}

#[test]
fn absent_or_empty_token_is_unauthorized() {
    assert_eq!(authorize(None, "secret", 0), unauthorized("Missing or empty token"));
    assert_eq!(authorize(Some("Bearer "), "secret", 0), unauthorized("Missing or empty token"));
    assert_eq!(authorize(Some("Token abc"), "secret", 0), unauthorized("Missing or empty token"));
}

#[test]
fn token_that_does_not_verify_is_unauthorized() {
    let token = issue(USER, 60, 1_000, "secret").unwrap();
    assert_eq!(
        authorize(Some("Bearer not.a.token"), "secret", 1_000),
        unauthorized("Invalid or expired token")
    );
    assert_eq!(
        authorize(Some(&bearer(&token)), "other", 1_000),
        unauthorized("Invalid or expired token")
    );
    assert_eq!(
        authorize(Some(&bearer(&token)), "secret", 1_061),
        unauthorized("Invalid or expired token")
    );
}

#[test]
fn subject_that_is_no_identifier_is_unauthorized() {
    let token = issue("a@b.com", 60, 1_000, "secret").unwrap();
    assert_eq!(
        authorize(Some(&bearer(&token)), "secret", 1_000),
        unauthorized("Invalid user ID in token")
    );
    let token = issue("", 60, 1_000, "secret").unwrap();
    assert_eq!(
        authorize(Some(&bearer(&token)), "secret", 1_000),
        unauthorized("Invalid user ID in token")
    );
}

#[test]
fn valid_token_gives_the_identity_in_canonical_text() {
    let token = issue(USER, 60, 1_000, "secret").unwrap();
    assert_eq!(
        authorize(Some(&bearer(&token)), "secret", 1_060),
        Ok(Identity { user_id: USER.to_string() })
    );
    let token = issue("550E8400E29B41D4A716446655440000", 60, 1_000, "secret").unwrap();
    assert_eq!(
        authorize(Some(&bearer(&token)), "secret", 1_000),
        Ok(Identity { user_id: USER.to_string() })
    );
}

#[test]
fn context_captures_key_moment_and_fresh_identifier() {
    let before = chrono::Utc::now().timestamp();
    let first = Context::capture("secret");
    let second = Context::capture("secret");
    let after = chrono::Utc::now().timestamp();
    assert_eq!(first.secret, "secret");
    assert!(before <= first.now && first.now <= after);
    assert_eq!(first.fresh_id.len(), 36);
    assert_eq!(uuid::Uuid::parse_str(&first.fresh_id).unwrap().to_string(), first.fresh_id);
    assert_ne!(first.fresh_id, second.fresh_id);
}

#[test]
fn subject_is_identified_only_where_it_spelled_an_identifier() {
    assert_eq!(identify(Some(USER.to_string())), Ok(Identity { user_id: USER.to_string() }));
    assert_eq!(identify(None), unauthorized("Invalid user ID in token"));
}

#[test]
fn token_that_was_not_accepted_is_refused_whatever_the_reason() {
    assert_eq!(subject_of(Ok(Claims { sub: "abc".to_string(), exp: 5 })), Ok("abc".to_string()));
    for reason in [AuthError::Malformed, AuthError::Expired, AuthError::SignatureInvalid] {
        assert_eq!(
            subject_of(Err(reason)),
            Err(AppError::Unauthorized("Invalid or expired token".to_string()))
        );
    }
}
