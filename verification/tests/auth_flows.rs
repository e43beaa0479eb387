use backend::auth::{
    access_token_claims, check_claims, check_email_token, check_login, check_password_change, check_stored_token,
    extract_token, hash_password, new_refresh_token, normalize_email, plan_email_confirmation, plan_password_reset,
    registration, require_token, verify_password, Claims, EmailToken, ForgotPasswordRequest, LoginRequest,
    RegisterRequest, ResetPasswordRequest,
};
use backend::errors::{AppError, ErrorMessage};
use backend::tokens::TokenPair;
use backend::users::{PrivacyLevel, User};

fn user(id: u128, password_hash: Option<String>) -> User {
    User {
        id,
        username: "alice".to_string(),
        email: "alice@example.com".to_string(),
        password_hash,
        email_confirmed: false,
        google_id: None,
        favorite_genres: vec![],
        privacy_level: PrivacyLevel::Friends,
        is_subscribed: false,
        end_subscription_date: None,
    }
}

fn validation(r: Result<(), AppError>) -> Vec<ErrorMessage> {
    match r {
        Err(AppError::Validation(ms)) => ms,
        other => panic!("expected a validation error, got {:?}", other),
    }
}

#[test]
fn registration_reports_every_problem_in_order() {
    let bad = RegisterRequest { username: "ab".to_string(), email: "nope".to_string(), password: "short".to_string() };
    assert_eq!(
        validation(bad.validate()),
        vec![ErrorMessage::UsernameInvalidLength, ErrorMessage::EmailInvalidFormat, ErrorMessage::PasswordInvalidPolicy]
    );
    let long_name = RegisterRequest {
        username: "x".repeat(33),
        email: "a@b.com".to_string(),
        password: "longenough".to_string(),
    };
    assert_eq!(validation(long_name.validate()), vec![ErrorMessage::UsernameInvalidLength]);
    let longest = RegisterRequest { username: "x".repeat(32), email: "bad".to_string(), password: "longenough".to_string() };
    assert_eq!(validation(longest.validate()), vec![ErrorMessage::EmailInvalidFormat]);
    let accented = RegisterRequest {
        username: "\u{e9}\u{e9}\u{e9}".to_string(),
        email: "a@b.com".to_string(),
        password: "\u{e9}\u{e9}\u{e9}\u{e9}\u{e9}\u{e9}\u{e9}\u{e9}".to_string(),
    };
    assert!(accented.validate().is_ok());
    let short_accented = RegisterRequest {
        username: "abc".to_string(),
        email: "a@b.com".to_string(),
        password: "\u{e9}\u{e9}\u{e9}\u{e9}\u{e9}\u{e9}\u{e9}".to_string(),
    };
    assert_eq!(validation(short_accented.validate()), vec![ErrorMessage::PasswordInvalidPolicy]);
    let good = RegisterRequest {
        username: "abc".to_string(),
        email: "user@example.com".to_string(),
        password: "12345678".to_string(),
    };
    assert!(good.validate().is_ok());
}

#[test]
fn other_requests_check_their_fields() {
    assert_eq!(
        validation(LoginRequest { email: "x".to_string(), password: String::new() }.validate()),
        vec![ErrorMessage::EmailInvalidFormat]
    );
    assert!(ForgotPasswordRequest { email: "x@y.fr".to_string() }.validate().is_ok());
    let forgot = ForgotPasswordRequest { email: "x@y.fr".to_string() };
    assert!(forgot.reply(Err(AppError::NotFound(ErrorMessage::UserNotFound))).is_ok());
    assert!(forgot.reply(Ok(())).is_ok());
    assert_eq!(
        validation(ForgotPasswordRequest { email: "nope".to_string() }.reply(Ok(()))),
        vec![ErrorMessage::EmailInvalidFormat]
    );
    assert_eq!(
        validation(ResetPasswordRequest { token: "t".to_string(), new_password: "1234567".to_string() }.validate()),
        vec![ErrorMessage::PasswordInvalidPolicy]
    );
}

#[test]
fn addresses_are_trimmed_and_lowercased() {
    assert_eq!(normalize_email("  Alice@Example.COM \n"), "alice@example.com");
}

#[test]
fn a_password_verifies_against_its_own_hash_only() {
    let h = hash_password("correct horse").unwrap();
    assert!(verify_password("correct horse", &h).is_ok());
    assert!(matches!(
        verify_password("wrong horse", &h),
        Err(AppError::Unauthorized(ErrorMessage::InvalidCredentials))
    ));
    assert!(matches!(verify_password("x", "not a phc string"), Err(AppError::Internal)));
    assert!(matches!(verify_password("x", ""), Err(AppError::Internal)));
    assert_ne!(hash_password("correct horse").unwrap(), h);
}

#[test]
fn registration_prepares_the_stored_user() {
    let u = registration("  bob  ", " Bob@Example.com", "password1").unwrap();
    assert_eq!(u.username, "bob");
    assert_eq!(u.email, "bob@example.com");
    assert_eq!(u.email_confirmed, Some(false));
    assert_eq!(u.privacy_level, PrivacyLevel::Friends);
    assert!(verify_password("password1", u.password_hash.as_ref().unwrap()).is_ok());
}

#[test]
fn login_needs_an_account_with_the_right_password() {
    assert!(matches!(check_login(None, "x"), Err(AppError::Unauthorized(ErrorMessage::InvalidCredentials))));
    assert!(matches!(
        check_login(Some(user(1, None)), "x"),
        Err(AppError::Unauthorized(ErrorMessage::InvalidCredentials))
    ));
    let h = hash_password("secret123").unwrap();
    assert_eq!(check_login(Some(user(1, Some(h.clone()))), "secret123").unwrap().id, 1);
    assert!(matches!(
        check_login(Some(user(1, Some(h))), "secret124"),
        Err(AppError::Unauthorized(ErrorMessage::InvalidCredentials))
    ));
}

#[test]
fn password_change_needs_the_current_password() {
    assert!(matches!(check_password_change(None, "x"), Err(AppError::NotFound(ErrorMessage::UserNotFound))));
    let h = hash_password("current1").unwrap();
    assert!(check_password_change(Some(user(2, Some(h.clone()))), "current1").is_ok());
    assert!(check_password_change(Some(user(2, Some(h))), "other").is_err());
}

#[test]
fn stored_tokens_expire() {
    assert!(matches!(check_stored_token(None, 10), Err(AppError::Unauthorized(ErrorMessage::TokenInvalid))));
    assert!(matches!(check_stored_token(Some((7, 9)), 10), Err(AppError::Unauthorized(ErrorMessage::TokenExpired))));
    assert_eq!(check_stored_token(Some((7, 10)), 10).unwrap(), 7);
    assert_eq!(check_stored_token(Some((7, 11)), 10).unwrap(), 7);
}

#[test]
fn refresh_tokens_last_a_week() {
    let (plain, record) = new_refresh_token(3, 1_000);
    assert_eq!(record.user_id, 3);
    assert_eq!(record.expires_at, 1_000 + 604_800_000);
    assert_eq!(record.token_hash, TokenPair::hash(&plain));
}

#[test]
fn email_tokens_give_the_address_to_confirm() {
    let t = EmailToken {
        token_hash: "h".to_string(),
        user_id: 4,
        new_email: "n@e.w".to_string(),
        created_at: 0,
        expires_at: 100,
    };
    assert_eq!(check_email_token(Some(t), 100).unwrap(), (4, "n@e.w".to_string()));
    assert!(matches!(check_email_token(None, 0), Err(AppError::Unauthorized(ErrorMessage::TokenInvalid))));
}

#[test]
fn access_tokens_last_fifteen_minutes() {
    let c = access_token_claims(9, "carol".to_string(), 1_700_000_000);
    assert_eq!(c.exp, 1_700_000_900);
    assert_eq!(c.user_id, 9);
    assert!(check_claims(&c).is_ok());
    let anonymous = Claims { username: String::new(), user_id: 9, exp: 0 };
    assert!(matches!(check_claims(&anonymous), Err(AppError::Unauthorized(ErrorMessage::TokenInvalid))));
    let nil = Claims { username: "x".to_string(), user_id: 0, exp: 0 };
    assert!(check_claims(&nil).is_err());
}

#[test]
fn tokens_come_from_the_header_or_the_query() {
    assert_eq!(extract_token(Some("Bearer abc.def"), Some("token=zzz")).as_deref(), Some("abc.def"));
    assert_eq!(extract_token(Some("Basic abc"), Some("a=1&token=zzz&token=yyy")).as_deref(), Some("zzz"));
    assert_eq!(extract_token(None, Some("token=a=b")).as_deref(), Some("a"));
    assert_eq!(extract_token(None, Some("token&token=ok")).as_deref(), Some("ok"));
    assert_eq!(extract_token(None, Some("tokens=x")), None);
    assert_eq!(extract_token(None, Some("token=")).as_deref(), Some(""));
    assert_eq!(extract_token(None, None), None);
    assert_eq!(extract_token(Some("Bearer "), None).as_deref(), Some(""));
    assert!(matches!(require_token(None, Some("x=1")), Err(AppError::Unauthorized(ErrorMessage::TokenInvalid))));
}

#[test]
fn password_resets_are_rate_limited() {
    assert!(matches!(
        plan_password_reset(None, false, "a@b.c".to_string(), 0),
        Err(AppError::NotFound(ErrorMessage::UserNotFound))
    ));
    assert!(matches!(
        plan_password_reset(Some(user(1, None)), true, "a@b.c".to_string(), 0),
        Err(AppError::TooManyRequests(ErrorMessage::TooManyEmails))
    ));
    let plan = plan_password_reset(Some(user(1, None)), false, "a@b.c".to_string(), 5).unwrap();
    assert_eq!(plan.recipient, "a@b.c");
    assert_eq!(plan.token.expires_at, 900_005);
    assert_eq!(plan.token.user_id, 1);
    let token = plan.email.body.rsplit("token=").next().unwrap();
    assert_eq!(plan.token.token_hash, TokenPair::hash(token));
}

#[test]
fn confirmations_are_mailed_to_the_current_address() {
    let plan = plan_email_confirmation(Some(user(6, None)), false, 0).unwrap();
    assert_eq!(plan.recipient, "alice@example.com");
    assert_eq!(plan.token.new_email, "alice@example.com");
    assert_eq!(plan.token.expires_at, 86_400_000);
    assert_eq!(plan.email.subject, "Confirm your email address");
    assert!(plan_email_confirmation(Some(user(6, None)), true, 0).is_err());
}

#[test]
fn hashing_always_succeeds() {
    let h = hash_password("").unwrap();
    assert!(h.starts_with("$argon2id$"));
    assert!(verify_password("", &h).is_ok());
    let u = registration("  zed ", "Z@E.D", "pw").unwrap();
    assert!(verify_password("pw", u.password_hash.as_deref().unwrap()).is_ok());
}

#[test]
fn generated_tokens_are_uuid_texts() {
    let pair = TokenPair::generate();
    let c: Vec<char> = pair.plain.chars().collect();
    assert_eq!(c.len(), 36);
    for (i, ch) in c.iter().enumerate() {
        if i == 8 || i == 13 || i == 18 || i == 23 {
            assert_eq!(*ch, '-');
        } else {
            assert!(ch.is_ascii_hexdigit() && !ch.is_ascii_uppercase());
        }
    }
    assert_eq!(c[14], '4');
    assert!(matches!(c[19], '8' | '9' | 'a' | 'b'));
}
