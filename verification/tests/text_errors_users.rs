use backend::email::Email;
use backend::errors::{classify_insert_user_error, classify_update_unique_error, AppError, ErrorMessage};
use backend::text::{contains_str, eq_ignore_ascii_case, i64_to_decimal, split_trimmed, str_eq, trim};
use backend::tokens::{hex_encode, TokenPair};
use backend::users::{
    can_view_genres, found_user, needs_friendship, public_profile, PrivacyLevel, UpdateEmailRequest,
    UpdatePasswordRequest, UpdateUsernameRequest, User, UserResponse,
};

#[test]
fn errors_are_answered_with_status_title_and_details() {
    let e = AppError::NotFound(ErrorMessage::RoomNotFound);
    assert_eq!(e.status_code(), 404);
    assert_eq!(e.title(), "Not Found");
    assert_eq!(e.details(), Some(vec!["Room not found".to_string()]));
    let v = AppError::Validation(vec![ErrorMessage::UsernameInvalidLength, ErrorMessage::EmailInvalidFormat]);
    assert_eq!(v.status_code(), 422);
    assert_eq!(v.title(), "Validation Error");
    assert_eq!(
        v.details(),
        Some(vec![
            "Username has invalid length (must be between 3 and 32 characters)".to_string(),
            "Invalid email address".to_string()
        ])
    );
    assert_eq!(AppError::TooManyRequests(ErrorMessage::TooManyEmails).status_code(), 429);
    assert_eq!(AppError::Unauthorized(ErrorMessage::TokenExpired).status_code(), 401);
    assert_eq!(AppError::Forbidden(ErrorMessage::NotRoomOwner).status_code(), 403);
    assert_eq!(AppError::Conflict(ErrorMessage::EmailTaken).title(), "Conflict");
    let db = AppError::Database("boom".to_string());
    assert_eq!(db.status_code(), 500);
    assert_eq!(db.title(), "Database Error");
    assert_eq!(db.details(), None);
    assert_eq!(AppError::Internal.title(), "Internal Server Error");
    assert_eq!(ErrorMessage::TrackIdInvalid.as_str(), "Track ID must be a positive integer");
}

#[test]
fn unique_violations_become_conflicts() {
    let e = classify_insert_user_error(Some("23505"), "duplicate key value violates unique constraint \"users_email_key\"", "d".to_string());
    assert!(matches!(e, AppError::Conflict(ErrorMessage::EmailTaken)));
    let u = classify_insert_user_error(Some("23505"), "users_username_key", "d".to_string());
    assert!(matches!(u, AppError::Conflict(ErrorMessage::UsernameTaken)));
    let other = classify_insert_user_error(Some("23505"), "users_pkey", "d".to_string());
    assert!(matches!(other, AppError::Database(ref s) if s == "d"));
    assert!(matches!(classify_insert_user_error(None, "email", "x".to_string()), AppError::Database(_)));
    assert!(matches!(
        classify_update_unique_error(Some("23505"), ErrorMessage::UsernameTaken, "x".to_string()),
        AppError::Conflict(ErrorMessage::UsernameTaken)
    ));
    assert!(matches!(classify_update_unique_error(Some("40001"), ErrorMessage::EmailTaken, "x".to_string()), AppError::Database(_)));
}

#[test]
fn text_helpers() {
    assert_eq!(trim("\u{3000} a b\t\n"), "a b");
    assert_eq!(trim("   "), "");
    assert!(contains_str("hello world", "o w"));
    assert!(!contains_str("hi", "hij"));
    assert!(contains_str("abc", ""));
    assert!(eq_ignore_ascii_case("WeB", "web"));
    assert!(!eq_ignore_ascii_case("wéb", "WÉB"));
    assert!(str_eq("same", "same"));
    assert_eq!(i64_to_decimal(0), "0");
    assert_eq!(i64_to_decimal(-120), "-120");
    assert_eq!(i64_to_decimal(i64::MIN), "-9223372036854775808");
    assert_eq!(i64_to_decimal(i64::MAX), "9223372036854775807");
    assert_eq!(split_trimmed(" http://a , http://b,,"), vec!["http://a", "http://b", "", ""]);
    assert_eq!(split_trimmed(""), vec![""]);
}

#[test]
fn tokens_are_stored_as_hex_sha256() {
    assert_eq!(hex_encode(&[0x00, 0xab, 0x10]), "00ab10");
    assert_eq!(TokenPair::hash("abc"), "ba7816bf8f01cfea414140de5dae2223b00361a396177a9cb410ff61f20015ad");
    let pair = TokenPair::generate();
    assert_eq!(pair.hash, TokenPair::hash(&pair.plain));
    assert_eq!(pair.hash.len(), 64);
    assert_ne!(TokenPair::generate().plain, pair.plain);
}

#[test]
fn emails_carry_their_links() {
    let r = Email::for_password_reset("tok");
    assert_eq!(r.subject, "Reset your password");
    assert_eq!(r.body, "Click on this link to reset your password...\n\nmusicroom://reset-password?token=tok");
    let c = Email::for_email_confirmation("tok2");
    assert_eq!(c.subject, "Confirm your email address");
    assert_eq!(c.body, "Please confirm your email address by clicking on this link...\n\nmusicroom://confirm-email?token=tok2");
    let n = Email::new("s".to_string(), "b".to_string());
    assert_eq!((n.subject.as_str(), n.body.as_str()), ("s", "b"));
}

fn user(level: PrivacyLevel) -> User {
    User {
        id: 2,
        username: "bob".to_string(),
        email: "b@b.b".to_string(),
        password_hash: None,
        email_confirmed: true,
        google_id: None,
        favorite_genres: vec!["jazz".to_string()],
        privacy_level: level,
        is_subscribed: false,
        end_subscription_date: None,
    }
}

#[test]
fn genres_follow_the_privacy_level() {
    assert!(can_view_genres(2, 2, PrivacyLevel::Private, false));
    assert!(can_view_genres(1, 2, PrivacyLevel::Public, false));
    assert!(!can_view_genres(1, 2, PrivacyLevel::Friends, false));
    assert!(can_view_genres(1, 2, PrivacyLevel::Friends, true));
    assert!(!can_view_genres(1, 2, PrivacyLevel::Private, true));
    assert!(needs_friendship(1, 2, PrivacyLevel::Friends));
    assert!(!needs_friendship(2, 2, PrivacyLevel::Friends));
    assert_eq!(public_profile(1, user(PrivacyLevel::Private), true).favorite_genres, None);
    assert_eq!(public_profile(1, user(PrivacyLevel::Public), false).favorite_genres, Some(vec!["jazz".to_string()]));
    assert!(matches!(found_user(None), Err(AppError::NotFound(ErrorMessage::UserNotFound))));
    let me = UserResponse::from_user(user(PrivacyLevel::Friends));
    assert_eq!(me.email, "b@b.b");
    assert!(me.email_confirmed);
    let s = UserResponse::for_socket(5, "sock".to_string());
    assert_eq!((s.id, s.email.as_str(), s.privacy_level), (5, "", PrivacyLevel::Public));
}

#[test]
fn profile_updates_are_checked() {
    assert!(UpdateUsernameRequest { username: "abc".to_string() }.validate().is_ok());
    assert!(UpdateUsernameRequest { username: "ab".to_string() }.validate().is_err());
    assert!(UpdateEmailRequest { new_email: "bad".to_string() }.validate().is_err());
    assert!(UpdatePasswordRequest { current_password: String::new(), new_password: "12345678".to_string() }.validate().is_ok());
    assert!(UpdateUsernameRequest { username: "x".repeat(32) }.validate().is_ok());
    assert!(UpdateUsernameRequest { username: "x".repeat(33) }.validate().is_err());
    match (UpdatePasswordRequest { current_password: "12345678".to_string(), new_password: "12345678".to_string() }).validate() {
        Err(AppError::Validation(v)) => assert_eq!(v, vec![ErrorMessage::PasswordSameAsCurrent]),
        _ => panic!("a new password equal to the current one must be refused"),
    }
    match (UpdatePasswordRequest { current_password: "1234".to_string(), new_password: "1234".to_string() }).validate() {
        Err(AppError::Validation(v)) => assert_eq!(v, vec![ErrorMessage::PasswordInvalidPolicy]),
        _ => panic!("a short password must be refused"),
    }
}
