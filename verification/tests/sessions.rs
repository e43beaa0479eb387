use backend::auth::Claims;
use backend::errors::{AppError, ErrorMessage};
use backend::session::{authenticate, claims_from_payload, issue_access_token, parse_u64_decimal};

fn now_secs() -> i64 {
    std::time::SystemTime::now().duration_since(std::time::UNIX_EPOCH).unwrap().as_secs() as i64
}

fn invalid(r: Result<Claims, AppError>) -> bool {
    matches!(r, Err(AppError::Unauthorized(ErrorMessage::TokenInvalid)))
}

#[test]
fn issued_tokens_authenticate_with_their_claims() {
    let id: u128 = 0x1234_5678_9abc_4def_8123_4567_89ab_cdef;
    let now = now_secs();
    let token = issue_access_token(id, "alice".to_string(), now, b"secret").unwrap();
    let header = format!("Bearer {}", token);
    let c = authenticate(Some(&header), None, b"secret", now as u64).unwrap();
    assert_eq!((c.username.as_str(), c.user_id, c.exp), ("alice", id, (now + 900) as u64));
    let query = format!("a=1&token={}", token);
    assert_eq!(authenticate(None, Some(&query), b"secret", now as u64).unwrap().user_id, id);
}

#[test]
fn bad_tokens_are_refused_as_invalid() {
    let now = now_secs();
    let token = issue_access_token(7, "bob".to_string(), now, b"secret").unwrap();
    let header = format!("Bearer {}", token);
    assert!(invalid(authenticate(Some(&header), None, b"other", now as u64)));
    assert!(invalid(authenticate(None, None, b"secret", now as u64)));
    assert!(invalid(authenticate(Some("Bearer not.a.token"), None, b"secret", now as u64)));
    let expired = issue_access_token(7, "bob".to_string(), now - 7200, b"secret").unwrap();
    assert!(invalid(authenticate(Some(&format!("Bearer {}", expired)), None, b"secret", now as u64)));
    let anonymous = issue_access_token(7, String::new(), now, b"secret").unwrap();
    assert!(invalid(authenticate(Some(&format!("Bearer {}", anonymous)), None, b"secret", now as u64)));
}

#[test]
fn payload_claims_are_read_field_by_field() {
    let c = claims_from_payload(br#"{"exp":42,"user_id":"00000000-0000-0000-0000-00000000000a","username":"u"}"#).unwrap();
    assert_eq!((c.username.as_str(), c.user_id, c.exp), ("u", 10, 42));
    assert!(claims_from_payload(br#"{"exp":4.5,"user_id":"00000000-0000-0000-0000-00000000000a","username":"u"}"#).is_none());
    assert!(claims_from_payload(br#"{"exp":-1,"user_id":"00000000-0000-0000-0000-00000000000a","username":"u"}"#).is_none());
    assert!(claims_from_payload(br#"{"exp":1,"user_id":"not-a-uuid","username":"u"}"#).is_none());
    assert!(claims_from_payload(br#"{"exp":1,"user_id":"00000000-0000-0000-0000-00000000000a"}"#).is_none());
    assert!(claims_from_payload(b"[]").is_none());
}

#[test]
fn decimal_numbers_are_read_up_to_u64_max() {
    assert_eq!(parse_u64_decimal("0"), Some(0));
    assert_eq!(parse_u64_decimal("1700000900"), Some(1_700_000_900));
    assert_eq!(parse_u64_decimal("18446744073709551615"), Some(u64::MAX));
    assert_eq!(parse_u64_decimal("18446744073709551616"), None);
    assert_eq!(parse_u64_decimal(""), None);
    assert_eq!(parse_u64_decimal("1e5"), None);
    assert_eq!(parse_u64_decimal("-3"), None);
}

#[test]
fn tokens_expire_a_minute_after_their_exp() {
    let token = issue_access_token(5, "eve".to_string(), 1_000_000, b"k").unwrap();
    let header = format!("Bearer {}", token);
    // exp is 1_000_900; it is accepted until 1_000_960 inclusive.
    assert_eq!(authenticate(Some(&header), None, b"k", 1_000_000).unwrap().exp, 1_000_900);
    assert!(authenticate(Some(&header), None, b"k", 1_000_960).is_ok());
    assert!(invalid(authenticate(Some(&header), None, b"k", 1_000_961)));
    assert!(authenticate(Some(&header), None, b"k", 0).is_ok());
}
