//! Access tokens: the signed JWTs (HS256) that carry a session's claims, how
//! they are issued, and how a request is authenticated by one.
use vstd::prelude::*;
use crate::auth::{Claims, access_token_claims, check_claims, opt_str_view, request_token, require_token};
use crate::errors::{AppError, ErrorMessage};
use crate::json::{JsonValue, JsonView, member_str, member_value, spec_json_parse};
use crate::music::opt_bytes_view;

verus! {

/// The JSON text of the claims of `token`, where it is a well-formed token
/// whose header names HS256, whose signature checks with `secret`, and whose
/// claims hold an integer `exp` and no audience, as `serde_json` writes the
/// decoded claims again; `None` otherwise. Expiry is not looked at here.
pub uninterp spec fn spec_jwt_payload(token: Seq<char>, secret: Seq<u8>) -> Option<Seq<u8>>;

/// The HS256 token that `jsonwebtoken::encode` gives for the claims
/// `{"username", "user_id", "exp"}` signed with `secret`.
pub uninterp spec fn spec_jwt_token(username: Seq<char>, user_id: u128, exp: u64, secret: Seq<u8>) -> Seq<char>;

/// The 128-bit value of the UUID that `text` writes (`Uuid::parse_str`), or
/// `None` where it writes none.
pub uninterp spec fn spec_uuid_parse(text: Seq<char>) -> Option<u128>;

/// The value of a decimal digit.
pub open spec fn digit_value(c: char) -> nat {
    (c as int - '0' as int) as nat
}

/// Whether every character of `s` is a decimal digit.
pub open spec fn all_digits(s: Seq<char>) -> bool {
    forall|i: int| 0 <= i < s.len() ==> '0' <= #[trigger] s[i] && s[i] <= '9'
}

/// The number that the digits `s` write, most significant first.
pub open spec fn decimal_value(s: Seq<char>) -> nat
    decreases s.len(),
{
    if s.len() == 0 {
        0
    } else {
        decimal_value(s.drop_last()) * 10 + digit_value(s.last())
    }
}

/// The `u64` that a JSON number's text writes, where it is a non-negative
/// integer that fits (as `serde` reads a `usize` from JSON).
pub open spec fn decimal_u64(s: Seq<char>) -> Option<u64> {
    if s.len() > 0 && all_digits(s) && decimal_value(s) <= u64::MAX {
        Some(decimal_value(s) as u64)
    } else {
        None
    }
}

/// The claims that a token's JSON payload holds: a `username` string, a
/// `user_id` string that writes a UUID, and an `exp` integer.
pub open spec fn payload_claims(bytes: Seq<u8>) -> Option<(Seq<char>, u128, u64)> {
    match spec_json_parse(bytes) {
        None => None,
        Some(doc) => match member_str(doc, "username"@) {
            None => None,
            Some(name) => match member_str(doc, "user_id"@) {
                None => None,
                Some(id_text) => match spec_uuid_parse(id_text) {
                    None => None,
                    Some(id) => match member_value(doc, "exp"@) {
                        Some(JsonView::Number(n)) => match decimal_u64(n) {
                            Some(e) => Some((name, id, e)),
                            None => None,
                        },
                        _ => None,
                    },
                },
            },
        },
    }
}

/// The claims that a token carries, where its signature checks with `secret`.
pub open spec fn token_claims(token: Seq<char>, secret: Seq<u8>) -> Option<(Seq<char>, u128, u64)> {
    match spec_jwt_payload(token, secret) {
        Some(bytes) => payload_claims(bytes),
        None => None,
    }
}

/// The claims as plain values.
pub open spec fn claims_view(c: Claims) -> (Seq<char>, u128, u64) {
    (c.username@, c.user_id, c.exp)
}

pub open spec fn opt_claims_view(c: Option<Claims>) -> Option<(Seq<char>, u128, u64)> {
    match c {
        Some(x) => Some(claims_view(x)),
        None => None,
    }
}

/// `jsonwebtoken::decode::<serde_json::Value>` with the default validation
/// (HS256, `exp` required, no audience) but without the expiry check, which
/// would read the clock; the claims are written again as JSON bytes. The claim
/// is that the outcome is a function of the token and the secret, named
/// `spec_jwt_payload`.
#[verifier::external_body]
fn jwt_decode(token: &str, secret: &[u8]) -> (r: Option<Vec<u8>>)
    ensures
        opt_bytes_view(r) == spec_jwt_payload(token@, secret@),
{
    let mut validation = jsonwebtoken::Validation::default();
    validation.validate_exp = false;
    let key = jsonwebtoken::DecodingKey::from_secret(secret);
    match jsonwebtoken::decode::<serde_json::Value>(token, &key, &validation) {
        Ok(data) => serde_json::to_vec(&data.claims).ok(),
        Err(_) => None,
    }
}

/// `jsonwebtoken::encode` with the default header (HS256) of the claims
/// `{"username", "user_id" (the hyphenated UUID), "exp"}`, signed with
/// `secret`. With an HMAC key and claims that `serde_json` always writes,
/// encoding cannot fail. Decoding re-signs the header and payload with the
/// secret and compares, so the token decodes, with the same secret, to the
/// claims it was made from; `Uuid::parse_str` reads the hyphenated UUID back.
#[verifier::external_body]
fn jwt_encode(username: &str, user_id: u128, exp: u64, secret: &[u8]) -> (r: Option<String>)
    ensures
        r is Some,
        r is Some ==> r->0@ == spec_jwt_token(username@, user_id, exp, secret@),
        r is Some ==> token_claims(r->0@, secret@) == Some((username@, user_id, exp)),
{
    let mut claims = serde_json::Map::new();
    claims.insert("username".to_string(), serde_json::Value::String(username.to_string()));
    claims.insert("user_id".to_string(), serde_json::Value::String(uuid::Uuid::from_u128(user_id).to_string()));
    claims.insert("exp".to_string(), serde_json::Value::from(exp));
    let key = jsonwebtoken::EncodingKey::from_secret(secret);
    jsonwebtoken::encode(&jsonwebtoken::Header::default(), &serde_json::Value::Object(claims), &key).ok()
}

/// `uuid::Uuid::parse_str(text)`, as its 128-bit value. The claim is that this
/// is a function of the text, named `spec_uuid_parse`.
#[verifier::external_body]
fn parse_uuid(text: &str) -> (r: Option<u128>)
    ensures
        r == spec_uuid_parse(text@),
{
    uuid::Uuid::parse_str(text).ok().map(|u| u.as_u128())
}

proof fn lemma_prefix_value_le(s: Seq<char>, k: int)
    requires
        0 <= k <= s.len(),
    ensures
        decimal_value(s.take(k)) <= decimal_value(s),
    decreases s.len(),
{
    if k < s.len() {
        lemma_prefix_value_le(s.drop_last(), k);
        assert(s.drop_last().take(k) == s.take(k));
    } else {
        assert(s.take(k) == s);
    }
}

/// The `u64` that a JSON number's text writes, where it is a non-negative
/// integer that fits.
pub fn parse_u64_decimal(s: &str) -> (r: Option<u64>)
    ensures
        r == decimal_u64(s@),
{
    let v = crate::text::chars_of(s);
    if v.len() == 0 {
        return None;
    }
    let mut acc: u64 = 0;
    let mut i: usize = 0;
    while i < v.len()
        invariant
            v@ == s@,
            i <= v.len(),
            all_digits(v@.take(i as int)),
            acc == decimal_value(v@.take(i as int)),
        decreases v.len() - i,
    {
        let c = v[i];
        if !('0' <= c && c <= '9') {
            assert(!all_digits(s@));
            return None;
        }
        let d: u64 = (c as u32 - 48) as u64;
        let ghost next = v@.take(i as int + 1);
        proof {
            assert(next.drop_last() == v@.take(i as int));
            assert(next.last() == c);
            assert(decimal_value(next) == acc * 10 + d);
        }
        if acc > (u64::MAX - d) / 10 {
            proof {
                assert(acc * 10 + d > u64::MAX) by (nonlinear_arith)
                    requires
                        acc > (u64::MAX - d) / 10,
                        d <= 9,
                ;
                lemma_prefix_value_le(s@, i as int + 1);
            }
            return None;
        }
        proof {
            assert(acc * 10 + d <= u64::MAX) by (nonlinear_arith)
                requires
                    acc <= (u64::MAX - d) / 10,
                    d <= 9,
            ;
            assert forall|j: int| 0 <= j < next.len() implies '0' <= #[trigger] next[j] && next[j] <= '9' by {
                if j < i {
                    assert(next[j] == v@.take(i as int)[j]);
                }
            }
        }
        acc = acc * 10 + d;
        i = i + 1;
    }
    assert(v@.take(v.len() as int) == s@);
    Some(acc)
}

/// The claims that a token's JSON payload holds.
pub fn claims_from_payload(payload: &[u8]) -> (r: Option<Claims>)
    ensures
        opt_claims_view(r) == payload_claims(payload@),
{
    let doc = match JsonValue::parse(payload) {
        Some(d) => d,
        None => return None,
    };
    let username = match doc.member_str("username") {
        Some(u) => u,
        None => return None,
    };
    let id_text = match doc.member_str("user_id") {
        Some(t) => t,
        None => return None,
    };
    let user_id = match parse_uuid(id_text.as_str()) {
        Some(id) => id,
        None => return None,
    };
    let exp = match doc.member("exp") {
        Some(JsonValue::Number(n)) => match parse_u64_decimal(n.as_str()) {
            Some(e) => e,
            None => return None,
        },
        _ => return None,
    };
    Some(Claims { username, user_id, exp })
}

/// How long after its `exp` a token is still accepted, in seconds.
pub open spec fn jwt_leeway() -> int {
    60
}

/// Whether a token expiring at `exp` has expired at `now` (seconds since the
/// epoch), the leeway allowed.
pub open spec fn is_expired(exp: u64, now: u64) -> bool {
    exp + jwt_leeway() < now
}

/// The claims a request is authenticated with at `now`: its access token must
/// carry claims for `secret` that name a user (a name and a non-nil
/// identifier), and must not have expired.
pub open spec fn accepted_claims(authorization: Option<Seq<char>>, query: Option<Seq<char>>, secret: Seq<u8>, now: u64) -> Option<(Seq<char>, u128, u64)> {
    match request_token(authorization, query) {
        None => None,
        Some(t) => match token_claims(t, secret) {
            None => None,
            Some(c) => if c.0.len() > 0 && c.1 != 0 && !is_expired(c.2, now) {
                Some(c)
            } else {
                None
            },
        },
    }
}

/// Authenticates a request at `now` (seconds since the epoch) by its access
/// token (the `Authorization: Bearer` header, else the `token` query
/// parameter): the token must be signed with `secret`, unexpired, and carry
/// claims that name a user. Every refusal is `Unauthorized(TokenInvalid)`.
pub fn authenticate(authorization: Option<&str>, query: Option<&str>, secret: &[u8], now: u64) -> (r: Result<Claims, AppError>)
    ensures
        match accepted_claims(opt_str_view(authorization), opt_str_view(query), secret@, now) {
            Some(c) => r matches Ok(x) && claims_view(x) == c,
            None => r == Err::<Claims, AppError>(AppError::Unauthorized(ErrorMessage::TokenInvalid)),
        },
{
    let token = match require_token(authorization, query) {
        Ok(t) => t,
        Err(e) => return Err(e),
    };
    let payload = match jwt_decode(token.as_str(), secret) {
        Some(p) => p,
        None => return Err(AppError::Unauthorized(ErrorMessage::TokenInvalid)),
    };
    let claims = match claims_from_payload(payload.as_slice()) {
        Some(c) => c,
        None => return Err(AppError::Unauthorized(ErrorMessage::TokenInvalid)),
    };
    match check_claims(&claims) {
        Ok(()) => {},
        Err(e) => return Err(e),
    }
    if now > 60 && claims.exp < now - 60 {
        return Err(AppError::Unauthorized(ErrorMessage::TokenInvalid));
    }
    Ok(claims)
}

/// A token that carries claims naming a user, presented as a bearer token, is
/// accepted with exactly those claims until a minute after its expiry, and
/// refused afterwards.
pub proof fn law_bearer_token_accepted_until_expiry(token: Seq<char>, secret: Seq<u8>, now: u64)
    requires
        token_claims(token, secret) matches Some(c) && c.0.len() > 0 && c.1 != 0,
    ensures
        ({
            let c = token_claims(token, secret)->0;
            accepted_claims(Some("Bearer "@ + token), None, secret, now) == (if is_expired(c.2, now) {
                None
            } else {
                Some(c)
            })
        }),
{
    reveal_strlit("Bearer ");
    let h = "Bearer "@ + token;
    assert(h.subrange(0, 7) == "Bearer "@);
    assert(h.subrange(7, h.len() as int) == token);
}

/// Issues the access token of `user_id` at `now_secs` (seconds since the
/// epoch): signed with `secret`, expiring fifteen minutes later. The token
/// carries, for that secret, exactly the claims it was issued with.
pub fn issue_access_token(user_id: u128, username: String, now_secs: i64, secret: &[u8]) -> (r: Result<String, AppError>)
    requires
        now_secs <= i64::MAX - 900,
    ensures
        r matches Ok(t) && {
            &&& t@ == spec_jwt_token(username@, user_id, (now_secs + 900) as u64, secret@)
            &&& token_claims(t@, secret@) == Some((username@, user_id, (now_secs + 900) as u64))
        },
{
    let claims = access_token_claims(user_id, username, now_secs);
    match jwt_encode(claims.username.as_str(), claims.user_id, claims.exp, secret) {
        Some(t) => Ok(t),
        None => Err(AppError::Internal),
    }
}

} // verus!
