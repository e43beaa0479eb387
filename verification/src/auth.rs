//! Accounts and sessions: what a request must look like, how passwords are
//! hashed and checked, the tokens of a session, and the decisions of the
//! authentication flows.
//!
//! Times are milliseconds since the epoch unless said otherwise.
use vstd::prelude::*;
use vstd::string::StringSliceAdditionalSpecFns;
use vstd::utf8::encode_utf8;
use argon2::password_hash::PasswordHasher;
use argon2::password_hash::PasswordVerifier;
use validator::ValidateEmail;
use crate::errors::{AppError, ErrorMessage};
use crate::text::{trim, trim_spec, chars_of, string_from_chars, find_from, lemma_find_from, find_char_from};
use crate::users::{NewUser, PrivacyLevel, User};
use crate::tokens::{TokenPair, token_hash_spec, is_uuid_v4_text};
use crate::email::{Email, reset_body_spec, confirmation_body_spec};

verus! {

// ---------------------------------------------------------------------------
// Requests

pub struct RegisterRequest {
    pub username: String,
    pub email: String,
    pub password: String,
}

pub struct LoginRequest {
    pub email: String,
    pub password: String,
}

pub struct LogoutRequest {
    pub refresh_token: String,
}

pub struct AuthResponse {
    pub access_token: String,
    pub refresh_token: String,
}

pub struct RefreshRequest {
    pub refresh_token: String,
}

pub struct ForgotPasswordRequest {
    pub email: String,
}

pub struct ResetPasswordRequest {
    pub token: String,
    pub new_password: String,
}

/// Whether `validator` takes the text for an e-mail address.
pub uninterp spec fn spec_valid_email(s: Seq<char>) -> bool;

/// `ValidateEmail::validate_email` on a string (the HTML5 rules, with length
/// limits and internationalised domains). The claim is that the answer is a
/// function of the text, named `spec_valid_email`, and that an address with no
/// `@` is refused.
#[verifier::external_body]
fn email_is_valid(s: &str) -> (r: bool)
    ensures
        r == spec_valid_email(s@),
        r ==> s@.contains('@'),
{
    s.validate_email()
}

/// Whether a user name has an accepted length: 3 to 32 characters.
pub open spec fn username_length_ok(username: Seq<char>) -> bool {
    3 <= username.len() <= 32
}

/// Whether a password is long enough: at least 8 characters.
pub open spec fn password_ok(password: Seq<char>) -> bool {
    password.len() >= 8
}

/// The messages a registration is refused with, in order.
pub open spec fn registration_errors(username_ok: bool, email_ok: bool, password_ok: bool) -> Seq<ErrorMessage> {
    (if username_ok { Seq::empty() } else { seq![ErrorMessage::UsernameInvalidLength] })
        + (if email_ok { Seq::empty() } else { seq![ErrorMessage::EmailInvalidFormat] })
        + (if password_ok { Seq::empty() } else { seq![ErrorMessage::PasswordInvalidPolicy] })
}

/// Whether `r` refuses exactly with the messages `ms` (accepts where there are none).
pub open spec fn refuses_with(r: Result<(), AppError>, ms: Seq<ErrorMessage>) -> bool {
    if ms.len() == 0 {
        r is Ok
    } else {
        r matches Err(AppError::Validation(v)) && v@ == ms
    }
}

fn refusal(ms: Vec<ErrorMessage>) -> (r: Result<(), AppError>)
    ensures
        refuses_with(r, ms@),
{
    if ms.len() == 0 {
        Ok(())
    } else {
        Err(AppError::Validation(ms))
    }
}

fn one_message(m: ErrorMessage) -> (v: Vec<ErrorMessage>)
    ensures
        v@ == seq![m],
{
    let mut v: Vec<ErrorMessage> = Vec::new();
    v.push(m);
    v
}

impl RegisterRequest {
    /// Checks a registration: the user name's length, the e-mail address, and
    /// the password's length, reporting every failure in that order.
    pub fn validate(&self) -> (r: Result<(), AppError>)
        ensures
            refuses_with(r, registration_errors(
                username_length_ok(self.username@),
                spec_valid_email(self.email@),
                password_ok(self.password@),
            )),
    {
        let mut errors: Vec<ErrorMessage> = Vec::new();
        let ulen = chars_of(self.username.as_str()).len();
        if ulen < 3 || ulen > 32 {
            errors.push(ErrorMessage::UsernameInvalidLength);
        }
        if !email_is_valid(self.email.as_str()) {
            errors.push(ErrorMessage::EmailInvalidFormat);
        }
        if chars_of(self.password.as_str()).len() < 8 {
            errors.push(ErrorMessage::PasswordInvalidPolicy);
        }
        proof {
            assert(errors@ =~= registration_errors(
                username_length_ok(self.username@),
                spec_valid_email(self.email@),
                password_ok(self.password@),
            ));
        }
        refusal(errors)
    }
}

/// Checks an e-mail address as the login, the password-reset request and the
/// change of address do.
pub fn validate_email_address(email: &str) -> (r: Result<(), AppError>)
    ensures
        refuses_with(r, if spec_valid_email(email@) { Seq::empty() } else { seq![ErrorMessage::EmailInvalidFormat] }),
{
    if email_is_valid(email) {
        Ok(())
    } else {
        refusal(one_message(ErrorMessage::EmailInvalidFormat))
    }
}

/// Checks a new password's length.
pub fn validate_new_password(password: &str) -> (r: Result<(), AppError>)
    ensures
        refuses_with(r, if password_ok(password@) { Seq::empty() } else { seq![ErrorMessage::PasswordInvalidPolicy] }),
{
    if chars_of(password).len() < 8 {
        refusal(one_message(ErrorMessage::PasswordInvalidPolicy))
    } else {
        Ok(())
    }
}

/// Checks a new user name's length.
pub fn validate_username(username: &str) -> (r: Result<(), AppError>)
    ensures
        refuses_with(r, if username_length_ok(username@) { Seq::empty() } else { seq![ErrorMessage::UsernameInvalidLength] }),
{
    let n = chars_of(username).len();
    if n < 3 || n > 32 {
        refusal(one_message(ErrorMessage::UsernameInvalidLength))
    } else {
        Ok(())
    }
}

impl LoginRequest {
    pub fn validate(&self) -> (r: Result<(), AppError>)
        ensures
            refuses_with(r, if spec_valid_email(self.email@) { Seq::empty() } else { seq![ErrorMessage::EmailInvalidFormat] }),
    {
        validate_email_address(self.email.as_str())
    }
}

impl ForgotPasswordRequest {
    pub fn validate(&self) -> (r: Result<(), AppError>)
        ensures
            refuses_with(r, if spec_valid_email(self.email@) { Seq::empty() } else { seq![ErrorMessage::EmailInvalidFormat] }),
    {
        validate_email_address(self.email.as_str())
    }

    /// What the request is answered with once the reset flow (run only for an
    /// accepted address) gave `flow`: the refusal of a malformed address, and
    /// otherwise success, whatever the flow gave, so that the answer does not
    /// tell whether an account has that address.
    pub fn reply(&self, flow: Result<(), AppError>) -> (r: Result<(), AppError>)
        ensures
            refuses_with(r, if spec_valid_email(self.email@) { Seq::empty() } else { seq![ErrorMessage::EmailInvalidFormat] }),
    {
        match self.validate() {
            Err(e) => Err(e),
            Ok(()) => match flow {
                Ok(()) => Ok(()),
                Err(_) => Ok(()),
            },
        }
    }
}

impl ResetPasswordRequest {
    pub fn validate(&self) -> (r: Result<(), AppError>)
        ensures
            refuses_with(r, if password_ok(self.new_password@) { Seq::empty() } else { seq![ErrorMessage::PasswordInvalidPolicy] }),
    {
        validate_new_password(self.new_password.as_str())
    }
}

// ---------------------------------------------------------------------------
// Normal forms

/// What `str::to_lowercase` gives for `s` (full Unicode lower-casing).
pub uninterp spec fn spec_to_lowercase(s: Seq<char>) -> Seq<char>;

/// `str::to_lowercase`. The claim is that the result is a function of the
/// text, named `spec_to_lowercase`.
#[verifier::external_body]
fn to_lowercase(s: &str) -> (r: String)
    ensures
        r@ == spec_to_lowercase(s@),
{
    s.to_lowercase()
}

/// The form an e-mail address is stored and looked up under: trimmed, then
/// lower-cased.
pub open spec fn normal_email(email: Seq<char>) -> Seq<char> {
    spec_to_lowercase(trim_spec(email))
}

/// The form an e-mail address is stored and looked up under.
pub fn normalize_email(email: &str) -> (r: String)
    ensures
        r@ == normal_email(email@),
{
    let t = trim(email);
    to_lowercase(t.as_str())
}

// ---------------------------------------------------------------------------
// Passwords

/// What Argon2 (default parameters) gives for the password bytes and the
/// base64 salt, as a PHC string, or `None` where it refuses them.
pub uninterp spec fn spec_argon2_hash(password: Seq<u8>, salt: Seq<char>) -> Option<Seq<char>>;

/// Whether the password bytes match the PHC string: `None` where the string
/// does not parse, else whether verification succeeds.
pub uninterp spec fn spec_argon2_verify(password: Seq<u8>, hash: Seq<char>) -> Option<bool>;

pub open spec fn opt_string_view(v: Option<String>) -> Option<Seq<char>> {
    match v {
        Some(s) => Some(s@),
        None => None,
    }
}

/// Whether `c` is a character of the B64 alphabet (standard, unpadded).
pub open spec fn is_b64_char(c: char) -> bool {
    ('A' <= c && c <= 'Z') || ('a' <= c && c <= 'z') || ('0' <= c && c <= '9') || c == '+' || c == '/'
}

/// Whether `s` is the B64 text of 16 bytes, as a salt is generated: 22
/// characters of the alphabet, the last of which carries only two bits (so it
/// is one of `A`, `Q`, `g`, `w`).
pub open spec fn is_generated_salt(s: Seq<char>) -> bool {
    &&& s.len() == 22
    &&& forall|i: int| 0 <= i < 22 ==> is_b64_char(#[trigger] s[i])
    &&& (s[21] == 'A' || s[21] == 'Q' || s[21] == 'g' || s[21] == 'w')
}

/// The longest password that Argon2 accepts, in bytes.
pub open spec fn max_password_bytes() -> int {
    0xFFFF_FFFF
}

/// `SaltString::generate(&mut OsRng)`: 16 random bytes, written in B64. What
/// is claimed is the form of every outcome: 22 characters of the alphabet,
/// the encoding of 16 bytes; not which bytes.
#[verifier::external_body]
fn generate_salt() -> (r: String)
    ensures
        is_generated_salt(r@),
{
    argon2::password_hash::SaltString::generate(&mut argon2::password_hash::rand_core::OsRng).as_str().to_string()
}

/// `Argon2::default().hash_password(password, salt)`, written as its PHC
/// string; `None` where the salt does not parse or hashing fails. The claim is
/// that this is a function of the password bytes and the salt, named
/// `spec_argon2_hash`, and that it succeeds for a salt in the form that
/// `generate_salt` gives and a password of at most `u32::MAX` bytes (the salt
/// then parses and decodes to 16 bytes, at least Argon2's 8, and the default
/// parameters are valid).
#[verifier::external_body]
fn argon2_hash(password: &str, salt: &str) -> (r: Option<String>)
    ensures
        opt_string_view(r) == spec_argon2_hash(password.spec_bytes(), salt@),
        is_generated_salt(salt@) && password.spec_bytes().len() <= max_password_bytes() ==> r is Some,
{
    match argon2::password_hash::SaltString::from_b64(salt) {
        Ok(s) => argon2::Argon2::default().hash_password(password.as_bytes(), &s).ok().map(|h| h.to_string()),
        Err(_) => None,
    }
}

/// `PasswordHash::new(hash)` then `Argon2::default().verify_password`:
/// `None` where the PHC string does not parse, else whether the password
/// matches. Verification hashes the password again with the salt and the
/// parameters that the string holds and compares the outputs, so a string that
/// hashing the same password gave always matches. A PHC string starts with
/// `$`, so an empty string, or one that starts otherwise, does not parse. The
/// claim is that the answer is a function of the password bytes and the
/// string, named `spec_argon2_verify`.
#[verifier::external_body]
fn argon2_verify(password: &str, hash: &str) -> (r: Option<bool>)
    ensures
        r == spec_argon2_verify(password.spec_bytes(), hash@),
        (hash@.len() == 0 || hash@[0] != '$') ==> r is None,
        (exists|salt: Seq<char>| spec_argon2_hash(password.spec_bytes(), salt) == Some(hash@)) ==> r == Some(true),
{
    match argon2::password_hash::PasswordHash::new(hash) {
        Ok(parsed) => Some(argon2::Argon2::default().verify_password(password.as_bytes(), &parsed).is_ok()),
        Err(_) => None,
    }
}

/// Whether `hash` is the hash of `password` under some salt.
pub open spec fn is_hash_of(password: Seq<u8>, hash: Seq<char>) -> bool {
    exists|salt: Seq<char>| spec_argon2_hash(password, salt) == Some(hash)
}

/// Hashes a password with a fresh random salt. It succeeds for every password
/// of at most `u32::MAX` bytes.
pub fn hash_password(password: &str) -> (r: Result<String, AppError>)
    ensures
        r matches Ok(h) ==> is_hash_of(password.spec_bytes(), h@),
        r matches Err(e) ==> e == AppError::Internal,
        password.spec_bytes().len() <= max_password_bytes() ==> r is Ok,
{
    let salt = generate_salt();
    match argon2_hash(password, salt.as_str()) {
        Some(h) => Ok(h),
        None => Err(AppError::Internal),
    }
}

/// What checking a password against a stored hash is answered with.
pub open spec fn verify_spec(password: Seq<u8>, hash: Seq<char>) -> Result<(), AppError> {
    match spec_argon2_verify(password, hash) {
        None => Err(AppError::Internal),
        Some(true) => Ok(()),
        Some(false) => Err(AppError::Unauthorized(ErrorMessage::InvalidCredentials)),
    }
}

/// Checks a password against a stored hash: an unreadable hash is an internal
/// error, a wrong password an authorization failure. A password always matches
/// a hash that hashing it gave.
pub fn verify_password(password: &str, hash: &str) -> (r: Result<(), AppError>)
    ensures
        r == verify_spec(password.spec_bytes(), hash@),
        is_hash_of(password.spec_bytes(), hash@) ==> r is Ok,
        (hash@.len() == 0 || hash@[0] != '$') ==> r == Err::<(), AppError>(AppError::Internal),
{
    match argon2_verify(password, hash) {
        None => Err(AppError::Internal),
        Some(true) => Ok(()),
        Some(false) => Err(AppError::Unauthorized(ErrorMessage::InvalidCredentials)),
    }
}

// ---------------------------------------------------------------------------
// Tokens of a session

/// What an access token says of its holder. `exp` is in seconds since the
/// epoch.
#[derive(Debug, Clone)]
pub struct Claims {
    pub username: String,
    pub user_id: u128,
    pub exp: u64,
}

/// How long an access token lasts, in seconds (fifteen minutes).
pub open spec fn access_token_lifetime_secs() -> int {
    900
}

/// The claims of an access token issued at `now_secs` (seconds since the
/// epoch): it expires fifteen minutes later.
pub fn access_token_claims(user_id: u128, username: String, now_secs: i64) -> (r: Claims)
    requires
        now_secs <= i64::MAX - 900,
    ensures
        r.user_id == user_id,
        r.username == username,
        r.exp == (now_secs + 900) as u64,
{
    Claims { username, user_id, exp: (now_secs + 900) as u64 }
}

/// Checks the claims of a decoded access token: they must name a user.
pub fn check_claims(claims: &Claims) -> (r: Result<(), AppError>)
    ensures
        (claims.username@.len() == 0 || claims.user_id == 0) ==> r == Err::<(), AppError>(AppError::Unauthorized(ErrorMessage::TokenInvalid)),
        !(claims.username@.len() == 0 || claims.user_id == 0) ==> r is Ok,
{
    if claims.username.as_str().is_empty() || claims.user_id == 0 {
        return Err(AppError::Unauthorized(ErrorMessage::TokenInvalid));
    }
    Ok(())
}

/// A refresh token as stored.
pub struct RefreshToken {
    pub token_hash: String,
    pub user_id: u128,
    pub created_at: i64,
    pub expires_at: i64,
}

/// A refresh token to be stored.
pub struct NewRefreshToken {
    pub token_hash: String,
    pub user_id: u128,
    pub expires_at: i64,
}

/// A password-reset token as stored.
pub struct ResetToken {
    pub token_hash: String,
    pub user_id: u128,
    pub created_at: i64,
    pub expires_at: i64,
}

/// A password-reset token to be stored.
pub struct NewResetToken {
    pub token_hash: String,
    pub user_id: u128,
    pub expires_at: i64,
}

/// An address-confirmation token as stored.
pub struct EmailToken {
    pub token_hash: String,
    pub user_id: u128,
    pub new_email: String,
    pub created_at: i64,
    pub expires_at: i64,
}

/// An address-confirmation token to be stored.
pub struct NewEmailToken {
    pub token_hash: String,
    pub user_id: u128,
    pub new_email: String,
    pub expires_at: i64,
}

/// How long a refresh token lasts (seven days).
pub open spec fn refresh_token_lifetime() -> int {
    604_800_000
}

/// How long a password-reset token lasts (fifteen minutes).
pub open spec fn reset_token_lifetime() -> int {
    900_000
}

/// How long an address-confirmation token lasts (twenty-four hours).
pub open spec fn email_token_lifetime() -> int {
    86_400_000
}

/// A new refresh token for `user_id` issued at `now`: the plain token to hand
/// out, and the record to store.
pub fn new_refresh_token(user_id: u128, now: i64) -> (r: (String, NewRefreshToken))
    requires
        now <= i64::MAX - 604_800_000,
    ensures
        is_uuid_v4_text(r.0@),
        r.1.token_hash@ == token_hash_spec(r.0@),
        r.1.user_id == user_id,
        r.1.expires_at == now + refresh_token_lifetime(),
{
    let pair = TokenPair::generate();
    (pair.plain, NewRefreshToken { token_hash: pair.hash, user_id, expires_at: now + 604_800_000 })
}

/// What a stored token is answered with at `now`: a missing token is invalid,
/// one whose expiry is before `now` expired; otherwise its user.
pub open spec fn stored_token_spec(stored: Option<(u128, i64)>, now: i64) -> Result<u128, AppError> {
    match stored {
        None => Err(AppError::Unauthorized(ErrorMessage::TokenInvalid)),
        Some((user_id, expires_at)) => if expires_at < now {
            Err(AppError::Unauthorized(ErrorMessage::TokenExpired))
        } else {
            Ok(user_id)
        },
    }
}

/// Checks a token that was looked up (and taken out of the store) by its hash.
pub fn check_stored_token(stored: Option<(u128, i64)>, now: i64) -> (r: Result<u128, AppError>)
    ensures
        r == stored_token_spec(stored, now),
{
    match stored {
        None => Err(AppError::Unauthorized(ErrorMessage::TokenInvalid)),
        Some((user_id, expires_at)) => {
            if expires_at < now {
                Err(AppError::Unauthorized(ErrorMessage::TokenExpired))
            } else {
                Ok(user_id)
            }
        },
    }
}

/// A token is accepted exactly when it is found and its expiry is not before
/// the time it is presented.
pub proof fn law_token_expiry(user_id: u128, expires_at: i64, now: i64)
    ensures
        stored_token_spec(Some((user_id, expires_at)), now) is Ok <==> now <= expires_at,
        stored_token_spec(None, now) is Err,
{
}

/// A refresh token issued at `issued` is accepted when presented up to seven
/// days later.
pub proof fn law_fresh_refresh_token_accepted(user_id: u128, issued: i64, now: i64)
    requires
        issued <= now <= issued + refresh_token_lifetime(),
        issued + refresh_token_lifetime() <= i64::MAX,
    ensures
        stored_token_spec(Some((user_id, (issued + refresh_token_lifetime()) as i64)), now) == Ok::<u128, AppError>(user_id),
{
}

/// The user of a refresh token, where it still exists.
pub fn refresh_token_user(user: Option<User>) -> (r: Result<User, AppError>)
    ensures
        match user {
            Some(u) => r == Ok::<User, AppError>(u),
            None => r == Err::<User, AppError>(AppError::Unauthorized(ErrorMessage::TokenInvalid)),
        },
{
    match user {
        Some(u) => Ok(u),
        None => Err(AppError::Unauthorized(ErrorMessage::TokenInvalid)),
    }
}

/// Checks an address-confirmation token; gives its user and the address to
/// confirm.
pub fn check_email_token(stored: Option<EmailToken>, now: i64) -> (r: Result<(u128, String), AppError>)
    ensures
        match stored {
            None => r == Err::<(u128, String), AppError>(AppError::Unauthorized(ErrorMessage::TokenInvalid)),
            Some(t) => if t.expires_at < now {
                r == Err::<(u128, String), AppError>(AppError::Unauthorized(ErrorMessage::TokenExpired))
            } else {
                r == Ok::<(u128, String), AppError>((t.user_id, t.new_email))
            },
        },
{
    match stored {
        None => Err(AppError::Unauthorized(ErrorMessage::TokenInvalid)),
        Some(t) => {
            if t.expires_at < now {
                Err(AppError::Unauthorized(ErrorMessage::TokenExpired))
            } else {
                Ok((t.user_id, t.new_email))
            }
        },
    }
}

// ---------------------------------------------------------------------------
// Flows

/// The user to store for a registration: the name trimmed, the address in
/// its normal form, the password hashed, the address not yet confirmed, and
/// the genres visible to friends.
pub fn registration(username: &str, email: &str, password: &str) -> (r: Result<NewUser, AppError>)
    ensures
        r matches Ok(u) ==> {
            &&& u.username@ == trim_spec(username@)
            &&& u.email@ == normal_email(email@)
            &&& u.password_hash matches Some(h) && is_hash_of(password.spec_bytes(), h@)
            &&& u.email_confirmed == Some(false)
            &&& u.google_id is None
            &&& u.favorite_genres is None
            &&& u.privacy_level == PrivacyLevel::Friends
        },
        r matches Err(e) ==> e == AppError::Internal,
        password.spec_bytes().len() <= max_password_bytes() ==> r is Ok,
{
    let username = trim(username);
    let email = normalize_email(email);
    let password_hash = match hash_password(password) {
        Ok(h) => h,
        Err(e) => return Err(e),
    };
    Ok(NewUser {
        username,
        email,
        password_hash: Some(password_hash),
        email_confirmed: Some(false),
        google_id: None,
        favorite_genres: None,
        privacy_level: PrivacyLevel::Friends,
    })
}

/// What a login with `password` is answered with, `user` being the account
/// found under the address: it must exist, have a password, and the password
/// must match.
pub open spec fn login_spec(user: Option<User>, password: Seq<u8>) -> Result<User, AppError> {
    match user {
        None => Err(AppError::Unauthorized(ErrorMessage::InvalidCredentials)),
        Some(u) => match u.password_hash {
            None => Err(AppError::Unauthorized(ErrorMessage::InvalidCredentials)),
            Some(h) => match verify_spec(password, h@) {
                Ok(_) => Ok(u),
                Err(e) => Err(e),
            },
        },
    }
}

/// Checks a login.
pub fn check_login(user: Option<User>, password: &str) -> (r: Result<User, AppError>)
    ensures
        r == login_spec(user, password.spec_bytes()),
        (user matches Some(u) && (u.password_hash matches Some(h) && is_hash_of(password.spec_bytes(), h@)))
            ==> r == Ok::<User, AppError>(user->0),
{
    match user {
        None => Err(AppError::Unauthorized(ErrorMessage::InvalidCredentials)),
        Some(u) => {
            let ok = match &u.password_hash {
                None => return Err(AppError::Unauthorized(ErrorMessage::InvalidCredentials)),
                Some(h) => verify_password(password, h.as_str()),
            };
            match ok {
                Ok(()) => Ok(u),
                Err(e) => Err(e),
            }
        },
    }
}

/// Checks a change of password: the account must exist, have a password, and
/// the current password must match.
pub fn check_password_change(user: Option<User>, current_password: &str) -> (r: Result<(), AppError>)
    ensures
        match user {
            None => r == Err::<(), AppError>(AppError::NotFound(ErrorMessage::UserNotFound)),
            Some(u) => match u.password_hash {
                None => r == Err::<(), AppError>(AppError::Unauthorized(ErrorMessage::InvalidCredentials)),
                Some(h) => r == verify_spec(current_password.spec_bytes(), h@),
            },
        },
{
    match user {
        None => Err(AppError::NotFound(ErrorMessage::UserNotFound)),
        Some(u) => match &u.password_hash {
            None => Err(AppError::Unauthorized(ErrorMessage::InvalidCredentials)),
            Some(h) => verify_password(current_password, h.as_str()),
        },
    }
}

/// What to send and store for a password reset.
pub struct ResetPlan {
    pub recipient: String,
    pub email: Email,
    pub token: NewResetToken,
}

/// What to send and store for an address confirmation.
pub struct ConfirmationPlan {
    pub recipient: String,
    pub email: Email,
    pub token: NewEmailToken,
}

/// Plans a password reset for the account found under an address at `now`:
/// there must be one, with no reset token still valid; a fresh token is
/// mailed to the address, and its hash stored for fifteen minutes.
pub fn plan_password_reset(user: Option<User>, has_valid_token: bool, recipient: String, now: i64) -> (r: Result<ResetPlan, AppError>)
    requires
        now <= i64::MAX - 900_000,
    ensures
        user is None ==> r == Err::<ResetPlan, AppError>(AppError::NotFound(ErrorMessage::UserNotFound)),
        user is Some && has_valid_token ==> r == Err::<ResetPlan, AppError>(AppError::TooManyRequests(ErrorMessage::TooManyEmails)),
        user is Some && !has_valid_token ==> (r matches Ok(p) && {
            &&& p.recipient == recipient
            &&& p.token.user_id == user->0.id
            &&& p.token.expires_at == now + reset_token_lifetime()
            &&& p.email.subject@ == "Reset your password"@
            &&& exists|plain: Seq<char>| is_uuid_v4_text(plain) && p.token.token_hash@ == token_hash_spec(plain) && p.email.body@ == reset_body_spec(plain)
        }),
{
    let u = match user {
        None => return Err(AppError::NotFound(ErrorMessage::UserNotFound)),
        Some(u) => u,
    };
    if has_valid_token {
        return Err(AppError::TooManyRequests(ErrorMessage::TooManyEmails));
    }
    let pair = TokenPair::generate();
    let email = Email::for_password_reset(pair.plain.as_str());
    let ghost plain = pair.plain@;
    let token = NewResetToken { token_hash: pair.hash, user_id: u.id, expires_at: now + 900_000 };
    assert(is_uuid_v4_text(plain) && token.token_hash@ == token_hash_spec(plain) && email.body@ == reset_body_spec(plain));
    Ok(ResetPlan { recipient, email, token })
}

/// Plans the confirmation of a user's address at `now`: the account must
/// exist, with no confirmation token still valid; a fresh token is mailed to
/// its address, and its hash stored with that address for twenty-four hours.
pub fn plan_email_confirmation(user: Option<User>, has_valid_token: bool, now: i64) -> (r: Result<ConfirmationPlan, AppError>)
    requires
        now <= i64::MAX - 86_400_000,
    ensures
        user is None ==> r == Err::<ConfirmationPlan, AppError>(AppError::NotFound(ErrorMessage::UserNotFound)),
        user is Some && has_valid_token ==> r == Err::<ConfirmationPlan, AppError>(AppError::TooManyRequests(ErrorMessage::TooManyEmails)),
        user is Some && !has_valid_token ==> (r matches Ok(p) && {
            &&& p.recipient == user->0.email
            &&& p.token.user_id == user->0.id
            &&& p.token.new_email == user->0.email
            &&& p.token.expires_at == now + email_token_lifetime()
            &&& p.email.subject@ == "Confirm your email address"@
            &&& exists|plain: Seq<char>| is_uuid_v4_text(plain) && p.token.token_hash@ == token_hash_spec(plain) && p.email.body@ == confirmation_body_spec(plain)
        }),
{
    let u = match user {
        None => return Err(AppError::NotFound(ErrorMessage::UserNotFound)),
        Some(u) => u,
    };
    if has_valid_token {
        return Err(AppError::TooManyRequests(ErrorMessage::TooManyEmails));
    }
    let pair = TokenPair::generate();
    let email = Email::for_email_confirmation(pair.plain.as_str());
    let ghost plain = pair.plain@;
    let token = NewEmailToken { token_hash: pair.hash, user_id: u.id, new_email: u.email.clone(), expires_at: now + 86_400_000 };
    assert(is_uuid_v4_text(plain) && token.token_hash@ == token_hash_spec(plain) && email.body@ == confirmation_body_spec(plain));
    Ok(ConfirmationPlan { recipient: u.email, email, token })
}

// ---------------------------------------------------------------------------
// Finding the access token of a request

/// The token of an `Authorization` header of the form `Bearer <token>`.
pub open spec fn bearer_token(header: Seq<char>) -> Option<Seq<char>> {
    if header.len() >= 7 && header.subrange(0, 7) == "Bearer "@ {
        Some(header.subrange(7, header.len() as int))
    } else {
        None
    }
}

/// The first index in `[from, end)` where `s` holds `c`, or `end`.
pub open spec fn find_within(s: Seq<char>, c: char, from: int, end: int) -> int {
    if find_from(s, c, from) < end {
        find_from(s, c, from)
    } else {
        end
    }
}

/// The token that the query parameter `s[start..end]` gives: its name must be
/// `token`, and its value runs up to the next `=`.
pub open spec fn param_token(s: Seq<char>, start: int, end: int) -> Option<Seq<char>> {
    let eq = find_within(s, '=', start, end);
    if eq >= end {
        None
    } else if s.subrange(start, eq) == "token"@ {
        Some(s.subrange(eq + 1, find_within(s, '=', eq + 1, end)))
    } else {
        None
    }
}

/// The token of the first `token=` parameter of the query, from `start` on.
pub open spec fn query_token_from(s: Seq<char>, start: int) -> Option<Seq<char>>
    decreases s.len() - start,
{
    if start < 0 || start > s.len() {
        None
    } else {
        let end = find_from(s, '&', start);
        proof {
            lemma_find_from(s, '&', start);
        }
        match param_token(s, start, end) {
            Some(t) => Some(t),
            None => if end >= s.len() {
                None
            } else {
                query_token_from(s, end + 1)
            },
        }
    }
}

/// The access token of a request: the one of its `Authorization: Bearer`
/// header, else the first `token` parameter of its query.
pub open spec fn request_token(authorization: Option<Seq<char>>, query: Option<Seq<char>>) -> Option<Seq<char>> {
    match authorization {
        Some(h) if bearer_token(h) is Some => bearer_token(h),
        _ => match query {
            Some(q) => query_token_from(q, 0),
            None => None,
        },
    }
}

fn find_char_within(s: &Vec<char>, c: char, from: usize, end: usize) -> (r: usize)
    requires
        from <= end <= s.len(),
    ensures
        r == find_within(s@, c, from as int, end as int),
        from <= r <= end,
{
    proof {
        lemma_find_from(s@, c, from as int);
    }
    let f = find_char_from(s, c, from);
    if f < end {
        f
    } else {
        end
    }
}

fn chars_range(s: &Vec<char>, a: usize, b: usize) -> (r: Vec<char>)
    requires
        a <= b <= s.len(),
    ensures
        r@ == s@.subrange(a as int, b as int),
{
    let mut r: Vec<char> = Vec::new();
    let mut i = a;
    while i < b
        invariant
            a <= i <= b <= s.len(),
            r@ == s@.subrange(a as int, i as int),
        decreases b - i,
    {
        r.push(s[i]);
        assert(s@.subrange(a as int, i as int + 1) == s@.subrange(a as int, i as int).push(s@[i as int]));
        i = i + 1;
    }
    r
}

fn chars_eq_str(v: &Vec<char>, t: &str) -> (r: bool)
    ensures
        r == (v@ == t@),
{
    let w = chars_of(t);
    if v.len() != w.len() {
        return false;
    }
    let mut i: usize = 0;
    while i < v.len()
        invariant
            w@ == t@,
            v.len() == w.len(),
            i <= v.len(),
            forall|j: int| 0 <= j < i ==> v@[j] == w@[j],
        decreases v.len() - i,
    {
        if v[i] != w[i] {
            return false;
        }
        i = i + 1;
    }
    assert(v@ =~= w@);
    true
}

fn param_token_exec(s: &Vec<char>, start: usize, end: usize) -> (r: Option<Vec<char>>)
    requires
        start <= end <= s.len(),
    ensures
        match r {
            Some(v) => param_token(s@, start as int, end as int) == Some(v@),
            None => param_token(s@, start as int, end as int) is None,
        },
{
    let eq = find_char_within(s, '=', start, end);
    if eq >= end {
        return None;
    }
    let name = chars_range(s, start, eq);
    if !chars_eq_str(&name, "token") {
        return None;
    }
    let stop = find_char_within(s, '=', eq + 1, end);
    Some(chars_range(s, eq + 1, stop))
}

fn query_token_exec(s: &Vec<char>, start: usize) -> (r: Option<Vec<char>>)
    requires
        start <= s.len(),
    ensures
        match r {
            Some(v) => query_token_from(s@, start as int) == Some(v@),
            None => query_token_from(s@, start as int) is None,
        },
    decreases s.len() - start,
{
    proof {
        lemma_find_from(s@, '&', start as int);
    }
    let end = find_char_from(s, '&', start);
    match param_token_exec(s, start, end) {
        Some(t) => Some(t),
        None => {
            if end >= s.len() {
                None
            } else {
                query_token_exec(s, end + 1)
            }
        },
    }
}

fn bearer_token_exec(header: &str) -> (r: Option<String>)
    ensures
        opt_string_view(r) == bearer_token(header@),
{
    let h = chars_of(header);
    if h.len() < 7 {
        return None;
    }
    let prefix = chars_range(&h, 0, 7);
    if !chars_eq_str(&prefix, "Bearer ") {
        return None;
    }
    let rest = chars_range(&h, 7, h.len());
    Some(string_from_chars(rest.as_slice()))
}

pub open spec fn opt_str_view(v: Option<&str>) -> Option<Seq<char>> {
    match v {
        Some(s) => Some(s@),
        None => None,
    }
}

/// The access token of a request, from its `Authorization` header and its
/// query string.
pub fn extract_token(authorization: Option<&str>, query: Option<&str>) -> (r: Option<String>)
    ensures
        opt_string_view(r) == request_token(opt_str_view(authorization), opt_str_view(query)),
{
    if let Some(h) = authorization {
        if let Some(t) = bearer_token_exec(h) {
            return Some(t);
        }
    }
    match query {
        Some(q) => {
            let v = chars_of(q);
            match query_token_exec(&v, 0) {
                Some(t) => Some(string_from_chars(t.as_slice())),
                None => None,
            }
        },
        None => None,
    }
}

/// Finding the token of a request for the authentication check: a request
/// without one is refused as carrying an invalid token.
pub fn require_token(authorization: Option<&str>, query: Option<&str>) -> (r: Result<String, AppError>)
    ensures
        match request_token(opt_str_view(authorization), opt_str_view(query)) {
            Some(t) => r matches Ok(x) && x@ == t,
            None => r == Err::<String, AppError>(AppError::Unauthorized(ErrorMessage::TokenInvalid)),
        },
{
    match extract_token(authorization, query) {
        Some(t) => Ok(t),
        None => Err(AppError::Unauthorized(ErrorMessage::TokenInvalid)),
    }
}

} // verus!
