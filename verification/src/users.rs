//! Users, their profiles, and who may see what of them.
//!
//! User identifiers are UUIDs held as their 128-bit value (`Uuid::as_u128`,
//! which orders as the UUIDs do); times are milliseconds since the epoch.
use vstd::prelude::*;
use crate::errors::{AppError, ErrorMessage};
use crate::text::str_eq;
use crate::auth::{refuses_with, username_length_ok, password_ok, spec_valid_email, validate_username, validate_email_address, validate_new_password};

verus! {

/// Who may see a user's favourite genres.
#[derive(Debug, Clone, Copy, PartialEq, Eq, Structural)]
pub enum PrivacyLevel {
    Public,
    Friends,
    Private,
}

/// A user as stored.
#[derive(Debug, Clone)]
pub struct User {
    pub id: u128,
    pub username: String,
    pub email: String,
    pub password_hash: Option<String>,
    pub email_confirmed: bool,
    pub google_id: Option<String>,
    pub favorite_genres: Vec<String>,
    pub privacy_level: PrivacyLevel,
    pub is_subscribed: bool,
    pub end_subscription_date: Option<i64>,
}

/// A user to be stored.
pub struct NewUser {
    pub username: String,
    pub email: String,
    pub password_hash: Option<String>,
    pub email_confirmed: Option<bool>,
    pub google_id: Option<String>,
    pub favorite_genres: Option<Vec<String>>,
    pub privacy_level: PrivacyLevel,
}

/// What a user is shown of their own account.
pub struct UserResponse {
    pub id: u128,
    pub username: String,
    pub email: String,
    pub email_confirmed: bool,
    pub favorite_genres: Vec<String>,
    pub privacy_level: PrivacyLevel,
    pub is_subscribed: bool,
    pub end_subscription_date: Option<i64>,
}

/// What others are shown of a user.
pub struct PublicUserResponse {
    pub id: u128,
    pub username: String,
    pub favorite_genres: Option<Vec<String>>,
    pub privacy_level: PrivacyLevel,
}

pub struct UpdateFavoriteGenresRequest {
    pub favorite_genres: Vec<String>,
}

pub struct UpdatePrivacyLevelRequest {
    pub privacy_level: PrivacyLevel,
}

impl UserResponse {
    /// What a user is shown of their own account.
    pub fn from_user(user: User) -> (r: UserResponse)
        ensures
            r.id == user.id,
            r.username == user.username,
            r.email == user.email,
            r.email_confirmed == user.email_confirmed,
            r.favorite_genres == user.favorite_genres,
            r.privacy_level == user.privacy_level,
            r.is_subscribed == user.is_subscribed,
            r.end_subscription_date == user.end_subscription_date,
    {
        UserResponse {
            id: user.id,
            username: user.username,
            email: user.email,
            email_confirmed: user.email_confirmed,
            favorite_genres: user.favorite_genres,
            privacy_level: user.privacy_level,
            is_subscribed: user.is_subscribed,
            end_subscription_date: user.end_subscription_date,
        }
    }

    /// The stand-in account of a socket's user, known only by identifier and
    /// name.
    pub fn for_socket(user_id: u128, username: String) -> (r: UserResponse)
        ensures
            r.id == user_id,
            r.username == username,
            r.email@ == Seq::<char>::empty(),
            !r.email_confirmed,
            r.favorite_genres@.len() == 0,
            r.privacy_level == PrivacyLevel::Public,
            !r.is_subscribed,
            r.end_subscription_date is None,
    {
        UserResponse {
            id: user_id,
            username,
            email: String::new(),
            email_confirmed: false,
            favorite_genres: Vec::new(),
            privacy_level: PrivacyLevel::Public,
            is_subscribed: false,
            end_subscription_date: None,
        }
    }
}

/// Whether `viewer` may see the favourite genres of the user `target` whose
/// privacy level is `level`: always their own, a public user's, a friend's
/// where the level is `Friends`, and never a private user's.
pub open spec fn may_see_genres(viewer: u128, target: u128, level: PrivacyLevel, are_friends: bool) -> bool {
    viewer == target || match level {
        PrivacyLevel::Public => true,
        PrivacyLevel::Friends => are_friends,
        PrivacyLevel::Private => false,
    }
}

/// Whether seeing the profile needs to know whether the two users are friends.
pub fn needs_friendship(viewer: u128, target: u128, level: PrivacyLevel) -> (r: bool)
    ensures
        r == (viewer != target && level == PrivacyLevel::Friends),
{
    viewer != target && match level {
        PrivacyLevel::Friends => true,
        _ => false,
    }
}

/// Whether `viewer` may see the favourite genres of `target`.
pub fn can_view_genres(viewer: u128, target: u128, level: PrivacyLevel, are_friends: bool) -> (r: bool)
    ensures
        r == may_see_genres(viewer, target, level, are_friends),
{
    viewer == target || match level {
        PrivacyLevel::Public => true,
        PrivacyLevel::Friends => are_friends,
        PrivacyLevel::Private => false,
    }
}

/// The profile `viewer` is shown of `user`.
pub fn public_profile(viewer: u128, user: User, are_friends: bool) -> (r: PublicUserResponse)
    ensures
        r.id == user.id,
        r.username == user.username,
        r.privacy_level == user.privacy_level,
        r.favorite_genres == (if may_see_genres(viewer, user.id, user.privacy_level, are_friends) {
            Some(user.favorite_genres)
        } else {
            None
        }),
{
    let show = can_view_genres(viewer, user.id, user.privacy_level, are_friends);
    PublicUserResponse {
        id: user.id,
        username: user.username,
        favorite_genres: if show { Some(user.favorite_genres) } else { None },
        privacy_level: user.privacy_level,
    }
}

/// A user sees everything of their own profile; nobody else sees a private
/// user's genres; everybody sees a public user's.
pub proof fn law_genre_visibility(viewer: u128, target: u128, level: PrivacyLevel, are_friends: bool)
    ensures
        viewer == target ==> may_see_genres(viewer, target, level, are_friends),
        viewer != target && level == PrivacyLevel::Private ==> !may_see_genres(viewer, target, level, are_friends),
        level == PrivacyLevel::Public ==> may_see_genres(viewer, target, level, are_friends),
        viewer != target && level == PrivacyLevel::Friends ==> may_see_genres(viewer, target, level, are_friends) == are_friends,
{
}

/// The user that was looked up, or `NotFound(UserNotFound)`.
pub fn found_user(user: Option<User>) -> (r: Result<User, AppError>)
    ensures
        match user {
            Some(u) => r == Ok::<User, AppError>(u),
            None => r == Err::<User, AppError>(AppError::NotFound(ErrorMessage::UserNotFound)),
        },
{
    match user {
        Some(u) => Ok(u),
        None => Err(AppError::NotFound(ErrorMessage::UserNotFound)),
    }
}

pub struct UpdateUsernameRequest {
    pub username: String,
}

pub struct UpdateEmailRequest {
    pub new_email: String,
}

pub struct UpdatePasswordRequest {
    pub current_password: String,
    pub new_password: String,
}

pub struct ConfirmEmailRequest {
    pub token: String,
}

pub struct ResetPasswordRequest {
    pub token: String,
    pub new_password: String,
}

impl UpdateUsernameRequest {
    /// Checks the new user name's length (3 to 32 characters).
    pub fn validate(&self) -> (r: Result<(), AppError>)
        ensures
            refuses_with(r, if username_length_ok(self.username@) { Seq::empty() } else { seq![ErrorMessage::UsernameInvalidLength] }),
    {
        validate_username(self.username.as_str())
    }
}

impl UpdateEmailRequest {
    /// Checks the new e-mail address.
    pub fn validate(&self) -> (r: Result<(), AppError>)
        ensures
            refuses_with(r, if spec_valid_email(self.new_email@) { Seq::empty() } else { seq![ErrorMessage::EmailInvalidFormat] }),
    {
        validate_email_address(self.new_email.as_str())
    }
}

impl UpdatePasswordRequest {
    /// Checks the new password: it must be at least 8 characters long, and
    /// differ from the current one.
    pub fn validate(&self) -> (r: Result<(), AppError>)
        ensures
            refuses_with(r, password_change_errors(self.current_password@, self.new_password@)),
    {
        match validate_new_password(self.new_password.as_str()) {
            Err(e) => return Err(e),
            Ok(()) => {},
        }
        if str_eq(self.new_password.as_str(), self.current_password.as_str()) {
            let mut v: Vec<ErrorMessage> = Vec::new();
            v.push(ErrorMessage::PasswordSameAsCurrent);
            return Err(AppError::Validation(v));
        }
        Ok(())
    }
}

/// The message a change of password is refused with, if any: a new password
/// shorter than 8 characters breaks the policy, and one equal to the current
/// password changes nothing.
pub open spec fn password_change_errors(current: Seq<char>, new: Seq<char>) -> Seq<ErrorMessage> {
    if !password_ok(new) {
        seq![ErrorMessage::PasswordInvalidPolicy]
    } else if new == current {
        seq![ErrorMessage::PasswordSameAsCurrent]
    } else {
        Seq::empty()
    }
}

} // verus!
