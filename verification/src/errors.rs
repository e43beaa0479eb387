//! The errors the service answers with, and what each one is answered with.
use vstd::prelude::*;
use crate::text::contains_str;
use crate::text::str_eq;
use crate::text::contains_seq;

verus! {

broadcast use vstd::string::group_string_axioms;

/// A message that an error carries to the client.
#[derive(Debug, Clone, Copy, PartialEq, Eq, Structural)]
pub enum ErrorMessage {
    // Auth
    InvalidCredentials,
    EmailTaken,
    UsernameTaken,
    TokenExpired,
    TokenInvalid,
    TooManyEmails,
    // Validation
    UsernameInvalidLength,
    EmailInvalidFormat,
    PasswordInvalidPolicy,
    PasswordSameAsCurrent,
    TrackIdInvalid,
    CannotDelegateToSelf,
    DeviceNameInvalid,
    // Resources
    UserNotFound,
    RoomNotFound,
    FriendNotFound,
    InvitationNotFound,
    ActiveRoomNotFound,
    DeviceNotInRoom,
    // Friends
    SelfFriendRequest,
    SenderCannotAcceptOwn,
    FriendAlreadyExists,
    // Permissions
    NotRoomOwner,
    NotInvited,
    NotInvitedUser,
    MissingLicense,
    // Server
    InternalError,
}

/// The text of each message.
pub open spec fn message_text(m: ErrorMessage) -> Seq<char> {
    match m {
        ErrorMessage::InvalidCredentials => "Invalid email or password"@,
        ErrorMessage::EmailTaken => "Email already in use"@,
        ErrorMessage::UsernameTaken => "Username already taken"@,
        ErrorMessage::TokenExpired => "Token expired"@,
        ErrorMessage::TokenInvalid => "Invalid token"@,
        ErrorMessage::TooManyEmails => "An email was already sent recently, please check your inbox or try again later"@,
        ErrorMessage::UsernameInvalidLength => "Username has invalid length (must be between 3 and 32 characters)"@,
        ErrorMessage::EmailInvalidFormat => "Invalid email address"@,
        ErrorMessage::PasswordInvalidPolicy => "Password does not meet the required policy (must be at least 8 characters)"@,
        ErrorMessage::PasswordSameAsCurrent => "New password must be different from current password"@,
        ErrorMessage::TrackIdInvalid => "Track ID must be a positive integer"@,
        ErrorMessage::CannotDelegateToSelf => "You cannot delegate control to yourself"@,
        ErrorMessage::DeviceNameInvalid => "Device name must not be empty"@,
        ErrorMessage::UserNotFound => "User not found"@,
        ErrorMessage::RoomNotFound => "Room not found"@,
        ErrorMessage::FriendNotFound => "Friend request not found"@,
        ErrorMessage::InvitationNotFound => "Invitation not found"@,
        ErrorMessage::ActiveRoomNotFound => "Room is not active"@,
        ErrorMessage::DeviceNotInRoom => "Device is not connected to this room"@,
        ErrorMessage::SelfFriendRequest => "You cannot send a friend request to yourself"@,
        ErrorMessage::SenderCannotAcceptOwn => "You cannot accept your own friend request"@,
        ErrorMessage::FriendAlreadyExists => "Friend request already exists"@,
        ErrorMessage::NotRoomOwner => "You are not the owner of this room"@,
        ErrorMessage::NotInvited => "You are not invited to this room"@,
        ErrorMessage::NotInvitedUser => "You are not the invited user"@,
        ErrorMessage::MissingLicense => "You do not have the license to edit this room"@,
        ErrorMessage::InternalError => "Internal server error"@,
    }
}


/// The length of a message's text, and its first and fifth characters.
spec fn message_signature(m: ErrorMessage) -> (nat, char, char) {
    match m {
        ErrorMessage::InvalidCredentials => (25, 'I', 'l'),
        ErrorMessage::EmailTaken => (20, 'E', 'l'),
        ErrorMessage::UsernameTaken => (22, 'U', 'n'),
        ErrorMessage::TokenExpired => (13, 'T', 'n'),
        ErrorMessage::TokenInvalid => (13, 'I', 'l'),
        ErrorMessage::TooManyEmails => (78, 'A', 'm'),
        ErrorMessage::UsernameInvalidLength => (65, 'U', 'n'),
        ErrorMessage::EmailInvalidFormat => (21, 'I', 'l'),
        ErrorMessage::PasswordInvalidPolicy => (74, 'P', 'w'),
        ErrorMessage::PasswordSameAsCurrent => (52, 'N', 'p'),
        ErrorMessage::TrackIdInvalid => (35, 'T', 'k'),
        ErrorMessage::CannotDelegateToSelf => (39, 'Y', 'c'),
        ErrorMessage::DeviceNameInvalid => (29, 'D', 'c'),
        ErrorMessage::UserNotFound => (14, 'U', ' '),
        ErrorMessage::RoomNotFound => (14, 'R', ' '),
        ErrorMessage::FriendNotFound => (24, 'F', 'n'),
        ErrorMessage::InvitationNotFound => (20, 'I', 't'),
        ErrorMessage::ActiveRoomNotFound => (18, 'R', ' '),
        ErrorMessage::DeviceNotInRoom => (36, 'D', 'c'),
        ErrorMessage::SelfFriendRequest => (44, 'Y', 'c'),
        ErrorMessage::SenderCannotAcceptOwn => (41, 'Y', 'c'),
        ErrorMessage::FriendAlreadyExists => (29, 'F', 'n'),
        ErrorMessage::NotRoomOwner => (34, 'Y', 'a'),
        ErrorMessage::NotInvited => (32, 'Y', 'a'),
        ErrorMessage::NotInvitedUser => (28, 'Y', 'a'),
        ErrorMessage::MissingLicense => (45, 'Y', 'd'),
        ErrorMessage::InternalError => (21, 'I', 'r'),
    }
}

proof fn lemma_message_signature(m: ErrorMessage)
    ensures
        message_text(m).len() == message_signature(m).0,
        message_text(m)[0] == message_signature(m).1,
        message_text(m)[4] == message_signature(m).2,
{
    match m {
        ErrorMessage::InvalidCredentials => {
            reveal_strlit("Invalid email or password");
        },
        ErrorMessage::EmailTaken => {
            reveal_strlit("Email already in use");
        },
        ErrorMessage::UsernameTaken => {
            reveal_strlit("Username already taken");
        },
        ErrorMessage::TokenExpired => {
            reveal_strlit("Token expired");
        },
        ErrorMessage::TokenInvalid => {
            reveal_strlit("Invalid token");
        },
        ErrorMessage::TooManyEmails => {
            reveal_strlit("An email was already sent recently, please check your inbox or try again later");
        },
        ErrorMessage::UsernameInvalidLength => {
            reveal_strlit("Username has invalid length (must be between 3 and 32 characters)");
        },
        ErrorMessage::EmailInvalidFormat => {
            reveal_strlit("Invalid email address");
        },
        ErrorMessage::PasswordInvalidPolicy => {
            reveal_strlit("Password does not meet the required policy (must be at least 8 characters)");
        },
        ErrorMessage::PasswordSameAsCurrent => {
            reveal_strlit("New password must be different from current password");
        },
        ErrorMessage::TrackIdInvalid => {
            reveal_strlit("Track ID must be a positive integer");
        },
        ErrorMessage::CannotDelegateToSelf => {
            reveal_strlit("You cannot delegate control to yourself");
        },
        ErrorMessage::DeviceNameInvalid => {
            reveal_strlit("Device name must not be empty");
        },
        ErrorMessage::UserNotFound => {
            reveal_strlit("User not found");
        },
        ErrorMessage::RoomNotFound => {
            reveal_strlit("Room not found");
        },
        ErrorMessage::FriendNotFound => {
            reveal_strlit("Friend request not found");
        },
        ErrorMessage::InvitationNotFound => {
            reveal_strlit("Invitation not found");
        },
        ErrorMessage::ActiveRoomNotFound => {
            reveal_strlit("Room is not active");
        },
        ErrorMessage::DeviceNotInRoom => {
            reveal_strlit("Device is not connected to this room");
        },
        ErrorMessage::SelfFriendRequest => {
            reveal_strlit("You cannot send a friend request to yourself");
        },
        ErrorMessage::SenderCannotAcceptOwn => {
            reveal_strlit("You cannot accept your own friend request");
        },
        ErrorMessage::FriendAlreadyExists => {
            reveal_strlit("Friend request already exists");
        },
        ErrorMessage::NotRoomOwner => {
            reveal_strlit("You are not the owner of this room");
        },
        ErrorMessage::NotInvited => {
            reveal_strlit("You are not invited to this room");
        },
        ErrorMessage::NotInvitedUser => {
            reveal_strlit("You are not the invited user");
        },
        ErrorMessage::MissingLicense => {
            reveal_strlit("You do not have the license to edit this room");
        },
        ErrorMessage::InternalError => {
            reveal_strlit("Internal server error");
        },
    }
}

/// Every message has a text, and no two messages share one: a client can
/// tell any two refusals apart by their text.
pub proof fn law_message_texts_distinct(a: ErrorMessage, b: ErrorMessage)
    ensures
        message_text(a).len() > 0,
        a != b ==> message_text(a) != message_text(b),
{
    lemma_message_signature(a);
    lemma_message_signature(b);
}

impl ErrorMessage {
    /// The text of the message.
    pub fn as_str(&self) -> (r: &'static str)
        ensures
            r@ == message_text(*self),
    {
        match self {
            ErrorMessage::InvalidCredentials => "Invalid email or password",
            ErrorMessage::EmailTaken => "Email already in use",
            ErrorMessage::UsernameTaken => "Username already taken",
            ErrorMessage::TokenExpired => "Token expired",
            ErrorMessage::TokenInvalid => "Invalid token",
            ErrorMessage::TooManyEmails => "An email was already sent recently, please check your inbox or try again later",
            ErrorMessage::UsernameInvalidLength => "Username has invalid length (must be between 3 and 32 characters)",
            ErrorMessage::EmailInvalidFormat => "Invalid email address",
            ErrorMessage::PasswordInvalidPolicy => "Password does not meet the required policy (must be at least 8 characters)",
            ErrorMessage::PasswordSameAsCurrent => "New password must be different from current password",
            ErrorMessage::TrackIdInvalid => "Track ID must be a positive integer",
            ErrorMessage::CannotDelegateToSelf => "You cannot delegate control to yourself",
            ErrorMessage::DeviceNameInvalid => "Device name must not be empty",
            ErrorMessage::UserNotFound => "User not found",
            ErrorMessage::RoomNotFound => "Room not found",
            ErrorMessage::FriendNotFound => "Friend request not found",
            ErrorMessage::InvitationNotFound => "Invitation not found",
            ErrorMessage::ActiveRoomNotFound => "Room is not active",
            ErrorMessage::DeviceNotInRoom => "Device is not connected to this room",
            ErrorMessage::SelfFriendRequest => "You cannot send a friend request to yourself",
            ErrorMessage::SenderCannotAcceptOwn => "You cannot accept your own friend request",
            ErrorMessage::FriendAlreadyExists => "Friend request already exists",
            ErrorMessage::NotRoomOwner => "You are not the owner of this room",
            ErrorMessage::NotInvited => "You are not invited to this room",
            ErrorMessage::NotInvitedUser => "You are not the invited user",
            ErrorMessage::MissingLicense => "You do not have the license to edit this room",
            ErrorMessage::InternalError => "Internal server error",
        }
    }
}

/// An error of the service, as the client is answered with it.
#[derive(Debug)]
pub enum AppError {
    NotFound(ErrorMessage),
    Unauthorized(ErrorMessage),
    Forbidden(ErrorMessage),
    Conflict(ErrorMessage),
    TooManyRequests(ErrorMessage),
    Validation(Vec<ErrorMessage>),
    /// A failure of the database, with the driver's description of it.
    Database(String),
    Internal,
    /// An internal failure, with what went wrong.
    InternalError(String),
}

/// The HTTP status that each error is answered with.
pub open spec fn status_of(e: AppError) -> u16 {
    match e {
        AppError::NotFound(_) => 404,
        AppError::Unauthorized(_) => 401,
        AppError::Forbidden(_) => 403,
        AppError::Conflict(_) => 409,
        AppError::TooManyRequests(_) => 429,
        AppError::Validation(_) => 422,
        AppError::Database(_) => 500,
        AppError::Internal => 500,
        AppError::InternalError(_) => 500,
    }
}

/// The title each error is answered with (its `error` field).
pub open spec fn title_of(e: AppError) -> Seq<char> {
    match e {
        AppError::NotFound(_) => "Not Found"@,
        AppError::Unauthorized(_) => "Unauthorized"@,
        AppError::Forbidden(_) => "Forbidden"@,
        AppError::Conflict(_) => "Conflict"@,
        AppError::TooManyRequests(_) => "Too Many Requests"@,
        AppError::Validation(_) => "Validation Error"@,
        AppError::Database(_) => "Database Error"@,
        AppError::Internal => "Internal Server Error"@,
        AppError::InternalError(_) => "Internal Server Error"@,
    }
}

/// The texts of a list of messages, in order.
pub open spec fn messages_text(ms: Seq<ErrorMessage>) -> Seq<Seq<char>> {
    ms.map_values(|m: ErrorMessage| message_text(m))
}

/// The details each error is answered with: the texts of its messages, or
/// none for a failure of the server.
pub open spec fn details_of(e: AppError) -> Option<Seq<Seq<char>>> {
    match e {
        AppError::NotFound(m) => Some(seq![message_text(m)]),
        AppError::Unauthorized(m) => Some(seq![message_text(m)]),
        AppError::Forbidden(m) => Some(seq![message_text(m)]),
        AppError::Conflict(m) => Some(seq![message_text(m)]),
        AppError::TooManyRequests(m) => Some(seq![message_text(m)]),
        AppError::Validation(ms) => Some(messages_text(ms@)),
        AppError::Database(_) => None,
        AppError::Internal => None,
        AppError::InternalError(_) => None,
    }
}

pub open spec fn opt_strings_view(v: Option<Vec<String>>) -> Option<Seq<Seq<char>>> {
    match v {
        Some(xs) => Some(xs@.map_values(|s: String| s@)),
        None => None,
    }
}

fn messages_to_strings(ms: &Vec<ErrorMessage>) -> (r: Vec<String>)
    ensures
        r@.map_values(|s: String| s@) == messages_text(ms@),
{
    let mut r: Vec<String> = Vec::new();
    let mut i: usize = 0;
    while i < ms.len()
        invariant
            i <= ms.len(),
            r@.map_values(|s: String| s@) == messages_text(ms@.take(i as int)),
        decreases ms.len() - i,
    {
        let t = ms[i].as_str().to_string();
        assert(t@ == message_text(ms@[i as int]));
        let ghost before = r@;
        r.push(t);
        proof {
            let a = r@.map_values(|s: String| s@);
            let b = messages_text(ms@.take(i as int + 1));
            let c = messages_text(ms@.take(i as int));
            assert(c == before.map_values(|s: String| s@));
            assert(c.len() == i);
            assert(before.len() == i);
            assert(r@ == before.push(t));
            assert(a.len() == i + 1);
            assert(b.len() == i + 1);
            assert forall|j: int| 0 <= j < a.len() implies a[j] == b[j] by {
                if j < i {
                    assert(a[j] == before[j]@);
                    assert(c[j] == b[j]);
                }
            }
            assert(a =~= b);
        }
        i = i + 1;
    }
    assert(ms@.take(ms.len() as int) == ms@);
    r
}

impl AppError {
    /// The HTTP status of the answer.
    pub fn status_code(&self) -> (r: u16)
        ensures
            r == status_of(*self),
    {
        match self {
            AppError::NotFound(_) => 404,
            AppError::Unauthorized(_) => 401,
            AppError::Forbidden(_) => 403,
            AppError::Conflict(_) => 409,
            AppError::TooManyRequests(_) => 429,
            AppError::Validation(_) => 422,
            AppError::Database(_) => 500,
            AppError::Internal => 500,
            AppError::InternalError(_) => 500,
        }
    }

    /// The title of the answer.
    pub fn title(&self) -> (r: &'static str)
        ensures
            r@ == title_of(*self),
    {
        match self {
            AppError::NotFound(_) => "Not Found",
            AppError::Unauthorized(_) => "Unauthorized",
            AppError::Forbidden(_) => "Forbidden",
            AppError::Conflict(_) => "Conflict",
            AppError::TooManyRequests(_) => "Too Many Requests",
            AppError::Validation(_) => "Validation Error",
            AppError::Database(_) => "Database Error",
            AppError::Internal => "Internal Server Error",
            AppError::InternalError(_) => "Internal Server Error",
        }
    }

    /// The details of the answer.
    pub fn details(&self) -> (r: Option<Vec<String>>)
        ensures
            opt_strings_view(r) == details_of(*self),
    {
        match self {
            AppError::NotFound(m) | AppError::Unauthorized(m) | AppError::Forbidden(m)
            | AppError::Conflict(m) | AppError::TooManyRequests(m) => {
                let mut v: Vec<String> = Vec::new();
                v.push(m.as_str().to_string());
                assert(v@.map_values(|s: String| s@) =~= seq![message_text(*m)]);
                Some(v)
            },
            AppError::Validation(ms) => Some(messages_to_strings(ms)),
            AppError::Database(_) | AppError::Internal | AppError::InternalError(_) => None,
        }
    }
}

/// Every error is answered with a client or server error status, and carries
/// details exactly when the status is a client error.
pub proof fn law_details_only_for_client_errors(e: AppError)
    ensures
        400 <= status_of(e) < 600,
        details_of(e) is Some <==> status_of(e) < 500,
{
}

pub open spec fn opt_str_view(v: Option<&str>) -> Option<Seq<char>> {
    match v {
        Some(s) => Some(s@),
        None => None,
    }
}

/// Whether a database error code is that of a unique-constraint violation.
pub open spec fn is_unique_violation(code: Option<Seq<char>>) -> bool {
    code == Some("23505"@)
}

/// What a refused insertion of a user is answered with: a unique-constraint
/// violation whose message names the e-mail or the user name is a conflict on
/// it, and anything else a failure of the database.
pub open spec fn insert_user_error(code: Option<Seq<char>>, message: Seq<char>, description: String) -> AppError {
    if is_unique_violation(code) && contains_seq(message, "email"@) {
        AppError::Conflict(ErrorMessage::EmailTaken)
    } else if is_unique_violation(code) && contains_seq(message, "username"@) {
        AppError::Conflict(ErrorMessage::UsernameTaken)
    } else {
        AppError::Database(description)
    }
}

/// What a refused update of a unique column is answered with: a
/// unique-constraint violation is the conflict `taken`, anything else a
/// failure of the database.
pub open spec fn update_unique_error(code: Option<Seq<char>>, taken: ErrorMessage, description: String) -> AppError {
    if is_unique_violation(code) {
        AppError::Conflict(taken)
    } else {
        AppError::Database(description)
    }
}

fn unique_code(code: Option<&str>) -> (r: bool)
    ensures
        r == is_unique_violation(opt_str_view(code)),
{
    match code {
        Some(c) => {
            let r = str_eq(c, "23505");
            proof {
                reveal_strlit("23505");
            }
            r
        },
        None => false,
    }
}

/// Classifies the failure of inserting a user, from the database error's code,
/// its message, and its description.
pub fn classify_insert_user_error(code: Option<&str>, message: &str, description: String) -> (r: AppError)
    ensures
        r == insert_user_error(opt_str_view(code), message@, description),
{
    let unique = unique_code(code);
    if unique && contains_str(message, "email") {
        AppError::Conflict(ErrorMessage::EmailTaken)
    } else if unique && contains_str(message, "username") {
        AppError::Conflict(ErrorMessage::UsernameTaken)
    } else {
        AppError::Database(description)
    }
}

/// Classifies the failure of updating the unique column whose clash is `taken`.
pub fn classify_update_unique_error(code: Option<&str>, taken: ErrorMessage, description: String) -> (r: AppError)
    ensures
        r == update_unique_error(opt_str_view(code), taken, description),
{
    if unique_code(code) {
        AppError::Conflict(taken)
    } else {
        AppError::Database(description)
    }
}

} // verus!
