//! Friendships and friend requests.
//!
//! A friendship between two users is stored once, under the pair of their
//! identifiers in increasing order, with the user who asked for it.
use vstd::prelude::*;
use crate::errors::{AppError, ErrorMessage};

verus! {

/// A friendship or a pending friend request.
#[derive(Debug, Clone, Copy, PartialEq, Eq, Structural)]
pub struct Friend {
    pub user_id_1: u128,
    pub user_id_2: u128,
    pub sender_id: u128,
    pub is_pending: bool,
}

/// A friend request, naming the user asked.
pub struct FriendRequestDto {
    pub username: String,
}

/// A friendship as the client is shown it.
#[derive(Debug, Clone, Copy, PartialEq, Eq, Structural)]
pub struct FriendResponseDto {
    pub user_id_1: u128,
    pub user_id_2: u128,
    pub sender_id: u128,
    pub is_pending: bool,
}

impl FriendResponseDto {
    pub fn from_friend(friend: Friend) -> (r: FriendResponseDto)
        ensures
            r == (FriendResponseDto {
                user_id_1: friend.user_id_1,
                user_id_2: friend.user_id_2,
                sender_id: friend.sender_id,
                is_pending: friend.is_pending,
            }),
    {
        FriendResponseDto {
            user_id_1: friend.user_id_1,
            user_id_2: friend.user_id_2,
            sender_id: friend.sender_id,
            is_pending: friend.is_pending,
        }
    }
}

/// The pair under which the friendship of `a` and `b` is stored.
pub open spec fn ordered_pair(a: u128, b: u128) -> (u128, u128) {
    if a < b {
        (a, b)
    } else {
        (b, a)
    }
}

/// The pair under which the friendship of `id1` and `id2` is stored.
pub fn order_ids(id1: u128, id2: u128) -> (r: (u128, u128))
    ensures
        r == ordered_pair(id1, id2),
{
    if id1 < id2 {
        (id1, id2)
    } else {
        (id2, id1)
    }
}

/// A friendship is stored under one pair whoever names it first: the pair
/// does not depend on the order of the two users, is in increasing order, and
/// holds exactly the two users.
pub proof fn law_order_ids_symmetric(a: u128, b: u128)
    ensures
        ordered_pair(a, b) == ordered_pair(b, a),
        ordered_pair(a, b).0 <= ordered_pair(a, b).1,
        (ordered_pair(a, b).0 == a && ordered_pair(a, b).1 == b) || (ordered_pair(a, b).0 == b
            && ordered_pair(a, b).1 == a),
{
}

/// What a friend request from `sender_id` to the user found under the asked
/// name (`target`) is answered with: the pair to store it under, or the
/// refusal.
pub open spec fn send_request_spec(sender_id: u128, target: Option<u128>) -> Result<(u128, u128), AppError> {
    match target {
        None => Err(AppError::NotFound(ErrorMessage::UserNotFound)),
        Some(t) => if t == sender_id {
            Err(AppError::Conflict(ErrorMessage::SelfFriendRequest))
        } else {
            Ok(ordered_pair(sender_id, t))
        },
    }
}

/// Checks a friend request, and gives the pair to store it under.
pub fn plan_friend_request(sender_id: u128, target: Option<u128>) -> (r: Result<(u128, u128), AppError>)
    ensures
        r == send_request_spec(sender_id, target),
        r matches Ok(p) ==> p.0 < p.1 && (target matches Some(t) && ((p.0 == sender_id && p.1 == t) || (p.0 == t && p.1 == sender_id))),
        (target matches Some(t) && t != sender_id) ==> r is Ok,
{
    match target {
        None => Err(AppError::NotFound(ErrorMessage::UserNotFound)),
        Some(t) => {
            if t == sender_id {
                Err(AppError::Conflict(ErrorMessage::SelfFriendRequest))
            } else {
                Ok(order_ids(sender_id, t))
            }
        },
    }
}

/// A friend request to another existing user is always accepted for storage,
/// under the two users in increasing order: the smaller identifier first, and
/// nobody but the sender and the target. Whoever of the two sends it, the pair
/// is the same, so the request is found again from either side.
pub proof fn law_friend_request_pair(sender_id: u128, target_id: u128)
    requires
        sender_id != target_id,
    ensures
        send_request_spec(sender_id, Some(target_id)) matches Ok(p) && {
            &&& p.0 < p.1
            &&& (p.0 == sender_id || p.0 == target_id)
            &&& (p.1 == sender_id || p.1 == target_id)
            &&& p.0 != p.1
        },
        send_request_spec(sender_id, Some(target_id)) == send_request_spec(target_id, Some(sender_id)),
        send_request_spec(sender_id, Some(sender_id)) is Err,
        send_request_spec(sender_id, None) is Err,
{
}

/// What accepting the request stored between `acceptor_id` and another user
/// is answered with: only a pending request that the acceptor did not send can
/// be accepted.
pub open spec fn accept_request_spec(acceptor_id: u128, existing: Option<Friend>) -> Result<(), AppError> {
    match existing {
        None => Err(AppError::NotFound(ErrorMessage::FriendNotFound)),
        Some(f) => if f.sender_id == acceptor_id {
            Err(AppError::Conflict(ErrorMessage::SenderCannotAcceptOwn))
        } else if !f.is_pending {
            Err(AppError::Conflict(ErrorMessage::FriendAlreadyExists))
        } else {
            Ok(())
        },
    }
}

/// Checks that `acceptor_id` may accept the stored request `existing`.
pub fn check_accept_request(acceptor_id: u128, existing: Option<Friend>) -> (r: Result<(), AppError>)
    ensures
        r == accept_request_spec(acceptor_id, existing),
{
    match existing {
        None => Err(AppError::NotFound(ErrorMessage::FriendNotFound)),
        Some(f) => {
            if f.sender_id == acceptor_id {
                Err(AppError::Conflict(ErrorMessage::SenderCannotAcceptOwn))
            } else if !f.is_pending {
                Err(AppError::Conflict(ErrorMessage::FriendAlreadyExists))
            } else {
                Ok(())
            }
        },
    }
}

/// The sender of a request can never accept it, and an accepted friendship
/// cannot be accepted again.
pub proof fn law_sender_cannot_accept(acceptor_id: u128, f: Friend)
    ensures
        f.sender_id == acceptor_id ==> accept_request_spec(acceptor_id, Some(f)) is Err,
        !f.is_pending ==> accept_request_spec(acceptor_id, Some(f)) is Err,
        accept_request_spec(acceptor_id, Some(f)) is Ok <==> (f.is_pending && f.sender_id != acceptor_id),
{
}

/// Whether the stored friendship makes two users friends: it exists and is
/// no longer pending.
pub fn are_friends(friend: Option<Friend>) -> (r: bool)
    ensures
        r == (friend matches Some(f) && !f.is_pending),
{
    match friend {
        Some(f) => !f.is_pending,
        None => false,
    }
}

/// What removing a friendship (or rejecting a request) is answered with,
/// from the number of rows removed.
pub fn removal_outcome(rows_affected: u64) -> (r: Result<(), AppError>)
    ensures
        rows_affected == 0 ==> r == Err::<(), AppError>(AppError::NotFound(ErrorMessage::FriendNotFound)),
        rows_affected != 0 ==> r is Ok,
{
    if rows_affected == 0 {
        Err(AppError::NotFound(ErrorMessage::FriendNotFound))
    } else {
        Ok(())
    }
}

} // verus!
