//! Rooms: who may enter them and edit their queue, what their owner may
//! change, and the invitations to them.
use vstd::prelude::*;
use crate::errors::{AppError, ErrorMessage};
use crate::text::push_str;

verus! {

/// A room as stored.
#[derive(Debug, Clone)]
pub struct Room {
    pub id: u128,
    pub owner_id: u128,
    pub name: String,
    pub is_public: bool,
    pub is_licensed: bool,
    pub current_track: Option<i64>,
    pub current_position: i32,
    pub is_playing: bool,
}

/// A room as the client is shown it.
pub struct RoomResponse {
    pub id: u128,
    pub owner_id: u128,
    pub name: String,
    pub is_public: bool,
    pub is_licensed: bool,
    pub current_track: Option<i64>,
    pub current_position: i32,
    pub is_playing: bool,
}

impl RoomResponse {
    pub fn from_room(room: Room) -> (r: RoomResponse)
        ensures
            r.id == room.id,
            r.owner_id == room.owner_id,
            r.name == room.name,
            r.is_public == room.is_public,
            r.is_licensed == room.is_licensed,
            r.current_track == room.current_track,
            r.current_position == room.current_position,
            r.is_playing == room.is_playing,
    {
        RoomResponse {
            id: room.id,
            owner_id: room.owner_id,
            name: room.name,
            is_public: room.is_public,
            is_licensed: room.is_licensed,
            current_track: room.current_track,
            current_position: room.current_position,
            is_playing: room.is_playing,
        }
    }
}

/// The name a new room is given: `<username>'s room`.
pub fn default_room_name(username: &str) -> (r: String)
    ensures
        r@ == username@ + "'s room"@,
{
    let mut s = String::new();
    push_str(&mut s, username);
    push_str(&mut s, "'s room");
    s
}

// ---------------------------------------------------------------------------
// Access

/// Whether `user_id` may see the room: it is public, they own it, or they
/// accepted an invitation to it.
pub open spec fn may_read(room: Room, user_id: u128, invited: bool) -> bool {
    room.is_public || room.owner_id == user_id || invited
}

/// Whether `user_id` may edit the room's queue: they may see it, and either
/// the room is not licensed, they own it, or they accepted an invitation.
pub open spec fn may_edit_queue(room: Room, user_id: u128, invited: bool) -> bool {
    may_read(room, user_id, invited) && (!room.is_licensed || room.owner_id == user_id || invited)
}

pub open spec fn read_access_spec(room: Room, user_id: u128, invited: bool) -> Result<(), AppError> {
    if may_read(room, user_id, invited) {
        Ok(())
    } else {
        Err(AppError::Forbidden(ErrorMessage::NotInvited))
    }
}

pub open spec fn edit_access_spec(room: Room, user_id: u128, invited: bool) -> Result<(), AppError> {
    if !may_read(room, user_id, invited) {
        Err(AppError::Forbidden(ErrorMessage::NotInvited))
    } else if !room.is_licensed || room.owner_id == user_id || invited {
        Ok(())
    } else {
        Err(AppError::Forbidden(ErrorMessage::MissingLicense))
    }
}

/// Whether deciding access needs to know whether the user accepted an
/// invitation to the room (it does not for a public room's reader, nor for its
/// owner).
pub fn needs_invitation_check(room: &Room, user_id: u128, for_edit: bool) -> (r: bool)
    ensures
        r == (room.owner_id != user_id && (!room.is_public || (for_edit && room.is_licensed))),
{
    room.owner_id != user_id && (!room.is_public || (for_edit && room.is_licensed))
}

/// Checks that `user_id` may see the room, `invited` telling whether they
/// accepted an invitation to it.
pub fn check_read_access(room: &Room, user_id: u128, invited: bool) -> (r: Result<(), AppError>)
    ensures
        r == read_access_spec(*room, user_id, invited),
        r is Ok <==> (room.is_public || room.owner_id == user_id || invited),
        r is Err ==> r == Err::<(), AppError>(AppError::Forbidden(ErrorMessage::NotInvited)),
{
    if room.is_public || room.owner_id == user_id {
        return Ok(());
    }
    if !invited {
        return Err(AppError::Forbidden(ErrorMessage::NotInvited));
    }
    Ok(())
}

/// Checks that `user_id` may edit the room's queue.
pub fn check_edit_queue_access(room: &Room, user_id: u128, invited: bool) -> (r: Result<(), AppError>)
    ensures
        r == edit_access_spec(*room, user_id, invited),
{
    match check_read_access(room, user_id, invited) {
        Err(e) => return Err(e),
        Ok(()) => {},
    }
    if !room.is_licensed || room.owner_id == user_id {
        return Ok(());
    }
    if !invited {
        return Err(AppError::Forbidden(ErrorMessage::MissingLicense));
    }
    Ok(())
}

/// Checks that `user_id` owns the room.
pub fn check_is_owner(room: &Room, user_id: u128) -> (r: Result<(), AppError>)
    ensures
        room.owner_id == user_id ==> r is Ok,
        room.owner_id != user_id ==> r == Err::<(), AppError>(AppError::Forbidden(ErrorMessage::NotRoomOwner)),
{
    if room.owner_id != user_id {
        return Err(AppError::Forbidden(ErrorMessage::NotRoomOwner));
    }
    Ok(())
}

/// The room that `user_id` asked for, where it exists and they may see it.
pub fn get_room(room: Option<Room>, user_id: u128, invited: bool) -> (r: Result<Room, AppError>)
    ensures
        match room {
            None => r == Err::<Room, AppError>(AppError::NotFound(ErrorMessage::RoomNotFound)),
            Some(x) => match read_access_spec(x, user_id, invited) {
                Ok(_) => r == Ok::<Room, AppError>(x),
                Err(e) => r == Err::<Room, AppError>(e),
            },
        },
{
    match room {
        None => Err(AppError::NotFound(ErrorMessage::RoomNotFound)),
        Some(x) => match check_read_access(&x, user_id, invited) {
            Ok(()) => Ok(x),
            Err(e) => Err(e),
        },
    }
}

/// The room that `user_id` means to change, where it exists and they own it.
pub fn owned_room(room: Option<Room>, user_id: u128) -> (r: Result<Room, AppError>)
    ensures
        match room {
            None => r == Err::<Room, AppError>(AppError::NotFound(ErrorMessage::RoomNotFound)),
            Some(x) => if x.owner_id == user_id {
                r == Ok::<Room, AppError>(x)
            } else {
                r == Err::<Room, AppError>(AppError::Forbidden(ErrorMessage::NotRoomOwner))
            },
        },
{
    match room {
        None => Err(AppError::NotFound(ErrorMessage::RoomNotFound)),
        Some(x) => match check_is_owner(&x, user_id) {
            Ok(()) => Ok(x),
            Err(e) => Err(e),
        },
    }
}

/// The owner may always see and edit their room; anyone may see a public
/// room; whoever may edit the queue may see the room; and in a room that is
/// not licensed, seeing it is enough to edit the queue.
pub proof fn law_access(room: Room, user_id: u128, invited: bool)
    ensures
        room.owner_id == user_id ==> read_access_spec(room, user_id, invited) is Ok && edit_access_spec(room, user_id, invited) is Ok,
        room.is_public ==> read_access_spec(room, user_id, invited) is Ok,
        edit_access_spec(room, user_id, invited) is Ok ==> read_access_spec(room, user_id, invited) is Ok,
        !room.is_licensed ==> (edit_access_spec(room, user_id, invited) is Ok <==> read_access_spec(room, user_id, invited) is Ok),
        invited ==> edit_access_spec(room, user_id, invited) is Ok,
{
}

/// A room that is not public is shown only to its owner and to the users who
/// accepted an invitation to it, whatever its license: anyone else is refused
/// as not invited. Its queue is then not editable by them either.
pub proof fn law_private_rooms_are_closed_to_strangers(room: Room, user_id: u128)
    requires
        !room.is_public,
        room.owner_id != user_id,
    ensures
        read_access_spec(room, user_id, false) == Err::<(), AppError>(AppError::Forbidden(ErrorMessage::NotInvited)),
        edit_access_spec(room, user_id, false) == Err::<(), AppError>(AppError::Forbidden(ErrorMessage::NotInvited)),
        read_access_spec(room, user_id, true) is Ok,
        read_access_spec(room, room.owner_id, false) is Ok,
{
}

// ---------------------------------------------------------------------------
// What the owner changes

/// A change of a room's visibility or license.
#[derive(Debug, Clone, Copy, PartialEq, Eq, Structural)]
pub enum VisibilityChange {
    Publish,
    Privatize,
    EnableLicense,
    DisableLicense,
}

/// The (public, licensed) flags a room has after a change.
pub open spec fn visibility_after_spec(is_public: bool, is_licensed: bool, change: VisibilityChange) -> (bool, bool) {
    match change {
        VisibilityChange::Publish => (true, is_licensed),
        VisibilityChange::Privatize => (false, is_licensed),
        VisibilityChange::EnableLicense => (is_public, true),
        VisibilityChange::DisableLicense => (is_public, false),
    }
}

impl Room {
    /// The (public, licensed) flags the room is stored with after `change`.
    pub fn visibility_after(&self, change: VisibilityChange) -> (r: (bool, bool))
        ensures
            r == visibility_after_spec(self.is_public, self.is_licensed, change),
    {
        match change {
            VisibilityChange::Publish => (true, self.is_licensed),
            VisibilityChange::Privatize => (false, self.is_licensed),
            VisibilityChange::EnableLicense => (self.is_public, true),
            VisibilityChange::DisableLicense => (self.is_public, false),
        }
    }
}

/// Publishing and privatizing leave the license alone, enabling and disabling
/// the license leave the visibility alone, each change is idempotent, and
/// undoing a change (privatizing a room that was private, and so on) restores
/// the flags.
pub proof fn law_visibility(p: bool, l: bool, c: VisibilityChange)
    ensures
        visibility_after_spec(p, l, VisibilityChange::Publish).1 == l,
        visibility_after_spec(p, l, VisibilityChange::Privatize).1 == l,
        visibility_after_spec(p, l, VisibilityChange::EnableLicense).0 == p,
        visibility_after_spec(p, l, VisibilityChange::DisableLicense).0 == p,
        ({
            let (p1, l1) = visibility_after_spec(p, l, c);
            visibility_after_spec(p1, l1, c) == (p1, l1)
        }),
        !p ==> visibility_after_spec(true, l, VisibilityChange::Privatize) == (p, l),
        p ==> visibility_after_spec(false, l, VisibilityChange::Publish) == (p, l),
        !l ==> visibility_after_spec(p, true, VisibilityChange::DisableLicense) == (p, l),
        l ==> visibility_after_spec(p, false, VisibilityChange::EnableLicense) == (p, l),
{
}

// ---------------------------------------------------------------------------
// Invitations

/// An invitation to a room.
#[derive(Debug, Clone, Copy, PartialEq, Eq, Structural)]
pub struct Invitation {
    pub id: u128,
    pub room_id: u128,
    pub inviter_id: u128,
    pub invitee_id: u128,
    pub is_pending: bool,
    /// Milliseconds since the epoch.
    pub created_at: i64,
}

/// An invitation as the client is shown it.
#[derive(Debug, Clone, Copy, PartialEq, Eq, Structural)]
pub struct InvitationResponse {
    pub id: u128,
    pub room_id: u128,
    pub inviter_id: u128,
    pub invitee_id: u128,
    pub is_pending: bool,
    pub created_at: i64,
}

impl InvitationResponse {
    pub fn from_invitation(inv: Invitation) -> (r: InvitationResponse)
        ensures
            r == (InvitationResponse {
                id: inv.id,
                room_id: inv.room_id,
                inviter_id: inv.inviter_id,
                invitee_id: inv.invitee_id,
                is_pending: inv.is_pending,
                created_at: inv.created_at,
            }),
    {
        InvitationResponse {
            id: inv.id,
            room_id: inv.room_id,
            inviter_id: inv.inviter_id,
            invitee_id: inv.invitee_id,
            is_pending: inv.is_pending,
            created_at: inv.created_at,
        }
    }
}

/// What an invitation to a room by `inviter_id` is answered with: the room
/// must exist and be visible to them, and they must own it.
pub open spec fn invite_spec(room: Option<Room>, inviter_id: u128, inviter_invited: bool) -> Result<(), AppError> {
    match room {
        None => Err(AppError::NotFound(ErrorMessage::RoomNotFound)),
        Some(x) => match read_access_spec(x, inviter_id, inviter_invited) {
            Err(e) => Err(e),
            Ok(_) => if x.owner_id != inviter_id {
                Err(AppError::Forbidden(ErrorMessage::NotRoomOwner))
            } else {
                Ok(())
            },
        },
    }
}

/// Checks that `inviter_id` may invite to the room.
pub fn check_invite(room: Option<Room>, inviter_id: u128, inviter_invited: bool) -> (r: Result<(), AppError>)
    ensures
        r == invite_spec(room, inviter_id, inviter_invited),
        r is Ok <==> (room matches Some(x) && x.owner_id == inviter_id),
{
    let room = match get_room(room, inviter_id, inviter_invited) {
        Ok(x) => x,
        Err(e) => return Err(e),
    };
    if room.owner_id != inviter_id {
        return Err(AppError::Forbidden(ErrorMessage::NotRoomOwner));
    }
    Ok(())
}

/// Only the owner of a room invites to it: an invitation is accepted exactly
/// when the room exists and the inviter owns it, whether or not the inviter
/// was invited to it themselves.
pub proof fn law_only_owners_invite(room: Option<Room>, inviter_id: u128, inviter_invited: bool)
    ensures
        invite_spec(room, inviter_id, inviter_invited) is Ok <==> (room matches Some(x) && x.owner_id == inviter_id),
        (room matches Some(x) && x.owner_id != inviter_id && (x.is_public || inviter_invited))
            ==> invite_spec(room, inviter_id, inviter_invited) == Err::<(), AppError>(AppError::Forbidden(ErrorMessage::NotRoomOwner)),
{
}

/// What answering an invitation (accepting or rejecting it) by `user_id` is
/// answered with: only the invited user may answer it.
pub open spec fn answer_invitation_spec(invitation: Option<Invitation>, user_id: u128) -> Result<Invitation, AppError> {
    match invitation {
        None => Err(AppError::NotFound(ErrorMessage::InvitationNotFound)),
        Some(i) => if i.invitee_id != user_id {
            Err(AppError::Forbidden(ErrorMessage::NotInvitedUser))
        } else {
            Ok(i)
        },
    }
}

/// Checks that `user_id` may accept or reject the invitation.
pub fn check_answer_invitation(invitation: Option<Invitation>, user_id: u128) -> (r: Result<Invitation, AppError>)
    ensures
        r == answer_invitation_spec(invitation, user_id),
{
    match invitation {
        None => Err(AppError::NotFound(ErrorMessage::InvitationNotFound)),
        Some(i) => {
            if i.invitee_id != user_id {
                Err(AppError::Forbidden(ErrorMessage::NotInvitedUser))
            } else {
                Ok(i)
            }
        },
    }
}

/// Whether revoking the invitation needs the room it invites to: it does
/// unless the revoker sent it.
pub fn revoke_needs_room(invitation: &Invitation, user_id: u128) -> (r: bool)
    ensures
        r == (invitation.inviter_id != user_id),
{
    invitation.inviter_id != user_id
}

/// What revoking an invitation by `user_id` is answered with: its inviter may
/// revoke it, and so may the owner of the room, where they can see it.
pub open spec fn revoke_spec(invitation: Option<Invitation>, user_id: u128, room: Option<Room>, revoker_invited: bool) -> Result<(), AppError> {
    match invitation {
        None => Err(AppError::NotFound(ErrorMessage::InvitationNotFound)),
        Some(i) => if i.inviter_id == user_id {
            Ok(())
        } else {
            invite_spec(room, user_id, revoker_invited)
        },
    }
}

/// Checks that `user_id` may revoke the invitation; `room` is the room it
/// invites to (looked up where the revoker is not the inviter).
pub fn check_revoke(invitation: Option<Invitation>, user_id: u128, room: Option<Room>, revoker_invited: bool) -> (r: Result<(), AppError>)
    ensures
        r == revoke_spec(invitation, user_id, room, revoker_invited),
{
    match invitation {
        None => Err(AppError::NotFound(ErrorMessage::InvitationNotFound)),
        Some(i) => {
            if i.inviter_id != user_id {
                check_invite(room, user_id, revoker_invited)
            } else {
                Ok(())
            }
        },
    }
}

/// An invitation is revoked only by the user who sent it or by the owner of
/// the room it invites to.
pub proof fn law_revoke_only_by_inviter_or_owner(i: Invitation, user_id: u128, room: Option<Room>, invited: bool)
    ensures
        revoke_spec(Some(i), user_id, room, invited) is Ok
            <==> (i.inviter_id == user_id || (room matches Some(x) && x.owner_id == user_id)),
{
}

/// Only the invited user answers an invitation, and its inviter may always
/// revoke it.
pub proof fn law_invitation_rights(i: Invitation, user_id: u128, room: Option<Room>, invited: bool)
    ensures
        answer_invitation_spec(Some(i), user_id) is Ok <==> i.invitee_id == user_id,
        i.inviter_id == user_id ==> revoke_spec(Some(i), user_id, room, invited) is Ok,
{
}

} // verus!
