//! The play queue of a room: who may read and change it, and what a track
//! added to it must be.
use vstd::prelude::*;
use crate::errors::{AppError, ErrorMessage};
use crate::rooms::{Room, get_room, check_edit_queue_access, read_access_spec, edit_access_spec};

verus! {

/// A request to add a track to the queue.
pub struct AddToQueueRequest {
    pub track_id: i64,
}

/// A request to take an entry out of the queue.
pub struct RemoveFromQueueRequest {
    pub id: u128,
}

impl AddToQueueRequest {
    /// Checks that the track is named by a positive identifier.
    pub fn validate(&self) -> (r: Result<(), AppError>)
        ensures
            self.track_id > 0 ==> r is Ok,
            self.track_id <= 0 ==> (r matches Err(AppError::Validation(ms)) && ms@ == seq![ErrorMessage::TrackIdInvalid]),
    {
        if self.track_id <= 0 {
            let mut v: Vec<ErrorMessage> = Vec::new();
            v.push(ErrorMessage::TrackIdInvalid);
            return Err(AppError::Validation(v));
        }
        Ok(())
    }
}

/// What reading a room's queue is answered with: the room must exist and be
/// visible to the user.
pub fn check_queue_read(room: Option<Room>, user_id: u128, invited: bool) -> (r: Result<Room, AppError>)
    ensures
        match room {
            None => r == Err::<Room, AppError>(AppError::NotFound(ErrorMessage::RoomNotFound)),
            Some(x) => match read_access_spec(x, user_id, invited) {
                Ok(_) => r == Ok::<Room, AppError>(x),
                Err(e) => r == Err::<Room, AppError>(e),
            },
        },
{
    get_room(room, user_id, invited)
}

/// What changing a room's queue (adding, removing, reordering) is answered
/// with: the room must exist, be visible to the user, and its queue be
/// editable by them.
pub fn check_queue_edit(room: Option<Room>, user_id: u128, invited: bool) -> (r: Result<Room, AppError>)
    ensures
        match room {
            None => r == Err::<Room, AppError>(AppError::NotFound(ErrorMessage::RoomNotFound)),
            Some(x) => match edit_access_spec(x, user_id, invited) {
                Ok(_) => r == Ok::<Room, AppError>(x),
                Err(e) => r == Err::<Room, AppError>(e),
            },
        },
{
    let x = match get_room(room, user_id, invited) {
        Ok(x) => x,
        Err(e) => return Err(e),
    };
    match check_edit_queue_access(&x, user_id, invited) {
        Ok(()) => Ok(x),
        Err(e) => Err(e),
    }
}

} // verus!
