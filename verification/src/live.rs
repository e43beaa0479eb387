//! Rooms that are live: who is connected, who controls playback, and when a
//! room is closed.
use vstd::prelude::*;
use crate::errors::{AppError, ErrorMessage};
use crate::music::TrackItem;
use crate::rooms::Room;
use crate::text::{trim, trim_spec, str_eq};

verus! {

/// A connected user, as the room's members are listed.
#[derive(Debug, Clone)]
pub struct UserInfo {
    pub user_id: u128,
    pub username: String,
}

/// One connection to a live room: a user on one device.
#[derive(Debug, Clone)]
pub struct RoomMember {
    pub user_id: u128,
    pub username: String,
    pub device_name: String,
}

/// The device that the owner handed control of playback to.
#[derive(Debug, Clone)]
pub struct RoomDelegate {
    pub user_id: u128,
    pub device_name: String,
}

/// A live room.
#[derive(Debug)]
pub struct ActiveRoom {
    pub owner_id: Option<u128>,
    /// The connections, one per (user, device).
    pub members: Vec<RoomMember>,
    pub delegate: Option<RoomDelegate>,
    /// Milliseconds since the epoch.
    pub last_activity: i64,
}

/// What a live room tells its clients.
#[derive(Debug)]
pub enum WsEventServer {
    RoomState {
        current_track: Option<TrackItem>,
        is_playing: bool,
        current_position: i32,
        /// Milliseconds since the epoch.
        timestamp: i64,
        queue: Vec<TrackItem>,
    },
    UserState {
        user_list: Vec<UserInfo>,
        owner: u128,
        delegate_user_id: Option<u128>,
        delegate_device: Option<String>,
    },
    RoomClosed,
    Error { message: String },
}

/// A request to hand control of playback to a user's device.
pub struct DelegateRoomRequest {
    pub user_id: u128,
    pub device_name: String,
}

/// The options of a socket connection.
pub struct WsQuery {
    pub device: Option<String>,
}

/// Whether `members` holds a connection of `user_id` on `device`.
pub open spec fn is_member(members: Seq<RoomMember>, user_id: u128, device: Seq<char>) -> bool {
    exists|i: int| 0 <= i < members.len() && #[trigger] members[i].user_id == user_id && members[i].device_name@ == device
}

/// The members as they are listed to clients.
pub open spec fn user_list_spec(members: Seq<RoomMember>) -> Seq<(u128, Seq<char>)> {
    members.map_values(|m: RoomMember| (m.user_id, m.username@))
}

pub open spec fn user_infos_view(v: Seq<UserInfo>) -> Seq<(u128, Seq<char>)> {
    v.map_values(|u: UserInfo| (u.user_id, u.username@))
}

pub open spec fn opt_delegate_view(d: Option<RoomDelegate>) -> Option<(u128, Seq<char>)> {
    match d {
        Some(x) => Some((x.user_id, x.device_name@)),
        None => None,
    }
}

/// Whether `e` tells the clients the room's members, its owner (or
/// `fallback_owner` where the room has none recorded), and its delegate.
pub open spec fn is_user_state(e: WsEventServer, room: ActiveRoom, fallback_owner: u128) -> bool {
    e matches WsEventServer::UserState { user_list, owner, delegate_user_id, delegate_device } && {
        &&& user_infos_view(user_list@) == user_list_spec(room.members@)
        &&& owner == (match room.owner_id { Some(o) => o, None => fallback_owner })
        &&& match room.delegate {
            Some(d) => delegate_user_id == Some(d.user_id) && (delegate_device matches Some(dd) && dd@ == d.device_name@),
            None => delegate_user_id is None && delegate_device is None,
        }
    }
}

impl ActiveRoom {
    /// The members as they are listed to clients.
    pub fn user_list(&self) -> (r: Vec<UserInfo>)
        ensures
            user_infos_view(r@) == user_list_spec(self.members@),
    {
        let mut r: Vec<UserInfo> = Vec::new();
        let mut i: usize = 0;
        while i < self.members.len()
            invariant
                i <= self.members.len(),
                r@.len() == i,
                user_infos_view(r@) == user_list_spec(self.members@.take(i as int)),
            decreases self.members.len() - i,
        {
            let m = &self.members[i];
            let ghost before = r@;
            r.push(UserInfo { user_id: m.user_id, username: m.username.clone() });
            proof {
                let a = user_infos_view(r@);
                let b = user_list_spec(self.members@.take(i as int + 1));
                assert(user_infos_view(before) == user_list_spec(self.members@.take(i as int)));
                assert(before.len() == i);
                assert(a.len() == b.len());
                assert forall|j: int| 0 <= j < a.len() implies a[j] == b[j] by {
                    if j < i {
                        assert(a[j] == user_infos_view(before)[j]);
                    }
                }
                assert(a =~= b);
            }
            i = i + 1;
        }
        assert(self.members@.take(self.members.len() as int) == self.members@);
        r
    }

    /// Whether `user_id` is connected on `device`.
    pub fn has_member(&self, user_id: u128, device: &str) -> (r: bool)
        ensures
            r == is_member(self.members@, user_id, device@),
    {
        let mut i: usize = 0;
        while i < self.members.len()
            invariant
                i <= self.members.len(),
                forall|j: int| 0 <= j < i ==> !(#[trigger] self.members@[j].user_id == user_id && self.members@[j].device_name@ == device@),
            decreases self.members.len() - i,
        {
            if self.members[i].user_id == user_id && str_eq(self.members[i].device_name.as_str(), device) {
                return true;
            }
            i = i + 1;
        }
        false
    }

    /// The clients' view of who is in the room and who controls it.
    pub fn user_state(&self, fallback_owner: u128) -> (r: WsEventServer)
        ensures
            is_user_state(r, *self, fallback_owner),
    {
        let (delegate_user_id, delegate_device) = match &self.delegate {
            Some(d) => (Some(d.user_id), Some(d.device_name.clone())),
            None => (None, None),
        };
        WsEventServer::UserState {
            user_list: self.user_list(),
            owner: match self.owner_id {
                Some(o) => o,
                None => fallback_owner,
            },
            delegate_user_id,
            delegate_device,
        }
    }
}

/// Whether two connections are of the same user on the same device.
pub open spec fn same_connection(a: RoomMember, b: RoomMember) -> bool {
    a.user_id == b.user_id && a.device_name@ == b.device_name@
}

/// Whether no user is connected twice on one device.
pub open spec fn members_unique(members: Seq<RoomMember>) -> bool {
    forall|i: int, j: int| 0 <= i < j < members.len() ==> !same_connection(#[trigger] members[i], #[trigger] members[j])
}

proof fn lemma_filter_unique(s: Seq<RoomMember>, pred: spec_fn(RoomMember) -> bool)
    requires
        members_unique(s),
    ensures
        members_unique(s.filter(pred)),
        forall|i: int| 0 <= i < s.filter(pred).len() ==> exists|k: int| 0 <= k < s.len() && s[k] == #[trigger] s.filter(pred)[i],
    decreases s.len(),
{
    reveal_with_fuel(Seq::<_>::filter, 1);
    if s.len() > 0 {
        let init = s.drop_last();
        assert forall|i: int, j: int| 0 <= i < j < init.len() implies !same_connection(#[trigger] init[i], #[trigger] init[j]) by {
            assert(init[i] == s[i] && init[j] == s[j]);
        }
        lemma_filter_unique(init, pred);
        let sub = init.filter(pred);
        if pred(s.last()) {
            let f = sub.push(s.last());
            assert(s.filter(pred) == f);
            assert forall|i: int, j: int| 0 <= i < j < f.len() implies !same_connection(#[trigger] f[i], #[trigger] f[j]) by {
                if j < sub.len() {
                    assert(f[i] == sub[i] && f[j] == sub[j]);
                } else {
                    assert(f[i] == sub[i]);
                    let k = choose|k: int| 0 <= k < init.len() && init[k] == #[trigger] sub[i];
                    assert(s[k] == f[i]);
                    assert(f[j] == s[s.len() - 1]);
                }
            }
            assert forall|i: int| 0 <= i < f.len() implies exists|k: int| 0 <= k < s.len() && s[k] == #[trigger] f[i] by {
                if i < sub.len() {
                    let k = choose|k: int| 0 <= k < init.len() && init[k] == #[trigger] sub[i];
                    assert(s[k] == f[i]);
                } else {
                    assert(s[s.len() - 1] == f[i]);
                }
            }
        } else {
            assert(s.filter(pred) == sub);
            assert forall|i: int| 0 <= i < sub.len() implies exists|k: int| 0 <= k < s.len() && s[k] == #[trigger] sub[i] by {
                let k = choose|k: int| 0 <= k < init.len() && init[k] == #[trigger] sub[i];
                assert(s[k] == sub[i]);
            }
        }
    }
}

/// The members without the connection of `user_id` on `device`.
pub open spec fn without_member(members: Seq<RoomMember>, user_id: u128, device: Seq<char>) -> Seq<RoomMember> {
    members.filter(|m: RoomMember| !(m.user_id == user_id && m.device_name@ == device))
}

/// Leaving drops exactly the leaving connection: every connection of another
/// user, and every other device of the same user, stays; nothing stays that was
/// not there; and the leaving connection is gone.
pub proof fn lemma_leave_keeps_others(members: Seq<RoomMember>, user_id: u128, device: Seq<char>)
    ensures
        forall|i: int| 0 <= i < members.len() && !(members[i].user_id == user_id && members[i].device_name@ == device)
            ==> without_member(members, user_id, device).contains(#[trigger] members[i]),
        forall|m: RoomMember| #[trigger] without_member(members, user_id, device).contains(m)
            ==> members.contains(m) && !(m.user_id == user_id && m.device_name@ == device),
    decreases members.len(),
{
    reveal_with_fuel(Seq::<_>::filter, 1);
    if members.len() > 0 {
        let init = members.drop_last();
        lemma_leave_keeps_others(init, user_id, device);
        let last = members.last();
        let w = without_member(members, user_id, device);
        let wi = without_member(init, user_id, device);
        let gone = last.user_id == user_id && last.device_name@ == device;
        if !gone {
            assert(w == wi.push(last));
        } else {
            assert(w == wi);
        }
        assert forall|i: int| 0 <= i < members.len() && !(members[i].user_id == user_id && members[i].device_name@ == device)
            implies w.contains(#[trigger] members[i]) by {
            if i < members.len() - 1 {
                assert(members[i] == init[i]);
                assert(wi.contains(init[i]));
                let k = choose|k: int| 0 <= k < wi.len() && wi[k] == init[i];
                if !gone {
                    assert(w[k] == wi[k]);
                }
            } else {
                assert(w[wi.len() as int] == last);
            }
        }
        assert forall|m: RoomMember| #[trigger] w.contains(m)
            implies members.contains(m) && !(m.user_id == user_id && m.device_name@ == device) by {
            let k = choose|k: int| 0 <= k < w.len() && w[k] == m;
            if k < wi.len() {
                assert(w[k] == wi[k]);
                assert(wi.contains(m));
                let j = choose|j: int| 0 <= j < init.len() && init[j] == m;
                assert(members[j] == m);
            } else {
                assert(m == last);
                assert(members[members.len() - 1] == m);
            }
        }
    }
}

/// Another user's connection is never dropped when someone leaves, even on a
/// device of the same name.
pub proof fn law_leave_keeps_other_users(members: Seq<RoomMember>, user_id: u128, device: Seq<char>, i: int)
    requires
        0 <= i < members.len(),
        members[i].user_id != user_id,
    ensures
        without_member(members, user_id, device).contains(members[i]),
{
    lemma_leave_keeps_others(members, user_id, device);
}

impl ActiveRoom {
    /// A live room of `owner_id` with nobody connected yet, active at `now`.
    pub fn open(owner_id: u128, now: i64) -> (r: ActiveRoom)
        ensures
            r.owner_id == Some(owner_id),
            r.members@.len() == 0,
            members_unique(r.members@),
            r.delegate is None,
            r.last_activity == now,
    {
        ActiveRoom { owner_id: Some(owner_id), members: Vec::new(), delegate: None, last_activity: now }
    }

    /// Records a connection of `member`, unless its user is already connected
    /// on that device; the room is active at `now`.
    pub fn join(&mut self, member: RoomMember, now: i64)
        ensures
            final(self).owner_id == old(self).owner_id,
            final(self).delegate == old(self).delegate,
            final(self).last_activity == now,
            is_member(old(self).members@, member.user_id, member.device_name@) ==> final(self).members == old(self).members,
            !is_member(old(self).members@, member.user_id, member.device_name@) ==> final(self).members@ == old(self).members@.push(member),
            members_unique(old(self).members@) ==> members_unique(final(self).members@),
    {
        if !self.has_member(member.user_id, member.device_name.as_str()) {
            let ghost before = self.members@;
            self.members.push(member);
            proof {
                let m = self.members@;
                if members_unique(before) {
                    assert forall|i: int, j: int| 0 <= i < j < m.len() implies !same_connection(#[trigger] m[i], #[trigger] m[j]) by {
                        assert(m[i] == before[i]);
                        if j == before.len() {
                            assert(!(before[i].user_id == member.user_id && before[i].device_name@ == member.device_name@));
                        } else {
                            assert(m[j] == before[j]);
                        }
                    }
                }
            }
        }
        self.last_activity = now;
    }

    /// Drops the connection of `user_id` on `device`; the room is active at
    /// `now`.
    pub fn leave(&mut self, user_id: u128, device: &str, now: i64)
        ensures
            final(self).owner_id == old(self).owner_id,
            final(self).delegate == old(self).delegate,
            final(self).last_activity == now,
            final(self).members@ == without_member(old(self).members@, user_id, device@),
            members_unique(old(self).members@) ==> members_unique(final(self).members@),
            forall|i: int| 0 <= i < old(self).members@.len() && !(old(self).members@[i].user_id == user_id
                && old(self).members@[i].device_name@ == device@)
                ==> final(self).members@.contains(#[trigger] old(self).members@[i]),
            forall|m: RoomMember| #[trigger] final(self).members@.contains(m)
                ==> old(self).members@.contains(m) && !(m.user_id == user_id && m.device_name@ == device@),
    {
        let mut kept: Vec<RoomMember> = Vec::new();
        let mut i: usize = 0;
        let ghost pred = |m: RoomMember| !(m.user_id == user_id && m.device_name@ == device@);
        while i < self.members.len()
            invariant
                i <= self.members.len(),
                pred == (|m: RoomMember| !(m.user_id == user_id && m.device_name@ == device@)),
                kept@ == self.members@.take(i as int).filter(pred),
            decreases self.members.len() - i,
        {
            let src = &self.members[i];
            let m = RoomMember { user_id: src.user_id, username: src.username.clone(), device_name: src.device_name.clone() };
            let keep = !(m.user_id == user_id && str_eq(m.device_name.as_str(), device));
            proof {
                reveal_with_fuel(Seq::<_>::filter, 1);
                assert(self.members@.take(i as int + 1).drop_last() == self.members@.take(i as int));
                assert(m == self.members@[i as int]);
            }
            if keep {
                kept.push(m);
            }
            i = i + 1;
        }
        assert(self.members@.take(self.members.len() as int) == self.members@);
        proof {
            if members_unique(self.members@) {
                lemma_filter_unique(self.members@, pred);
            }
            lemma_leave_keeps_others(self.members@, user_id, device@);
        }
        self.members = kept;
        assert(self.members@ == without_member(old(self).members@, user_id, device@));
        self.last_activity = now;
    }
}

// ---------------------------------------------------------------------------
// Delegation

/// Whether `e` is a validation error with exactly the message `m`.
pub open spec fn is_validation_of(e: AppError, m: ErrorMessage) -> bool {
    e matches AppError::Validation(ms) && ms@ == seq![m]
}

/// Whether `r` answers a request of `caller` to hand control to `target` on
/// `device`, before the live room is looked at: the room must exist and be
/// theirs, the target must be someone else, and the device must be named
/// (something other than whitespace).
pub open spec fn delegation_request_is(r: Result<(), AppError>, room: Option<Room>, caller: u128, target: u128, device: Seq<char>) -> bool {
    match room {
        None => r == Err::<(), AppError>(AppError::NotFound(ErrorMessage::RoomNotFound)),
        Some(x) => if x.owner_id != caller {
            r == Err::<(), AppError>(AppError::Forbidden(ErrorMessage::NotRoomOwner))
        } else if target == caller {
            r matches Err(e) && is_validation_of(e, ErrorMessage::CannotDelegateToSelf)
        } else if trim_spec(device).len() == 0 {
            r matches Err(e) && is_validation_of(e, ErrorMessage::DeviceNameInvalid)
        } else {
            r is Ok
        },
    }
}

fn validation_of(m: ErrorMessage) -> (e: AppError)
    ensures
        is_validation_of(e, m),
{
    let mut v: Vec<ErrorMessage> = Vec::new();
    v.push(m);
    AppError::Validation(v)
}

/// Checks a request of `caller` to hand control of the room to `target` on
/// `device`.
pub fn check_delegation_request(room: Option<Room>, caller: u128, target: u128, device: &str) -> (r: Result<(), AppError>)
    ensures
        delegation_request_is(r, room, caller, target, device@),
{
    match room {
        None => Err(AppError::NotFound(ErrorMessage::RoomNotFound)),
        Some(x) => {
            if x.owner_id != caller {
                return Err(AppError::Forbidden(ErrorMessage::NotRoomOwner));
            }
            if target == caller {
                return Err(validation_of(ErrorMessage::CannotDelegateToSelf));
            }
            let t = trim(device);
            if t.as_str().is_empty() {
                return Err(validation_of(ErrorMessage::DeviceNameInvalid));
            }
            Ok(())
        },
    }
}

impl ActiveRoom {
    /// Hands control of playback to `target` on `device`, who must be
    /// connected; gives what the clients are then told.
    pub fn delegate_to(&mut self, caller: u128, target: u128, device: String) -> (r: Result<WsEventServer, AppError>)
        ensures
            is_member(old(self).members@, target, device@) ==> {
                &&& final(self).members == old(self).members
                &&& final(self).owner_id == old(self).owner_id
                &&& final(self).last_activity == old(self).last_activity
                &&& opt_delegate_view(final(self).delegate) == Some((target, device@))
                &&& r matches Ok(e) && is_user_state(e, *final(self), caller)
            },
            !is_member(old(self).members@, target, device@) ==> {
                &&& *final(self) == *old(self)
                &&& r == Err::<WsEventServer, AppError>(AppError::NotFound(ErrorMessage::DeviceNotInRoom))
            },
    {
        if !self.has_member(target, device.as_str()) {
            return Err(AppError::NotFound(ErrorMessage::DeviceNotInRoom));
        }
        self.delegate = Some(RoomDelegate { user_id: target, device_name: device });
        Ok(self.user_state(caller))
    }

    /// Takes control of playback back from the delegate, if there is one;
    /// gives what the clients are then told (nothing where there was no
    /// delegate).
    pub fn revoke_delegate(&mut self, caller: u128) -> (r: Option<WsEventServer>)
        ensures
            final(self).members == old(self).members,
            final(self).owner_id == old(self).owner_id,
            final(self).last_activity == old(self).last_activity,
            final(self).delegate is None,
            old(self).delegate is None ==> r is None,
            old(self).delegate is Some ==> (r matches Some(e) && is_user_state(e, *final(self), caller)),
    {
        if self.delegate.is_some() {
            self.delegate = None;
            Some(self.user_state(caller))
        } else {
            None
        }
    }
}

/// Whether a request to hand control passes the checks made before the live
/// room is looked at.
pub open spec fn delegation_precheck_passes(room: Option<Room>, caller: u128, target: u128, device: Seq<char>) -> bool {
    room matches Some(x) && x.owner_id == caller && target != caller && trim_spec(device).len() != 0
}

/// The error part of a result.
pub open spec fn err_part<T>(r: Result<T, AppError>) -> Result<(), AppError> {
    match r {
        Ok(_) => Ok(()),
        Err(e) => Err(e),
    }
}

/// What the owner's request to hand control of the room to a device is
/// answered with, the live room being `active` (where the room is live).
/// First the checks of [`check_delegation_request`], then the room must be
/// live and the device connected to it. A refused request leaves the live room
/// as it was. An accepted one hands control to the device, changes nothing
/// else, and gives what the clients are then told: the room's members, its
/// owner and the new delegate.
pub fn delegate_room(room: Option<Room>, active: Option<&mut ActiveRoom>, caller: u128, request: DelegateRoomRequest) -> (r: Result<WsEventServer, AppError>)
    ensures
        !delegation_precheck_passes(room, caller, request.user_id, request.device_name@)
            ==> delegation_request_is(err_part(r), room, caller, request.user_id, request.device_name@),
        delegation_precheck_passes(room, caller, request.user_id, request.device_name@) && active is None
            ==> r == Err::<WsEventServer, AppError>(AppError::NotFound(ErrorMessage::ActiveRoomNotFound)),
        active is Some && r is Err ==> *final(active.unwrap()) == *active.unwrap(),
        delegation_precheck_passes(room, caller, request.user_id, request.device_name@) && active is Some
            && !is_member(active.unwrap().members@, request.user_id, request.device_name@)
            ==> r == Err::<WsEventServer, AppError>(AppError::NotFound(ErrorMessage::DeviceNotInRoom)),
        delegation_precheck_passes(room, caller, request.user_id, request.device_name@) && active is Some
            && is_member(active.unwrap().members@, request.user_id, request.device_name@) ==> {
            &&& final(active.unwrap()).members == active.unwrap().members
            &&& final(active.unwrap()).owner_id == active.unwrap().owner_id
            &&& final(active.unwrap()).last_activity == active.unwrap().last_activity
            &&& opt_delegate_view(final(active.unwrap()).delegate) == Some((request.user_id, request.device_name@))
            &&& r matches Ok(e) && is_user_state(e, *final(active.unwrap()), caller)
        },
{
    match check_delegation_request(room, caller, request.user_id, request.device_name.as_str()) {
        Err(e) => return Err(e),
        Ok(()) => {},
    }
    match active {
        None => Err(AppError::NotFound(ErrorMessage::ActiveRoomNotFound)),
        Some(a) => a.delegate_to(caller, request.user_id, request.device_name),
    }
}

// ---------------------------------------------------------------------------
// Closing rooms

/// How long a live room may stay without activity before it is closed, in
/// milliseconds (two hours).
pub open spec fn inactivity_timeout() -> int {
    7_200_000
}

/// What the cleanup looks at in a live room.
#[derive(Debug, Clone, Copy, PartialEq, Eq, Structural)]
pub struct RoomActivity {
    pub room_id: u128,
    pub member_count: usize,
    pub last_activity: i64,
}

impl ActiveRoom {
    /// What the cleanup looks at in this room.
    pub fn activity(&self, room_id: u128) -> (r: RoomActivity)
        ensures
            r.room_id == room_id,
            r.member_count == self.members@.len(),
            r.last_activity == self.last_activity,
    {
        RoomActivity { room_id, member_count: self.members.len(), last_activity: self.last_activity }
    }
}

/// Whether a live room is to be closed at `now`: nobody is connected, or it
/// has been inactive for longer than the timeout.
pub open spec fn is_stale(a: RoomActivity, now: i64) -> bool {
    a.member_count == 0 || now - a.last_activity > inactivity_timeout()
}

/// The rooms among `rooms` to close at `now`, in order.
pub open spec fn stale_ids(rooms: Seq<RoomActivity>, now: i64) -> Seq<u128>
    decreases rooms.len(),
{
    if rooms.len() == 0 {
        Seq::empty()
    } else {
        let rest = stale_ids(rooms.drop_last(), now);
        if is_stale(rooms.last(), now) {
            rest.push(rooms.last().room_id)
        } else {
            rest
        }
    }
}

/// The live rooms to close at `now`.
pub fn rooms_to_evict(rooms: &Vec<RoomActivity>, now: i64) -> (r: Vec<u128>)
    ensures
        r@ == stale_ids(rooms@, now),
        forall|i: int| 0 <= i < rooms@.len() && rooms@[i].member_count >= 1 && now - rooms@[i].last_activity <= 7_200_000
            && (forall|j: int| 0 <= j < rooms@.len() && rooms@[j].room_id == rooms@[i].room_id ==> j == i)
            ==> !r@.contains(#[trigger] rooms@[i].room_id),
        forall|i: int| 0 <= i < rooms@.len() && (rooms@[i].member_count == 0 || now - rooms@[i].last_activity > 7_200_000)
            ==> r@.contains(#[trigger] rooms@[i].room_id),
{
    let mut r: Vec<u128> = Vec::new();
    let mut i: usize = 0;
    while i < rooms.len()
        invariant
            i <= rooms.len(),
            r@ == stale_ids(rooms@.take(i as int), now),
        decreases rooms.len() - i,
    {
        let a = rooms[i];
        proof {
            assert(rooms@.take(i as int + 1).drop_last() == rooms@.take(i as int));
            assert(rooms@.take(i as int + 1).last() == a);
        }
        if a.member_count == 0 || (now as i128) - (a.last_activity as i128) > 7_200_000 {
            r.push(a.room_id);
        }
        i = i + 1;
    }
    assert(rooms@.take(rooms.len() as int) == rooms@);
    proof {
        lemma_stale_ids_exact(rooms@, now);
    }
    r
}

/// A live room is closed exactly when it is empty or has been inactive for
/// longer than the timeout.
pub proof fn law_eviction(rooms: Seq<RoomActivity>, now: i64, id: u128)
    ensures
        stale_ids(rooms, now).contains(id) <==> exists|i: int| 0 <= i < rooms.len() && #[trigger] rooms[i].room_id == id && is_stale(rooms[i], now),
    decreases rooms.len(),
{
    if rooms.len() > 0 {
        let init = rooms.drop_last();
        law_eviction(init, now, id);
        let rest = stale_ids(init, now);
        if is_stale(rooms.last(), now) {
            assert(stale_ids(rooms, now) == rest.push(rooms.last().room_id));
            if rest.contains(id) {
                let i = choose|i: int| 0 <= i < init.len() && #[trigger] init[i].room_id == id && is_stale(init[i], now);
                assert(rooms[i] == init[i]);
            }
            if stale_ids(rooms, now).contains(id) && !rest.contains(id) {
                let k = choose|k: int| 0 <= k < stale_ids(rooms, now).len() && stale_ids(rooms, now)[k] == id;
                assert(k == rest.len());
                assert(rooms[rooms.len() - 1].room_id == id);
            }
        }
        if exists|i: int| 0 <= i < rooms.len() && #[trigger] rooms[i].room_id == id && is_stale(rooms[i], now) {
            let i = choose|i: int| 0 <= i < rooms.len() && #[trigger] rooms[i].room_id == id && is_stale(rooms[i], now);
            if i < rooms.len() - 1 {
                assert(init[i] == rooms[i]);
                let j = choose|j: int| 0 <= j < rest.len() && rest[j] == id;
                if is_stale(rooms.last(), now) {
                    assert(stale_ids(rooms, now)[j] == id);
                }
            } else {
                assert(stale_ids(rooms, now) == rest.push(id));
                assert(stale_ids(rooms, now)[rest.len() as int] == id);
            }
        }
        if !is_stale(rooms.last(), now) && rest.contains(id) {
            let i = choose|i: int| 0 <= i < init.len() && #[trigger] init[i].room_id == id && is_stale(init[i], now);
            assert(rooms[i] == init[i]);
        }
    }
}

proof fn lemma_stale_ids_exact(rooms: Seq<RoomActivity>, now: i64)
    ensures
        forall|i: int| 0 <= i < rooms.len() && rooms[i].member_count >= 1 && now - rooms[i].last_activity <= 7_200_000
            && (forall|j: int| 0 <= j < rooms.len() && rooms[j].room_id == rooms[i].room_id ==> j == i)
            ==> !stale_ids(rooms, now).contains(#[trigger] rooms[i].room_id),
        forall|i: int| 0 <= i < rooms.len() && (rooms[i].member_count == 0 || now - rooms[i].last_activity > 7_200_000)
            ==> stale_ids(rooms, now).contains(#[trigger] rooms[i].room_id),
{
    assert forall|i: int| 0 <= i < rooms.len() && rooms[i].member_count >= 1 && now - rooms[i].last_activity <= 7_200_000
        && (forall|j: int| 0 <= j < rooms.len() && rooms[j].room_id == rooms[i].room_id ==> j == i)
        implies !stale_ids(rooms, now).contains(#[trigger] rooms[i].room_id) by {
        law_eviction(rooms, now, rooms[i].room_id);
        if stale_ids(rooms, now).contains(rooms[i].room_id) {
            let j = choose|j: int| 0 <= j < rooms.len() && #[trigger] rooms[j].room_id == rooms[i].room_id && is_stale(rooms[j], now);
            assert(j == i);
        }
    }
    assert forall|i: int| 0 <= i < rooms.len() && (rooms[i].member_count == 0 || now - rooms[i].last_activity > 7_200_000)
        implies stale_ids(rooms, now).contains(#[trigger] rooms[i].room_id) by {
        law_eviction(rooms, now, rooms[i].room_id);
        assert(is_stale(rooms[i], now));
    }
}

/// A live room with someone connected that was active within the last two
/// hours (7 200 000 ms) is never closed; an empty room, or one idle for longer,
/// always is. (Live rooms are keyed by their identifier, so each appears once.)
pub proof fn law_busy_rooms_stay_open(rooms: Seq<RoomActivity>, now: i64, i: int)
    requires
        0 <= i < rooms.len(),
        forall|j: int| 0 <= j < rooms.len() && #[trigger] rooms[j].room_id == rooms[i].room_id ==> j == i,
    ensures
        rooms[i].member_count >= 1 && now - rooms[i].last_activity <= 7_200_000
            ==> !stale_ids(rooms, now).contains(rooms[i].room_id),
        rooms[i].member_count == 0 ==> stale_ids(rooms, now).contains(rooms[i].room_id),
        now - rooms[i].last_activity > 7_200_000 ==> stale_ids(rooms, now).contains(rooms[i].room_id),
{
    law_eviction(rooms, now, rooms[i].room_id);
}

/// The stored rooms that are not live, in order.
pub open spec fn orphan_ids(stored: Seq<u128>, live: Seq<u128>) -> Seq<u128>
    decreases stored.len(),
{
    if stored.len() == 0 {
        Seq::empty()
    } else {
        let rest = orphan_ids(stored.drop_last(), live);
        if live.contains(stored.last()) {
            rest
        } else {
            rest.push(stored.last())
        }
    }
}

fn contains_id(ids: &Vec<u128>, id: u128) -> (r: bool)
    ensures
        r == ids@.contains(id),
{
    let mut i: usize = 0;
    while i < ids.len()
        invariant
            i <= ids.len(),
            forall|j: int| 0 <= j < i ==> ids@[j] != id,
        decreases ids.len() - i,
    {
        if ids[i] == id {
            return true;
        }
        i = i + 1;
    }
    false
}

/// The stored rooms to delete because no live room stands for them.
pub fn orphaned_rooms(stored: &Vec<u128>, live: &Vec<u128>) -> (r: Vec<u128>)
    ensures
        r@ == orphan_ids(stored@, live@),
{
    let mut r: Vec<u128> = Vec::new();
    let mut i: usize = 0;
    while i < stored.len()
        invariant
            i <= stored.len(),
            r@ == orphan_ids(stored@.take(i as int), live@),
        decreases stored.len() - i,
    {
        let id = stored[i];
        proof {
            assert(stored@.take(i as int + 1).drop_last() == stored@.take(i as int));
            assert(stored@.take(i as int + 1).last() == id);
        }
        if !contains_id(live, id) {
            r.push(id);
        }
        i = i + 1;
    }
    assert(stored@.take(stored.len() as int) == stored@);
    r
}

/// A stored room is deleted exactly when it is stored and not live.
pub proof fn law_orphans(stored: Seq<u128>, live: Seq<u128>, id: u128)
    ensures
        orphan_ids(stored, live).contains(id) <==> (stored.contains(id) && !live.contains(id)),
    decreases stored.len(),
{
    if stored.len() > 0 {
        let init = stored.drop_last();
        law_orphans(init, live, id);
        let rest = orphan_ids(init, live);
        if stored.contains(id) && !live.contains(id) {
            let i = choose|i: int| 0 <= i < stored.len() && stored[i] == id;
            if i < stored.len() - 1 {
                assert(init[i] == id);
                assert(init.contains(id));
                let j = choose|j: int| 0 <= j < rest.len() && rest[j] == id;
                if !live.contains(stored.last()) {
                    assert(orphan_ids(stored, live)[j] == id);
                }
            } else {
                assert(orphan_ids(stored, live) == rest.push(id));
                assert(orphan_ids(stored, live)[rest.len() as int] == id);
            }
        }
        if orphan_ids(stored, live).contains(id) {
            if rest.contains(id) {
                let j = choose|j: int| 0 <= j < init.len() && init[j] == id;
                assert(stored[j] == id);
            } else {
                let k = choose|k: int| 0 <= k < orphan_ids(stored, live).len() && orphan_ids(stored, live)[k] == id;
                assert(!live.contains(stored.last()));
                assert(k == rest.len());
                assert(stored[stored.len() - 1] == id);
            }
        }
    }
}

// ---------------------------------------------------------------------------
// Sockets

pub open spec fn opt_str_view(v: Option<&str>) -> Option<Seq<char>> {
    match v {
        Some(s) => Some(s@),
        None => None,
    }
}

/// The name of a connecting device: its `x-device` header, else its `device`
/// option, else `Unknown device`.
pub open spec fn device_name_spec(header: Option<Seq<char>>, query: Option<Seq<char>>) -> Seq<char> {
    match header {
        Some(h) => h,
        None => match query {
            Some(q) => q,
            None => "Unknown device"@,
        },
    }
}

/// The name of a connecting device.
pub fn select_device_name(header: Option<&str>, query: Option<&str>) -> (r: String)
    ensures
        r@ == device_name_spec(opt_str_view(header), opt_str_view(query)),
{
    match header {
        Some(h) => h.to_string(),
        None => match query {
            Some(q) => q.to_string(),
            None => "Unknown device".to_string(),
        },
    }
}

} // verus!
