use backend::errors::{AppError, ErrorMessage};
use backend::friends::{are_friends, check_accept_request, order_ids, plan_friend_request, removal_outcome, Friend, FriendResponseDto};
use backend::live::{
    delegate_room, orphaned_rooms, rooms_to_evict, select_device_name, ActiveRoom, DelegateRoomRequest, RoomActivity,
    RoomDelegate, RoomMember, WsEventServer,
};
use backend::queue::{check_queue_edit, check_queue_read, AddToQueueRequest};
use backend::rooms::{
    check_answer_invitation, check_edit_queue_access, check_invite, check_is_owner, check_read_access, check_revoke,
    default_room_name, get_room, needs_invitation_check, owned_room, Invitation, InvitationResponse, Room,
    RoomResponse, VisibilityChange,
};

fn room(owner: u128, public: bool, licensed: bool) -> Room {
    Room {
        id: 100,
        owner_id: owner,
        name: "r".to_string(),
        is_public: public,
        is_licensed: licensed,
        current_track: None,
        current_position: 0,
        is_playing: false,
    }
}

fn forbidden(r: Result<(), AppError>) -> ErrorMessage {
    match r {
        Err(AppError::Forbidden(m)) => m,
        other => panic!("expected forbidden, got {:?}", other),
    }
}

#[test]
fn friendships_are_stored_under_ordered_pairs() {
    assert_eq!(order_ids(5, 2), (2, 5));
    assert_eq!(order_ids(2, 5), (2, 5));
    assert_eq!(plan_friend_request(9, Some(3)).unwrap(), (3, 9));
    assert!(matches!(plan_friend_request(9, Some(9)), Err(AppError::Conflict(ErrorMessage::SelfFriendRequest))));
    assert!(matches!(plan_friend_request(9, None), Err(AppError::NotFound(ErrorMessage::UserNotFound))));
}

#[test]
fn only_the_asked_user_accepts_a_pending_request() {
    let pending = Friend { user_id_1: 1, user_id_2: 2, sender_id: 1, is_pending: true };
    assert!(check_accept_request(2, Some(pending)).is_ok());
    assert!(matches!(check_accept_request(1, Some(pending)), Err(AppError::Conflict(ErrorMessage::SenderCannotAcceptOwn))));
    let done = Friend { is_pending: false, ..pending };
    assert!(matches!(check_accept_request(2, Some(done)), Err(AppError::Conflict(ErrorMessage::FriendAlreadyExists))));
    assert!(matches!(check_accept_request(2, None), Err(AppError::NotFound(ErrorMessage::FriendNotFound))));
    assert!(are_friends(Some(done)));
    assert!(!are_friends(Some(pending)));
    assert!(!are_friends(None));
    assert!(matches!(removal_outcome(0), Err(AppError::NotFound(ErrorMessage::FriendNotFound))));
    assert!(removal_outcome(1).is_ok());
    assert_eq!(FriendResponseDto::from_friend(done).sender_id, 1);
}

#[test]
fn room_access_rules() {
    let private = room(1, false, false);
    assert!(check_read_access(&private, 1, false).is_ok());
    assert_eq!(forbidden(check_read_access(&private, 2, false)), ErrorMessage::NotInvited);
    assert!(check_read_access(&private, 2, true).is_ok());
    assert!(check_read_access(&room(1, true, false), 2, false).is_ok());
    let licensed = room(1, true, true);
    assert_eq!(forbidden(check_edit_queue_access(&licensed, 2, false)), ErrorMessage::MissingLicense);
    assert!(check_edit_queue_access(&licensed, 2, true).is_ok());
    assert!(check_edit_queue_access(&licensed, 1, false).is_ok());
    assert!(check_edit_queue_access(&room(1, true, false), 2, false).is_ok());
    assert!(!needs_invitation_check(&licensed, 1, true));
    assert!(needs_invitation_check(&licensed, 2, true));
    assert!(!needs_invitation_check(&licensed, 2, false));
    assert_eq!(forbidden(check_is_owner(&licensed, 2)), ErrorMessage::NotRoomOwner);
}

#[test]
fn rooms_are_looked_up_before_access() {
    assert!(matches!(get_room(None, 1, false), Err(AppError::NotFound(ErrorMessage::RoomNotFound))));
    assert_eq!(get_room(Some(room(1, false, false)), 1, false).unwrap().owner_id, 1);
    assert!(matches!(owned_room(Some(room(1, true, true)), 2), Err(AppError::Forbidden(ErrorMessage::NotRoomOwner))));
    assert!(matches!(check_queue_read(Some(room(1, false, false)), 2, false), Err(AppError::Forbidden(ErrorMessage::NotInvited))));
    assert!(matches!(check_queue_edit(Some(room(1, true, true)), 2, false), Err(AppError::Forbidden(ErrorMessage::MissingLicense))));
    assert!(check_queue_edit(Some(room(1, true, false)), 2, false).is_ok());
    assert!(AddToQueueRequest { track_id: 1 }.validate().is_ok());
    assert!(matches!(AddToQueueRequest { track_id: 0 }.validate(), Err(AppError::Validation(ms)) if ms == vec![ErrorMessage::TrackIdInvalid]));
}

#[test]
fn owners_change_visibility_one_flag_at_a_time() {
    let r = room(1, false, true);
    assert_eq!(r.visibility_after(VisibilityChange::Publish), (true, true));
    assert_eq!(r.visibility_after(VisibilityChange::Privatize), (false, true));
    assert_eq!(r.visibility_after(VisibilityChange::EnableLicense), (false, true));
    assert_eq!(r.visibility_after(VisibilityChange::DisableLicense), (false, false));
    assert_eq!(default_room_name("dana"), "dana's room");
    assert_eq!(RoomResponse::from_room(r).owner_id, 1);
}

#[test]
fn invitations_are_answered_by_the_invitee_and_revoked_by_inviter_or_owner() {
    let inv = Invitation { id: 1, room_id: 100, inviter_id: 1, invitee_id: 2, is_pending: true, created_at: 0 };
    assert!(check_answer_invitation(Some(inv), 2).is_ok());
    assert!(matches!(check_answer_invitation(Some(inv), 3), Err(AppError::Forbidden(ErrorMessage::NotInvitedUser))));
    assert!(matches!(check_answer_invitation(None, 2), Err(AppError::NotFound(ErrorMessage::InvitationNotFound))));
    assert!(check_revoke(Some(inv), 1, None, false).is_ok());
    let owned_by_5 = room(5, true, false);
    assert!(check_revoke(Some(inv), 5, Some(owned_by_5.clone()), false).is_ok());
    assert!(matches!(check_revoke(Some(inv), 6, Some(owned_by_5.clone()), false), Err(AppError::Forbidden(ErrorMessage::NotRoomOwner))));
    assert!(matches!(check_revoke(Some(inv), 6, None, false), Err(AppError::NotFound(ErrorMessage::RoomNotFound))));
    assert!(check_invite(Some(owned_by_5.clone()), 5, false).is_ok());
    assert!(matches!(check_invite(Some(room(5, false, false)), 6, false), Err(AppError::Forbidden(ErrorMessage::NotInvited))));
    assert_eq!(InvitationResponse::from_invitation(inv).invitee_id, 2);
}

fn live_room() -> ActiveRoom {
    ActiveRoom {
        owner_id: Some(1),
        members: vec![
            RoomMember { user_id: 1, username: "owner".to_string(), device_name: "phone".to_string() },
            RoomMember { user_id: 2, username: "guest".to_string(), device_name: "laptop".to_string() },
        ],
        delegate: None,
        last_activity: 0,
    }
}

#[test]
fn control_is_handed_to_connected_devices_only() {
    let mut active = live_room();
    let req = DelegateRoomRequest { user_id: 2, device_name: "laptop".to_string() };
    let event = delegate_room(Some(room(1, true, false)), Some(&mut active), 1, req).unwrap();
    match event {
        WsEventServer::UserState { user_list, owner, delegate_user_id, delegate_device } => {
            assert_eq!(user_list.len(), 2);
            assert_eq!(user_list[1].username, "guest");
            assert_eq!(owner, 1);
            assert_eq!(delegate_user_id, Some(2));
            assert_eq!(delegate_device.as_deref(), Some("laptop"));
        }
        other => panic!("unexpected {:?}", other),
    }
    let d = active.delegate.clone().unwrap();
    assert_eq!((d.user_id, d.device_name.as_str()), (2, "laptop"));
    assert_eq!(active.members.len(), 2);
    let missing = DelegateRoomRequest { user_id: 2, device_name: "tablet".to_string() };
    assert!(matches!(
        delegate_room(Some(room(1, true, false)), Some(&mut active), 1, missing),
        Err(AppError::NotFound(ErrorMessage::DeviceNotInRoom))
    ));
    let d = active.delegate.clone().unwrap();
    assert_eq!((d.user_id, d.device_name.as_str()), (2, "laptop"));
    let blank = DelegateRoomRequest { user_id: 2, device_name: "  ".to_string() };
    assert!(matches!(
        delegate_room(Some(room(1, true, false)), Some(&mut active), 1, blank),
        Err(AppError::Validation(ms)) if ms == vec![ErrorMessage::DeviceNameInvalid]
    ));
    let me = DelegateRoomRequest { user_id: 1, device_name: "phone".to_string() };
    assert!(matches!(
        delegate_room(Some(room(1, true, false)), Some(&mut active), 1, me),
        Err(AppError::Validation(ms)) if ms == vec![ErrorMessage::CannotDelegateToSelf]
    ));
    let not_live = DelegateRoomRequest { user_id: 2, device_name: "laptop".to_string() };
    assert!(matches!(
        delegate_room(Some(room(1, true, false)), None, 1, not_live),
        Err(AppError::NotFound(ErrorMessage::ActiveRoomNotFound))
    ));
    let stranger = DelegateRoomRequest { user_id: 2, device_name: "laptop".to_string() };
    assert!(matches!(
        delegate_room(Some(room(1, true, false)), Some(&mut active), 3, stranger),
        Err(AppError::Forbidden(ErrorMessage::NotRoomOwner))
    ));
}

#[test]
fn revoking_control_tells_clients_once() {
    let mut active = live_room();
    assert!(active.revoke_delegate(1).is_none());
    active.delegate = Some(RoomDelegate { user_id: 2, device_name: "laptop".to_string() });
    match active.revoke_delegate(1) {
        Some(WsEventServer::UserState { delegate_user_id: None, delegate_device: None, .. }) => {}
        other => panic!("unexpected {:?}", other),
    }
    assert!(active.delegate.is_none());
}

#[test]
fn empty_or_idle_rooms_are_closed() {
    let rooms = vec![
        RoomActivity { room_id: 1, member_count: 0, last_activity: 10_000_000 },
        RoomActivity { room_id: 2, member_count: 3, last_activity: 0 },
        RoomActivity { room_id: 3, member_count: 3, last_activity: 2_799_999 },
        RoomActivity { room_id: 4, member_count: 3, last_activity: 2_800_000 },
    ];
    assert_eq!(rooms_to_evict(&rooms, 10_000_000), vec![1, 2, 3]);
    assert_eq!(live_room().activity(8).member_count, 2);
    assert_eq!(orphaned_rooms(&vec![1, 2, 3, 4], &vec![2, 4]), vec![1, 3]);
}

#[test]
fn devices_are_named_by_header_then_query() {
    assert_eq!(select_device_name(Some("tv"), Some("q")), "tv");
    assert_eq!(select_device_name(None, Some("q")), "q");
    assert_eq!(select_device_name(None, None), "Unknown device");
}

#[test]
fn members_join_once_per_device_and_leave() {
    let mut active = ActiveRoom::open(1, 5);
    assert!(active.members.is_empty());
    let m = RoomMember { user_id: 2, username: "guest".to_string(), device_name: "laptop".to_string() };
    active.join(m.clone(), 6);
    active.join(m, 7);
    active.join(RoomMember { user_id: 2, username: "guest".to_string(), device_name: "phone".to_string() }, 8);
    assert_eq!(active.members.len(), 2);
    assert_eq!(active.last_activity, 8);
    active.leave(2, "laptop", 9);
    assert_eq!(active.members.len(), 1);
    assert_eq!(active.members[0].device_name, "phone");
    assert!(!active.has_member(2, "laptop"));
    assert!(active.has_member(2, "phone"));
    assert_eq!(active.user_list()[0].user_id, 2);
}
