use whatssock_server::api::user_account_control::{
    create_chatroom, create_chatroom_with_id, fetch_known_chatrooms, fetch_login,
    fetch_session_token, fetch_unknown_chatroom, handle_logout_request, login_with_token,
    register_user, register_with_token,
};
use whatssock_server::error::ApiError;
use whatssock_server::memory::Store;
use whatssock_server::{
    CreateChatroomRequest, FetchKnownChatrooms, FetchUnknownChatroom, LoginRequest,
    RegisterRequest, ServerState, UserSession,
};

fn day() -> chrono::NaiveDate {
    chrono::NaiveDate::from_ymd_opt(2025, 3, 14).unwrap()
}

fn fresh_state() -> ServerState {
    ServerState { store: Store::new(day()) }
}

fn registration(username: &str, password: &str, email: &str) -> RegisterRequest {
    RegisterRequest {
        username: username.to_string(),
        password: password.to_string(),
        email: email.to_string(),
    }
}

fn credentials(username: &str, password: &str) -> LoginRequest {
    LoginRequest { username: username.to_string(), password: password.to_string() }
}

fn session(user_id: i32, session_token: [u8; 32]) -> UserSession {
    UserSession { user_id, session_token }
}

fn room_request(user_id: i32, name: &str, password: Option<&str>) -> CreateChatroomRequest {
    CreateChatroomRequest {
        user_session: session(user_id, [0u8; 32]),
        chatroom_name: name.to_string(),
        chatroom_passw: password.map(|p| p.to_string()),
    }
}

#[test]
fn register_then_login_rotates_the_token() {
    let mut state = fresh_state();
    let registered = register_user(&mut state, registration("alice", "pw1", "a@x.com")).unwrap();
    assert_eq!(registered.user_id, 1);
    let first = registered.session_token;

    let logged_in = fetch_login(&mut state, credentials("alice", "pw1")).unwrap();
    assert_eq!(logged_in.user_id, 1);
    let second = logged_in.session_token;
    assert_ne!(first, second);

    assert_eq!(
        fetch_session_token(&mut state, session(1, first)).unwrap_err(),
        ApiError::InvalidSession
    );
    let info = fetch_session_token(&mut state, session(1, second)).unwrap();
    assert_eq!(info.username, "alice");
    assert!(info.chatrooms_joined.is_empty());
}

#[test]
fn created_chatroom_is_disclosed_to_its_creator_only() {
    let mut state = fresh_state();
    register_user(&mut state, registration("alice", "pw1", "a@x.com")).unwrap();
    let alice = fetch_login(&mut state, credentials("alice", "pw1")).unwrap();
    let bob = register_user(&mut state, registration("bob", "pw2", "b@x.com")).unwrap();
    assert_eq!(bob.user_id, 2);

    let room = create_chatroom(&mut state, room_request(1, "Team", None)).unwrap();
    assert_eq!(room.chatroom_id.chars().count(), 10);
    assert!(room.chatroom_id.chars().all(|c| (' '..='~').contains(&c)));
    assert_eq!(room.participants, vec![Some(1)]);
    assert_eq!(room.chatroom_name, "Team");
    assert!(!room.is_direct_message);
    assert_eq!(room.last_message_id, None);
    assert_eq!(room.chatroom_uid, 1);

    let seen = fetch_known_chatrooms(
        &mut state,
        FetchKnownChatrooms {
            user_session: session(1, alice.session_token),
            chatroom_uids: vec![room.chatroom_uid],
        },
    )
    .unwrap();
    assert_eq!(seen.chatrooms.len(), 1);
    assert_eq!(seen.chatrooms[0].chatroom_uid, room.chatroom_uid);
    assert_eq!(seen.chatrooms[0].chatroom_id, room.chatroom_id);
    assert_eq!(seen.chatrooms[0].participants, vec![Some(1)]);

    let refused = fetch_known_chatrooms(
        &mut state,
        FetchKnownChatrooms {
            user_session: session(2, bob.session_token),
            chatroom_uids: vec![room.chatroom_uid],
        },
    );
    assert_eq!(refused.unwrap_err(), ApiError::Forbidden);

    let info = fetch_session_token(&mut state, session(1, alice.session_token)).unwrap();
    assert_eq!(info.chatrooms_joined, vec![Some(room.chatroom_uid)]);
}

#[test]
fn second_registration_of_a_username_conflicts() {
    let mut state = fresh_state();
    let first = register_with_token(&mut state, registration("carol", "pw", "c@x.com"), [7u8; 32]);
    assert_eq!(first.unwrap().user_id, 1);
    let second =
        register_with_token(&mut state, registration("carol", "other", "d@x.com"), [8u8; 32]);
    assert_eq!(second.unwrap_err(), ApiError::Conflict);
    assert_eq!(state.store.accounts().len(), 1);
    assert_eq!(state.store.sessions().len(), 1);
    assert_eq!(state.store.accounts()[0].passw, "pw");
    assert_eq!(state.store.accounts()[0].email, "c@x.com");
    assert_eq!(state.store.accounts()[0].created_at, day());
}

#[test]
fn registration_returns_the_given_token_and_no_chatrooms() {
    let mut state = fresh_state();
    let response =
        register_with_token(&mut state, registration("dave", "pw", "d@x.com"), [9u8; 32]).unwrap();
    assert_eq!(response.user_id, 1);
    assert_eq!(response.session_token, [9u8; 32]);
    assert!(response.chatrooms_joined.is_empty());
    assert_eq!(state.store.sessions()[0].user_id, 1);
    assert_eq!(state.store.sessions()[0].token_id, 1);
    assert_eq!(state.store.sessions()[0].session_token, vec![9u8; 32]);
}

#[test]
fn login_with_wrong_password_is_not_found() {
    let mut state = fresh_state();
    register_with_token(&mut state, registration("erin", "right", "e@x.com"), [1u8; 32]).unwrap();
    let result = login_with_token(&mut state, credentials("erin", "wrong"), [2u8; 32]);
    assert_eq!(result.unwrap_err(), ApiError::NotFound);
    let result = login_with_token(&mut state, credentials("nobody", "right"), [2u8; 32]);
    assert_eq!(result.unwrap_err(), ApiError::NotFound);
    assert_eq!(state.store.sessions()[0].session_token, vec![1u8; 32]);
}

#[test]
fn login_overwrites_the_session_and_adds_none() {
    let mut state = fresh_state();
    register_with_token(&mut state, registration("frank", "pw", "f@x.com"), [1u8; 32]).unwrap();
    let response = login_with_token(&mut state, credentials("frank", "pw"), [2u8; 32]).unwrap();
    assert_eq!(response.user_id, 1);
    assert_eq!(response.session_token, [2u8; 32]);
    assert_eq!(state.store.sessions().len(), 1);
    assert_eq!(state.store.sessions()[0].token_id, 1);
    assert_eq!(state.store.sessions()[0].session_token, vec![2u8; 32]);
}

#[test]
fn login_after_logout_inserts_a_session() {
    let mut state = fresh_state();
    register_with_token(&mut state, registration("gina", "pw", "g@x.com"), [1u8; 32]).unwrap();
    handle_logout_request(&mut state, session(1, [1u8; 32])).unwrap();
    assert!(state.store.sessions().is_empty());
    login_with_token(&mut state, credentials("gina", "pw"), [3u8; 32]).unwrap();
    assert_eq!(state.store.sessions().len(), 1);
    assert_eq!(state.store.sessions()[0].token_id, 2);
    assert_eq!(state.store.sessions()[0].user_id, 1);
    assert!(fetch_session_token(&mut state, session(1, [3u8; 32])).is_ok());
}

#[test]
fn any_other_token_is_an_invalid_session() {
    let mut state = fresh_state();
    register_with_token(&mut state, registration("hank", "pw", "h@x.com"), [1u8; 32]).unwrap();
    login_with_token(&mut state, credentials("hank", "pw"), [4u8; 32]).unwrap();
    assert!(fetch_session_token(&mut state, session(1, [4u8; 32])).is_ok());
    let mut almost = [4u8; 32];
    almost[31] = 5;
    for token in [[0u8; 32], [1u8; 32], almost] {
        assert_eq!(
            fetch_session_token(&mut state, session(1, token)).unwrap_err(),
            ApiError::InvalidSession
        );
    }
    assert_eq!(
        fetch_session_token(&mut state, session(2, [4u8; 32])).unwrap_err(),
        ApiError::InvalidSession
    );
}

#[test]
fn logout_invalidates_and_may_be_repeated() {
    let mut state = fresh_state();
    register_with_token(&mut state, registration("ida", "pw", "i@x.com"), [6u8; 32]).unwrap();
    assert!(fetch_session_token(&mut state, session(1, [6u8; 32])).is_ok());
    assert!(handle_logout_request(&mut state, session(1, [6u8; 32])).is_ok());
    assert_eq!(
        fetch_session_token(&mut state, session(1, [6u8; 32])).unwrap_err(),
        ApiError::InvalidSession
    );
    assert!(handle_logout_request(&mut state, session(1, [6u8; 32])).is_ok());
    assert!(state.store.sessions().is_empty());
}

#[test]
fn logout_removes_only_sessions_with_the_token() {
    let mut state = fresh_state();
    register_with_token(&mut state, registration("jack", "pw", "j@x.com"), [1u8; 32]).unwrap();
    register_with_token(&mut state, registration("kate", "pw", "k@x.com"), [2u8; 32]).unwrap();
    handle_logout_request(&mut state, session(2, [1u8; 32])).unwrap();
    assert_eq!(state.store.sessions().len(), 1);
    assert_eq!(state.store.sessions()[0].user_id, 2);
    assert!(fetch_session_token(&mut state, session(2, [2u8; 32])).is_ok());
}

#[test]
fn chatroom_is_found_by_public_id_and_password() {
    let mut state = fresh_state();
    register_with_token(&mut state, registration("lena", "pw", "l@x.com"), [1u8; 32]).unwrap();
    create_chatroom_with_id(&mut state, room_request(1, "Open", None), "open-room!".to_string())
        .unwrap();
    create_chatroom_with_id(
        &mut state,
        room_request(1, "Locked", Some("secret")),
        "locked-rm!".to_string(),
    )
    .unwrap();

    let fetch = |state: &mut ServerState, id: &str, password: Option<&str>| {
        fetch_unknown_chatroom(
            state,
            FetchUnknownChatroom {
                user_session: session(1, [1u8; 32]),
                chatroom_id: id.to_string(),
                password: password.map(|p| p.to_string()),
            },
        )
    };

    let open = fetch(&mut state, "open-room!", None).unwrap();
    assert_eq!(open.chatroom_uid, 1);
    assert_eq!(open.chatroom_name, "Open");
    let locked = fetch(&mut state, "locked-rm!", Some("secret")).unwrap();
    assert_eq!(locked.chatroom_uid, 2);
    assert_eq!(locked.chatroom_name, "Locked");
    assert_eq!(locked.participants, vec![Some(1)]);

    assert_eq!(fetch(&mut state, "locked-rm!", Some("guess")).unwrap_err(), ApiError::NotFound);
    assert_eq!(fetch(&mut state, "no-such-id", Some("secret")).unwrap_err(), ApiError::NotFound);
    assert_eq!(fetch(&mut state, "no-such-id", None).unwrap_err(), ApiError::NotFound);
    assert_eq!(fetch(&mut state, "open-room!", Some("any")).unwrap_err(), ApiError::NotFound);
    assert_eq!(fetch(&mut state, "locked-rm!", None).unwrap().chatroom_uid, 2);
}

#[test]
fn first_chatroom_with_a_public_id_wins() {
    let mut state = fresh_state();
    register_with_token(&mut state, registration("mona", "pw", "m@x.com"), [1u8; 32]).unwrap();
    create_chatroom_with_id(&mut state, room_request(1, "One", None), "same-id-00".to_string())
        .unwrap();
    create_chatroom_with_id(&mut state, room_request(1, "Two", None), "same-id-00".to_string())
        .unwrap();
    let found = fetch_unknown_chatroom(
        &mut state,
        FetchUnknownChatroom {
            user_session: session(1, [1u8; 32]),
            chatroom_id: "same-id-00".to_string(),
            password: None,
        },
    )
    .unwrap();
    assert_eq!(found.chatroom_name, "One");
    assert_eq!(state.store.accounts()[0].chatrooms_joined, vec![Some(1), Some(2)]);
}

#[test]
fn bulk_fetch_is_all_or_nothing() {
    let mut state = fresh_state();
    register_with_token(&mut state, registration("nora", "pw", "n@x.com"), [1u8; 32]).unwrap();
    register_with_token(&mut state, registration("omar", "pw", "o@x.com"), [2u8; 32]).unwrap();
    create_chatroom_with_id(&mut state, room_request(1, "Hers", None), "aaaaaaaaaa".to_string())
        .unwrap();
    create_chatroom_with_id(&mut state, room_request(2, "His", None), "bbbbbbbbbb".to_string())
        .unwrap();
    create_chatroom_with_id(&mut state, room_request(1, "Also", None), "cccccccccc".to_string())
        .unwrap();

    let ask = |state: &mut ServerState, user_id: i32, token: [u8; 32], uids: Vec<i32>| {
        fetch_known_chatrooms(
            state,
            FetchKnownChatrooms { user_session: session(user_id, token), chatroom_uids: uids },
        )
    };

    let both = ask(&mut state, 1, [1u8; 32], vec![3, 1]).unwrap();
    assert_eq!(both.chatrooms.len(), 2);
    assert_eq!(both.chatrooms[0].chatroom_name, "Also");
    assert_eq!(both.chatrooms[1].chatroom_name, "Hers");

    let twice = ask(&mut state, 1, [1u8; 32], vec![1, 1]).unwrap();
    assert_eq!(twice.chatrooms.len(), 2);

    let none = ask(&mut state, 1, [1u8; 32], vec![]).unwrap();
    assert!(none.chatrooms.is_empty());

    assert_eq!(ask(&mut state, 1, [1u8; 32], vec![1, 2, 3]).unwrap_err(), ApiError::Forbidden);
    assert_eq!(ask(&mut state, 1, [1u8; 32], vec![1, 99]).unwrap_err(), ApiError::Forbidden);
    assert_eq!(ask(&mut state, 1, [9u8; 32], vec![1]).unwrap_err(), ApiError::Forbidden);
    assert_eq!(ask(&mut state, 1, [9u8; 32], vec![]).unwrap_err(), ApiError::Forbidden);
    assert_eq!(ask(&mut state, 2, [2u8; 32], vec![2]).unwrap().chatrooms.len(), 1);
}

#[test]
fn creation_for_an_unknown_account_leaves_the_chatroom_behind() {
    let mut state = fresh_state();
    let result =
        create_chatroom_with_id(&mut state, room_request(5, "Lost", None), "dddddddddd".to_string());
    assert_eq!(result.unwrap_err(), ApiError::StorageUnavailable);
    assert_eq!(state.store.rooms().len(), 1);
    assert_eq!(state.store.rooms()[0].participants, vec![Some(5)]);
    assert_eq!(state.store.rooms()[0].chatroom_password, None);
}

#[test]
fn creation_keeps_the_password_out_of_the_response() {
    let mut state = fresh_state();
    register_with_token(&mut state, registration("pete", "pw", "p@x.com"), [1u8; 32]).unwrap();
    let room = create_chatroom_with_id(
        &mut state,
        room_request(1, "Vault", Some("hush")),
        "eeeeeeeeee".to_string(),
    )
    .unwrap();
    assert_eq!(room.chatroom_id, "eeeeeeeeee");
    assert_eq!(state.store.rooms()[0].chatroom_password, Some("hush".to_string()));
    assert_eq!(state.store.rooms()[0].chatroom_id, "eeeeeeeeee");
    assert_eq!(room.current_participants(), vec![1]);
}

#[test]
fn session_tokens_are_drawn_afresh() {
    let mut state = fresh_state();
    let a = register_user(&mut state, registration("quin", "pw", "q@x.com")).unwrap();
    let b = register_user(&mut state, registration("rosa", "pw", "r@x.com")).unwrap();
    assert_ne!(a.session_token, b.session_token);
    assert_ne!(a.session_token, [0u8; 32]);
    assert!(fetch_session_token(&mut state, session(1, a.session_token)).is_ok());
    assert!(fetch_session_token(&mut state, session(2, b.session_token)).is_ok());
    assert_eq!(
        fetch_session_token(&mut state, session(1, b.session_token)).unwrap_err(),
        ApiError::InvalidSession
    );
}

#[test]
fn chatroom_ids_are_drawn_afresh() {
    let mut state = fresh_state();
    register_with_token(&mut state, registration("sven", "pw", "s@x.com"), [1u8; 32]).unwrap();
    let a = create_chatroom(&mut state, room_request(1, "A", None)).unwrap();
    let b = create_chatroom(&mut state, room_request(1, "B", None)).unwrap();
    assert_ne!(a.chatroom_id, b.chatroom_id);
    assert_ne!(a.chatroom_uid, b.chatroom_uid);
    for id in [&a.chatroom_id, &b.chatroom_id] {
        assert_eq!(id.len(), 10);
        assert!(id.bytes().all(|c| (32..=126).contains(&c)));
    }
}
