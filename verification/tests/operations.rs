use whatssock_server::error::ApiError;
use whatssock_server::models::{ChatroomEntry, UserAccountEntry, UserSessionEntry};
use whatssock_server::operation::{takes_part, ApiResponse, Operation, Progress};
use whatssock_server::random::{generate_chatroom_id, generate_session_token};
use whatssock_server::store::{StoreReply, StoreRequest};
use whatssock_server::{
    CreateChatroomRequest, FetchChatroomResponse, FetchKnownChatrooms, FetchUnknownChatroom,
    LoginRequest, LoginResponse, RegisterRequest, UserSession,
};

fn some_day() -> chrono::NaiveDate {
    chrono::NaiveDate::from_ymd_opt(2024, 12, 31).unwrap()
}

fn account_row(id: i32, username: &str, joined: Vec<Option<i32>>) -> UserAccountEntry {
    UserAccountEntry {
        id,
        username: username.to_string(),
        passw: "pw".to_string(),
        email: "mail@x.com".to_string(),
        chatrooms_joined: joined,
        created_at: some_day(),
    }
}

fn session_row(token_id: i32, user_id: i32) -> UserSessionEntry {
    UserSessionEntry { token_id, user_id, session_token: vec![0u8; 32] }
}

fn chatroom_row(id: i32, participants: Vec<Option<i32>>) -> ChatroomEntry {
    ChatroomEntry {
        id,
        chatroom_id: format!("room-{:05}", id),
        chatroom_name: format!("Room {}", id),
        chatroom_password: Some("hidden".to_string()),
        participants,
        is_direct_message: false,
        last_message_id: Some(4),
    }
}

fn asked(progress: Progress) -> (Operation, StoreRequest) {
    match progress {
        Progress::Ask(operation, request) => (operation, request),
        Progress::Done(result) => panic!("the operation ended: {:?}", result),
    }
}

fn ended(progress: Progress) -> Result<ApiResponse, ApiError> {
    match progress {
        Progress::Done(result) => result,
        Progress::Ask(_, request) => panic!("the operation asks: {:?}", request),
    }
}

fn failure(progress: Progress) -> ApiError {
    match ended(progress) {
        Err(error) => error,
        Ok(response) => panic!("the operation succeeded: {:?}", response),
    }
}

fn login_start() -> Progress {
    Operation::login(
        LoginRequest { username: "alice".to_string(), password: "pw1".to_string() },
        [3u8; 32],
    )
}

fn register_start() -> Progress {
    Operation::register(
        RegisterRequest {
            username: "alice".to_string(),
            password: "pw1".to_string(),
            email: "a@x.com".to_string(),
        },
        [5u8; 32],
    )
}

fn create_start() -> Progress {
    Operation::create_chatroom(
        CreateChatroomRequest {
            user_session: UserSession { user_id: 7, session_token: [0u8; 32] },
            chatroom_name: "Team".to_string(),
            chatroom_passw: Some("pass".to_string()),
        },
        "0123456789".to_string(),
    )
}

fn known_start(uids: Vec<i32>) -> Progress {
    Operation::fetch_known(FetchKnownChatrooms {
        user_session: UserSession { user_id: 7, session_token: [8u8; 32] },
        chatroom_uids: uids,
    })
}

#[test]
fn login_asks_for_account_then_count_then_write() {
    let (operation, request) = asked(login_start());
    match request {
        StoreRequest::FindAccountByCredentials { username, password } => {
            assert_eq!(username, "alice");
            assert_eq!(password, "pw1");
        }
        other => panic!("{:?}", other),
    }
    let reply = StoreReply::Account(account_row(4, "alice", vec![Some(2), None]));
    let (operation, request) = asked(operation.resume(reply));
    assert!(matches!(request, StoreRequest::CountSessionsForAccount { user_id: 4 }));
    let (operation, request) = asked(operation.resume(StoreReply::Count(0)));
    match request {
        StoreRequest::InsertSession { session } => {
            assert_eq!(session.user_id, 4);
            assert_eq!(session.session_token, vec![3u8; 32]);
        }
        other => panic!("{:?}", other),
    }
    match ended(operation.resume(StoreReply::Session(session_row(1, 4)))) {
        Ok(ApiResponse::Login(LoginResponse { user_id, session_token, chatrooms_joined })) => {
            assert_eq!(user_id, 4);
            assert_eq!(session_token, [3u8; 32]);
            assert_eq!(chatrooms_joined, vec![Some(2), None]);
        }
        other => panic!("{:?}", other),
    }
}

#[test]
fn login_updates_where_a_session_exists() {
    let (operation, _) = asked(login_start());
    let (operation, _) =
        asked(operation.resume(StoreReply::Account(account_row(4, "alice", vec![]))));
    for count in [1i64, 2, 17] {
        let (operation, _) = asked(login_start());
        let (operation, _) =
            asked(operation.resume(StoreReply::Account(account_row(4, "alice", vec![]))));
        let (_, request) = asked(operation.resume(StoreReply::Count(count)));
        match request {
            StoreRequest::UpdateSession { session } => {
                assert_eq!(session.user_id, 4);
                assert_eq!(session.session_token, vec![3u8; 32]);
            }
            other => panic!("{:?}", other),
        }
    }
    let (_, request) = asked(operation.resume(StoreReply::Count(-1)));
    assert!(matches!(request, StoreRequest::UpdateSession { .. }));
}

#[test]
fn login_failures_are_told_apart() {
    let (operation, _) = asked(login_start());
    assert_eq!(failure(operation.resume(StoreReply::NotFound)), ApiError::NotFound);
    let (operation, _) = asked(login_start());
    assert_eq!(failure(operation.resume(StoreReply::Unavailable)), ApiError::StorageUnavailable);
    let (operation, _) = asked(login_start());
    assert_eq!(failure(operation.resume(StoreReply::Failed)), ApiError::StorageUnavailable);
    let (operation, _) = asked(login_start());
    assert_eq!(failure(operation.resume(StoreReply::Count(1))), ApiError::StorageUnavailable);

    let at_count = || {
        let (operation, _) = asked(login_start());
        asked(operation.resume(StoreReply::Account(account_row(4, "alice", vec![])))).0
    };
    assert_eq!(failure(at_count().resume(StoreReply::Failed)), ApiError::StorageUnavailable);
    assert_eq!(failure(at_count().resume(StoreReply::NotFound)), ApiError::StorageUnavailable);

    let at_write = || asked(at_count().resume(StoreReply::Count(1))).0;
    assert_eq!(failure(at_write().resume(StoreReply::Failed)), ApiError::InternalWriteFailure);
    assert_eq!(failure(at_write().resume(StoreReply::NotFound)), ApiError::InternalWriteFailure);
    assert_eq!(failure(at_write().resume(StoreReply::Count(1))), ApiError::InternalWriteFailure);
    assert_eq!(failure(at_write().resume(StoreReply::Unavailable)), ApiError::StorageUnavailable);
}

#[test]
fn registration_asks_for_count_then_two_inserts() {
    let (operation, request) = asked(register_start());
    match request {
        StoreRequest::CountAccountsByUsername { username } => assert_eq!(username, "alice"),
        other => panic!("{:?}", other),
    }
    let (operation, request) = asked(operation.resume(StoreReply::Count(0)));
    match request {
        StoreRequest::InsertAccount { account } => {
            assert_eq!(account.username, "alice");
            assert_eq!(account.passw, "pw1");
            assert_eq!(account.email, "a@x.com");
            assert!(account.chatrooms_joined.is_empty());
        }
        other => panic!("{:?}", other),
    }
    let (operation, request) =
        asked(operation.resume(StoreReply::Account(account_row(12, "alice", vec![]))));
    match request {
        StoreRequest::InsertSession { session } => {
            assert_eq!(session.user_id, 12);
            assert_eq!(session.session_token, vec![5u8; 32]);
        }
        other => panic!("{:?}", other),
    }
    match ended(operation.resume(StoreReply::Session(session_row(3, 12)))) {
        Ok(ApiResponse::Login(login)) => {
            assert_eq!(login.user_id, 12);
            assert_eq!(login.session_token, [5u8; 32]);
            assert!(login.chatrooms_joined.is_empty());
        }
        other => panic!("{:?}", other),
    }
}

#[test]
fn registration_failures_are_told_apart() {
    for taken in [1i64, 2, -3] {
        let (operation, _) = asked(register_start());
        assert_eq!(failure(operation.resume(StoreReply::Count(taken))), ApiError::Conflict);
    }
    let (operation, _) = asked(register_start());
    assert_eq!(failure(operation.resume(StoreReply::Failed)), ApiError::StorageUnavailable);
    let (operation, _) = asked(register_start());
    assert_eq!(failure(operation.resume(StoreReply::NotFound)), ApiError::StorageUnavailable);

    let at_insert = || {
        let (operation, _) = asked(register_start());
        asked(operation.resume(StoreReply::Count(0))).0
    };
    assert_eq!(failure(at_insert().resume(StoreReply::Failed)), ApiError::InternalWriteFailure);
    assert_eq!(failure(at_insert().resume(StoreReply::Unavailable)), ApiError::StorageUnavailable);

    let at_session =
        || asked(at_insert().resume(StoreReply::Account(account_row(1, "alice", vec![])))).0;
    assert_eq!(failure(at_session().resume(StoreReply::Failed)), ApiError::InternalWriteFailure);
    assert_eq!(failure(at_session().resume(StoreReply::Deleted(1))), ApiError::InternalWriteFailure);
}

#[test]
fn session_is_valid_on_exactly_one_match() {
    let start = || {
        Operation::continue_session(UserSession { user_id: 9, session_token: [1u8; 32] })
    };
    let (_, request) = asked(start());
    match request {
        StoreRequest::CountSessions { user_id, session_token } => {
            assert_eq!(user_id, 9);
            assert_eq!(session_token, [1u8; 32]);
        }
        other => panic!("{:?}", other),
    }
    for count in [0i64, 2, 3, -1, i64::MAX] {
        let (operation, _) = asked(start());
        assert_eq!(failure(operation.resume(StoreReply::Count(count))), ApiError::InvalidSession);
    }
    let (operation, _) = asked(start());
    let (operation, request) = asked(operation.resume(StoreReply::Count(1)));
    assert!(matches!(request, StoreRequest::FindAccountById { id: 9 }));
    match ended(operation.resume(StoreReply::Account(account_row(9, "zoe", vec![Some(1)])))) {
        Ok(ApiResponse::User(info)) => {
            assert_eq!(info.username, "zoe");
            assert_eq!(info.chatrooms_joined, vec![Some(1)]);
        }
        other => panic!("{:?}", other),
    }
    let (operation, _) = asked(start());
    let (operation, _) = asked(operation.resume(StoreReply::Count(1)));
    assert_eq!(failure(operation.resume(StoreReply::NotFound)), ApiError::StorageUnavailable);
    let (operation, _) = asked(start());
    assert_eq!(failure(operation.resume(StoreReply::Unavailable)), ApiError::StorageUnavailable);
}

#[test]
fn logout_succeeds_whatever_was_deleted() {
    let start = || Operation::logout(UserSession { user_id: 9, session_token: [2u8; 32] });
    let (_, request) = asked(start());
    match request {
        StoreRequest::DeleteSessionByToken { session_token } => {
            assert_eq!(session_token, [2u8; 32])
        }
        other => panic!("{:?}", other),
    }
    for deleted in [0usize, 1, 5] {
        let (operation, _) = asked(start());
        assert!(matches!(
            ended(operation.resume(StoreReply::Deleted(deleted))),
            Ok(ApiResponse::Logout(_))
        ));
    }
    let (operation, _) = asked(start());
    assert_eq!(failure(operation.resume(StoreReply::Failed)), ApiError::InternalWriteFailure);
    let (operation, _) = asked(start());
    assert_eq!(failure(operation.resume(StoreReply::Unavailable)), ApiError::StorageUnavailable);
}

#[test]
fn fetch_by_public_id_passes_the_password_on() {
    let start = |password: Option<&str>| {
        Operation::fetch_unknown(FetchUnknownChatroom {
            user_session: UserSession { user_id: 1, session_token: [0u8; 32] },
            chatroom_id: "abcdefghij".to_string(),
            password: password.map(|p| p.to_string()),
        })
    };
    let (operation, request) = asked(start(Some("pw")));
    match request {
        StoreRequest::FindChatroomByHumanId { chatroom_id, chatroom_password } => {
            assert_eq!(chatroom_id, "abcdefghij");
            assert_eq!(chatroom_password, Some("pw".to_string()));
        }
        other => panic!("{:?}", other),
    }
    match ended(operation.resume(StoreReply::Chatroom(chatroom_row(6, vec![Some(1), None])))) {
        Ok(ApiResponse::Chatroom(room)) => {
            assert_eq!(room.chatroom_uid, 6);
            assert_eq!(room.chatroom_id, "room-00006");
            assert_eq!(room.chatroom_name, "Room 6");
            assert_eq!(room.participants, vec![Some(1), None]);
            assert!(!room.is_direct_message);
            assert_eq!(room.last_message_id, Some(4));
        }
        other => panic!("{:?}", other),
    }
    let (operation, request) = asked(start(None));
    assert!(matches!(
        request,
        StoreRequest::FindChatroomByHumanId { chatroom_password: None, .. }
    ));
    assert_eq!(failure(operation.resume(StoreReply::NotFound)), ApiError::NotFound);
    let (operation, _) = asked(start(None));
    assert_eq!(failure(operation.resume(StoreReply::Failed)), ApiError::StorageUnavailable);
}

#[test]
fn bulk_fetch_loads_each_chatroom_in_turn() {
    let (operation, request) = asked(known_start(vec![30, 10, 20]));
    match request {
        StoreRequest::CountSessions { user_id, session_token } => {
            assert_eq!(user_id, 7);
            assert_eq!(session_token, [8u8; 32]);
        }
        other => panic!("{:?}", other),
    }
    let (operation, request) = asked(operation.resume(StoreReply::Count(1)));
    assert!(matches!(request, StoreRequest::FindChatroomById { id: 30 }));
    let (operation, request) =
        asked(operation.resume(StoreReply::Chatroom(chatroom_row(30, vec![Some(7)]))));
    assert!(matches!(request, StoreRequest::FindChatroomById { id: 10 }));
    let (operation, request) =
        asked(operation.resume(StoreReply::Chatroom(chatroom_row(10, vec![None, Some(7)]))));
    assert!(matches!(request, StoreRequest::FindChatroomById { id: 20 }));
    match ended(operation.resume(StoreReply::Chatroom(chatroom_row(20, vec![Some(1), Some(7)])))) {
        Ok(ApiResponse::Chatrooms(list)) => {
            let uids: Vec<i32> = list.chatrooms.iter().map(|room| room.chatroom_uid).collect();
            assert_eq!(uids, vec![30, 10, 20]);
        }
        other => panic!("{:?}", other),
    }
}

#[test]
fn bulk_fetch_is_refused_on_any_failure() {
    for count in [0i64, 2, -1] {
        let (operation, _) = asked(known_start(vec![1]));
        assert_eq!(failure(operation.resume(StoreReply::Count(count))), ApiError::Forbidden);
    }
    let (operation, _) = asked(known_start(vec![]));
    match ended(operation.resume(StoreReply::Count(1))) {
        Ok(ApiResponse::Chatrooms(list)) => assert!(list.chatrooms.is_empty()),
        other => panic!("{:?}", other),
    }
    let loading = || {
        let (operation, _) = asked(known_start(vec![1, 2]));
        asked(operation.resume(StoreReply::Count(1))).0
    };
    assert_eq!(
        failure(loading().resume(StoreReply::Chatroom(chatroom_row(1, vec![Some(8), None])))),
        ApiError::Forbidden
    );
    assert_eq!(
        failure(loading().resume(StoreReply::Chatroom(chatroom_row(1, vec![])))),
        ApiError::Forbidden
    );
    assert_eq!(failure(loading().resume(StoreReply::NotFound)), ApiError::Forbidden);
    assert_eq!(failure(loading().resume(StoreReply::Failed)), ApiError::StorageUnavailable);
    assert_eq!(failure(loading().resume(StoreReply::Unavailable)), ApiError::StorageUnavailable);
    let (second, _) =
        asked(loading().resume(StoreReply::Chatroom(chatroom_row(1, vec![Some(7)]))));
    assert_eq!(
        failure(second.resume(StoreReply::Chatroom(chatroom_row(2, vec![Some(6)])))),
        ApiError::Forbidden
    );
}

#[test]
fn creation_inserts_then_records_with_the_creator() {
    let (operation, request) = asked(create_start());
    match request {
        StoreRequest::InsertChatroom { chatroom } => {
            assert_eq!(chatroom.chatroom_id, "0123456789");
            assert_eq!(chatroom.chatroom_name, "Team");
            assert_eq!(chatroom.chatroom_password, Some("pass".to_string()));
            assert_eq!(chatroom.participants, vec![7]);
            assert!(!chatroom.is_direct_message);
            assert_eq!(chatroom.last_message_id, None);
        }
        other => panic!("{:?}", other),
    }
    let (operation, request) =
        asked(operation.resume(StoreReply::Chatroom(chatroom_row(41, vec![Some(7)]))));
    assert!(matches!(request, StoreRequest::FindAccountById { id: 7 }));
    let (operation, request) =
        asked(operation.resume(StoreReply::Account(account_row(7, "gus", vec![Some(3), None]))));
    match request {
        StoreRequest::UpdateAccountMembership { id, chatrooms_joined } => {
            assert_eq!(id, 7);
            assert_eq!(chatrooms_joined, vec![Some(3), None, Some(41)]);
        }
        other => panic!("{:?}", other),
    }
    match ended(operation.resume(StoreReply::Account(account_row(7, "gus", vec![])))) {
        Ok(ApiResponse::Chatroom(room)) => {
            assert_eq!(room.chatroom_uid, 41);
            assert_eq!(room.participants, vec![Some(7)]);
        }
        other => panic!("{:?}", other),
    }
}

#[test]
fn creation_failures_are_told_apart() {
    let (operation, _) = asked(create_start());
    assert_eq!(failure(operation.resume(StoreReply::Failed)), ApiError::InternalWriteFailure);
    let (operation, _) = asked(create_start());
    assert_eq!(failure(operation.resume(StoreReply::Unavailable)), ApiError::StorageUnavailable);
    let at_account = || {
        let (operation, _) = asked(create_start());
        asked(operation.resume(StoreReply::Chatroom(chatroom_row(41, vec![Some(7)])))).0
    };
    assert_eq!(failure(at_account().resume(StoreReply::NotFound)), ApiError::StorageUnavailable);
    assert_eq!(failure(at_account().resume(StoreReply::Failed)), ApiError::StorageUnavailable);
    let at_update =
        || asked(at_account().resume(StoreReply::Account(account_row(7, "gus", vec![])))).0;
    assert_eq!(failure(at_update().resume(StoreReply::NotFound)), ApiError::InternalWriteFailure);
    assert_eq!(failure(at_update().resume(StoreReply::Failed)), ApiError::InternalWriteFailure);
    assert_eq!(failure(at_update().resume(StoreReply::Unavailable)), ApiError::StorageUnavailable);
}

#[test]
fn participants_are_found_among_empty_slots() {
    assert!(takes_part(&vec![None, Some(3), None], 3));
    assert!(takes_part(&vec![Some(3)], 3));
    assert!(takes_part(&vec![Some(1), Some(2), Some(3)], 3));
    assert!(!takes_part(&vec![], 3));
    assert!(!takes_part(&vec![None], 3));
    assert!(!takes_part(&vec![Some(30), Some(-3)], 3));
}

#[test]
fn current_participants_skip_empty_slots() {
    let mut response = FetchChatroomResponse::from_entry(chatroom_row(
        1,
        vec![None, Some(4), None, Some(2), Some(4), None],
    ));
    assert_eq!(response.current_participants(), vec![4, 2, 4]);
    response.participants = vec![None, None];
    assert!(response.current_participants().is_empty());
    response.participants = vec![];
    assert!(response.current_participants().is_empty());
}

#[test]
fn status_codes_are_fixed_and_distinct() {
    assert_eq!(ApiError::StorageUnavailable.status_code(), 503);
    assert_eq!(ApiError::NotFound.status_code(), 404);
    assert_eq!(ApiError::Conflict.status_code(), 302);
    assert_eq!(ApiError::Forbidden.status_code(), 403);
    assert_eq!(ApiError::InvalidSession.status_code(), 406);
    assert_eq!(ApiError::InternalWriteFailure.status_code(), 500);
}

#[test]
fn random_chatroom_ids_have_ten_printable_characters() {
    for _ in 0..200 {
        let id = generate_chatroom_id();
        assert_eq!(id.chars().count(), 10);
        assert!(id.chars().all(|c| ' ' <= c && c <= '~'));
    }
}

#[test]
fn random_tokens_differ() {
    let a = generate_session_token();
    let b = generate_session_token();
    assert_ne!(a, b);
    assert_eq!(a.len(), 32);
}

#[test]
fn login_response_new_keeps_its_arguments() {
    let response = LoginResponse::new(3, [4u8; 32], vec![Some(1), None]);
    assert_eq!(response.user_id, 3);
    assert_eq!(response.session_token, [4u8; 32]);
    assert_eq!(response.chatrooms_joined, vec![Some(1), None]);
}
