//! Registration, login, sessions and chatrooms, against the store in memory.
//!
//! Each operation has a spec function that says, for a store and the
//! operation's arguments, what the store holds afterwards and what the
//! caller gets. The function that runs the operation is proved to do that.
//!
//! Nothing here is atomic: a registration that fails at its second write
//! leaves the account behind, and the creation of a chatroom that fails
//! after its first write leaves the chatroom behind.

use vstd::prelude::*;
use crate::error::ApiError;
use crate::models::{text_view, NewChatroomView, NewUserAccountView, NewUserSessionView};
use crate::operation::{
    outcome, ApiResponse, ApiResponseView, Operation, OperationView, ProgressView,
};
use crate::query::{first_of, lemma_count_rewritten};
use crate::random::{generate_chatroom_id, generate_session_token, is_chatroom_id};
use crate::store::{
    account_is, chatroom_is, chatroom_named, holds_token, joining, named, owned_by, rotating,
    with_credentials, StoreRequestView, StoreView,
};
use crate::{
    CreateChatroomRequest, FetchChatroomResponse, FetchChatroomResponseView,
    FetchKnownChatroomResponse, FetchKnownChatrooms, FetchUnknownChatroom, LoginRequest,
    LoginResponse, LoginResponseView, LogoutReponse, RegisterRequest, ServerState,
    UserInformation, UserInformationView, UserSession,
};

verus! {

/// The value of the end of a registration or a login.
pub open spec fn login_view(result: Result<LoginResponse, ApiError>) -> Result<
    LoginResponseView,
    ApiError,
> {
    match result {
        Ok(response) => Ok(response@),
        Err(error) => Err(error),
    }
}

/// The value of the end of a session check.
pub open spec fn user_view(result: Result<UserInformation, ApiError>) -> Result<
    UserInformationView,
    ApiError,
> {
    match result {
        Ok(response) => Ok(response@),
        Err(error) => Err(error),
    }
}

/// The value of the end of a fetch or a creation of one chatroom.
pub open spec fn chatroom_view(result: Result<FetchChatroomResponse, ApiError>) -> Result<
    FetchChatroomResponseView,
    ApiError,
> {
    match result {
        Ok(response) => Ok(response@),
        Err(error) => Err(error),
    }
}

/// The value of the end of a bulk fetch.
pub open spec fn chatrooms_view(result: Result<FetchKnownChatroomResponse, ApiError>) -> Result<
    Seq<FetchChatroomResponseView>,
    ApiError,
> {
    match result {
        Ok(response) => Ok(response@),
        Err(error) => Err(error),
    }
}

/// Registration. A taken username is a conflict and changes nothing.
/// Otherwise the account is inserted with no chatrooms, and then a session
/// with the token; each insert fails where the store has run out of ids.
pub open spec fn register_outcome(
    store: StoreView,
    username: Seq<char>,
    password: Seq<char>,
    email: Seq<char>,
    session_token: Seq<u8>,
) -> (StoreView, Result<LoginResponseView, ApiError>) {
    let account = NewUserAccountView {
        username,
        passw: password,
        chatrooms_joined: Seq::empty(),
        email,
    };
    if store.users.filter(named(username)).len() != 0 {
        (store, Err(ApiError::Conflict))
    } else if store.last_user_id >= i32::MAX {
        (store, Err(ApiError::InternalWriteFailure))
    } else {
        let user_id = (store.last_user_id + 1) as i32;
        let with_account = store.insert_account(account).0;
        if store.last_token_id >= i32::MAX {
            (with_account, Err(ApiError::InternalWriteFailure))
        } else {
            (
                with_account.insert_session(NewUserSessionView { user_id, session_token }).0,
                Ok(LoginResponseView { user_id, session_token, chatrooms_joined: Seq::empty() }),
            )
        }
    }
}

/// Login. Credentials that match no account change nothing. Otherwise every
/// session that the account holds gets the token, and where it holds none,
/// one is inserted.
pub open spec fn login_outcome(
    store: StoreView,
    username: Seq<char>,
    password: Seq<char>,
    session_token: Seq<u8>,
) -> (StoreView, Result<LoginResponseView, ApiError>) {
    match first_of(store.users.filter(with_credentials(username, password))) {
        None => (store, Err(ApiError::NotFound)),
        Some(account) => {
            let session = NewUserSessionView { user_id: account.id, session_token };
            let login = LoginResponseView {
                user_id: account.id,
                session_token,
                chatrooms_joined: account.chatrooms_joined,
            };
            if store.user_signin_tokens.filter(owned_by(account.id)).len() != 0 {
                (store.update_session(session).0, Ok(login))
            } else if store.last_token_id >= i32::MAX {
                (store, Err(ApiError::InternalWriteFailure))
            } else {
                (store.insert_session(session).0, Ok(login))
            }
        },
    }
}

/// Whether the account holds the token: exactly one session matches both.
pub open spec fn session_is_valid(store: StoreView, user_id: i32, session_token: Seq<u8>) -> bool {
    store.user_signin_tokens.filter(holds_token(user_id, session_token)).len() == 1
}

/// The check of a session. It changes nothing.
pub open spec fn session_outcome(store: StoreView, user_id: i32, session_token: Seq<u8>) -> Result<
    UserInformationView,
    ApiError,
> {
    if !session_is_valid(store, user_id, session_token) {
        Err(ApiError::InvalidSession)
    } else {
        match first_of(store.users.filter(account_is(user_id))) {
            Some(account) => Ok(
                UserInformationView {
                    username: account.username,
                    chatrooms_joined: account.chatrooms_joined,
                },
            ),
            None => Err(ApiError::StorageUnavailable),
        }
    }
}

/// Logout: every session with the token is gone.
pub open spec fn logout_outcome(store: StoreView, session_token: Seq<u8>) -> StoreView {
    store.delete_sessions(session_token).0
}

/// The fetch of a chatroom by its public id: the first chatroom with that id
/// and, where a password is given, with that password. It changes nothing.
pub open spec fn unknown_outcome(
    store: StoreView,
    chatroom_id: Seq<char>,
    password: Option<Seq<char>>,
) -> Result<FetchChatroomResponseView, ApiError> {
    match first_of(store.chatrooms.filter(chatroom_named(chatroom_id, password))) {
        Some(row) => Ok(FetchChatroomResponse::of(row)),
        None => Err(ApiError::NotFound),
    }
}

/// Whether the chatroom exists and the account is among its participants.
pub open spec fn may_see(store: StoreView, user_id: i32, chatroom_uid: i32) -> bool {
    match first_of(store.chatrooms.filter(chatroom_is(chatroom_uid))) {
        Some(row) => row.participants.contains(Some(user_id)),
        None => false,
    }
}

/// What is disclosed of the chatroom with an internal id.
pub open spec fn disclosure(store: StoreView, chatroom_uid: i32) -> FetchChatroomResponseView {
    FetchChatroomResponse::of(store.chatrooms.filter(chatroom_is(chatroom_uid))[0])
}

/// What is disclosed of the chatrooms with a list of internal ids.
pub open spec fn disclosures(store: StoreView, chatroom_uids: Seq<i32>) -> Seq<
    FetchChatroomResponseView,
> {
    Seq::new(chatroom_uids.len(), |k: int| disclosure(store, chatroom_uids[k]))
}

/// The bulk fetch: all of the chatrooms, in the order asked for, where the
/// session is valid and the account takes part in every one; nothing
/// otherwise. It changes nothing.
pub open spec fn known_outcome(
    store: StoreView,
    user_id: i32,
    session_token: Seq<u8>,
    chatroom_uids: Seq<i32>,
) -> Result<Seq<FetchChatroomResponseView>, ApiError> {
    if session_is_valid(store, user_id, session_token) && forall|k: int|
        0 <= k < chatroom_uids.len() ==> may_see(store, user_id, #[trigger] chatroom_uids[k]) {
        Ok(disclosures(store, chatroom_uids))
    } else {
        Err(ApiError::Forbidden)
    }
}

/// The creation of a chatroom. The chatroom is inserted with the creator as
/// its one participant, which fails where the store has run out of ids. Then
/// its internal id is appended to the creator's list; where no account has
/// the creator's id, the chatroom stays and the operation fails.
pub open spec fn create_outcome(
    store: StoreView,
    user_id: i32,
    chatroom_name: Seq<char>,
    chatroom_passw: Option<Seq<char>>,
    chatroom_id: Seq<char>,
) -> (StoreView, Result<FetchChatroomResponseView, ApiError>) {
    let chatroom = NewChatroomView {
        chatroom_id,
        chatroom_name,
        chatroom_password: chatroom_passw,
        participants: seq![user_id],
        is_direct_message: false,
        last_message_id: None,
    };
    if store.last_chatroom_id >= i32::MAX {
        (store, Err(ApiError::InternalWriteFailure))
    } else {
        let with_chatroom = store.insert_chatroom(chatroom).0;
        let response = FetchChatroomResponseView {
            chatroom_uid: (store.last_chatroom_id + 1) as i32,
            chatroom_id,
            chatroom_name,
            participants: seq![Some(user_id)],
            is_direct_message: false,
            last_message_id: None,
        };
        match first_of(store.users.filter(account_is(user_id))) {
            None => (with_chatroom, Err(ApiError::StorageUnavailable)),
            Some(account) => (
                with_chatroom.update_membership(
                    user_id,
                    account.chatrooms_joined.push(Some(response.chatroom_uid)),
                ).0,
                Ok(response),
            ),
        }
    }
}

/// A count of rows of a well-formed store fits the reply that carries it.
proof fn lemma_counts_fit(store: StoreView)
    requires
        store.wf(),
    ensures
        forall|pred: spec_fn(crate::models::UserAccountView) -> bool|
            (#[trigger] store.users.filter(pred)).len() <= i32::MAX,
        forall|pred: spec_fn(crate::models::UserSessionView) -> bool|
            (#[trigger] store.user_signin_tokens.filter(pred)).len() <= i32::MAX,
{
    assert forall|pred: spec_fn(crate::models::UserAccountView) -> bool|
        (#[trigger] store.users.filter(pred)).len() <= i32::MAX by {
        store.users.lemma_filter_len(pred);
    }
    assert forall|pred: spec_fn(crate::models::UserSessionView) -> bool|
        (#[trigger] store.user_signin_tokens.filter(pred)).len() <= i32::MAX by {
        store.user_signin_tokens.lemma_filter_len(pred);
    }
}

/// A registration that is run against a store ends as [`register_outcome`]
/// says.
pub proof fn lemma_register_runs(
    store: StoreView,
    username: Seq<char>,
    password: Seq<char>,
    email: Seq<char>,
    session_token: Seq<u8>,
)
    requires
        store.wf(),
    ensures
        outcome(store, OperationView::register(username, password, email, session_token)) == (
            register_outcome(store, username, password, email, session_token).0,
            match register_outcome(store, username, password, email, session_token).1 {
                Ok(login) => Ok(ApiResponseView::Login(login)),
                Err(error) => Err(error),
            },
        ),
{
    reveal_with_fuel(outcome, 4);
    lemma_counts_fit(store);
}

/// A login that is run against a store ends as [`login_outcome`] says.
pub proof fn lemma_login_runs(
    store: StoreView,
    username: Seq<char>,
    password: Seq<char>,
    session_token: Seq<u8>,
)
    requires
        store.wf(),
    ensures
        outcome(store, OperationView::login(username, password, session_token)) == (
            login_outcome(store, username, password, session_token).0,
            match login_outcome(store, username, password, session_token).1 {
                Ok(login) => Ok(ApiResponseView::Login(login)),
                Err(error) => Err(error),
            },
        ),
{
    reveal_with_fuel(outcome, 4);
    lemma_counts_fit(store);
    match first_of(store.users.filter(with_credentials(username, password))) {
        None => {},
        Some(account) => {
            let rows = store.user_signin_tokens;
            lemma_count_rewritten(
                rows,
                rotating(account.id, session_token),
                owned_by(account.id),
                owned_by(account.id),
            );
        },
    }
}

/// A session check that is run against a store ends as [`session_outcome`]
/// says.
pub proof fn lemma_session_runs(store: StoreView, user_id: i32, session_token: Seq<u8>)
    requires
        store.wf(),
    ensures
        outcome(store, OperationView::continue_session(user_id, session_token)) == (
            store,
            match session_outcome(store, user_id, session_token) {
                Ok(user) => Ok(ApiResponseView::User(user)),
                Err(error) => Err(error),
            },
        ),
{
    reveal_with_fuel(outcome, 3);
    lemma_counts_fit(store);
}

/// A logout that is run against a store ends as [`logout_outcome`] says, and
/// succeeds.
pub proof fn lemma_logout_runs(store: StoreView, session_token: Seq<u8>)
    requires
        store.wf(),
    ensures
        outcome(store, OperationView::logout(session_token)) == (
            logout_outcome(store, session_token),
            Ok::<ApiResponseView, ApiError>(ApiResponseView::Logout),
        ),
{
    reveal_with_fuel(outcome, 2);
}

/// A fetch by public id that is run against a store ends as
/// [`unknown_outcome`] says.
pub proof fn lemma_unknown_runs(
    store: StoreView,
    chatroom_id: Seq<char>,
    password: Option<Seq<char>>,
)
    requires
        store.wf(),
    ensures
        outcome(store, OperationView::fetch_unknown(chatroom_id, password)) == (
            store,
            match unknown_outcome(store, chatroom_id, password) {
                Ok(chatroom) => Ok(ApiResponseView::Chatroom(chatroom)),
                Err(error) => Err(error),
            },
        ),
{
    reveal_with_fuel(outcome, 2);
}

/// A bulk fetch that has loaded the first chatrooms ends with all of them
/// where the caller may see each of the others too, and with nothing
/// otherwise.
proof fn lemma_known_loads(
    store: StoreView,
    user_id: i32,
    chatroom_uids: Seq<i32>,
    found: Seq<FetchChatroomResponseView>,
)
    requires
        store.wf(),
        found.len() < chatroom_uids.len(),
        found == disclosures(store, chatroom_uids.take(found.len() as int)),
    ensures
        outcome(
            store,
            ProgressView::Ask(
                OperationView::KnownLoad { user_id, chatroom_uids, found },
                StoreRequestView::FindChatroomById { id: chatroom_uids[found.len() as int] },
            ),
        ) == (
            store,
            if forall|k: int|
                found.len() <= k < chatroom_uids.len() ==> may_see(
                    store,
                    user_id,
                    #[trigger] chatroom_uids[k],
                ) {
                Ok::<ApiResponseView, ApiError>(
                    ApiResponseView::Chatrooms(disclosures(store, chatroom_uids)),
                )
            } else {
                Err::<ApiResponseView, ApiError>(ApiError::Forbidden)
            },
        ),
    decreases chatroom_uids.len() - found.len(),
{
    reveal_with_fuel(outcome, 2);
    let at = found.len() as int;
    let uid = chatroom_uids[at];
    if may_see(store, user_id, uid) {
        let more = found.push(disclosure(store, uid));
        assert(more =~= disclosures(store, chatroom_uids.take(at + 1))) by {
            assert(chatroom_uids.take(at + 1)[at] == uid);
            assert forall|k: int| 0 <= k < at implies chatroom_uids.take(at + 1)[k]
                == chatroom_uids.take(at)[k] by {}
        }
        if more.len() < chatroom_uids.len() {
            lemma_known_loads(store, user_id, chatroom_uids, more);
            if forall|k: int|
                at <= k < chatroom_uids.len() ==> may_see(store, user_id, #[trigger] chatroom_uids[k]) {
                assert forall|k: int| at + 1 <= k < chatroom_uids.len() implies may_see(
                    store,
                    user_id,
                    #[trigger] chatroom_uids[k],
                ) by {}
            } else {
                let bad = choose|k: int|
                    at <= k < chatroom_uids.len() && !may_see(
                        store,
                        user_id,
                        #[trigger] chatroom_uids[k],
                    );
                assert(bad != at);
                assert(at + 1 <= bad < chatroom_uids.len());
            }
        } else {
            assert(chatroom_uids.take(at + 1) =~= chatroom_uids);
            assert forall|k: int| at <= k < chatroom_uids.len() implies may_see(
                store,
                user_id,
                #[trigger] chatroom_uids[k],
            ) by {
                assert(k == at);
            }
        }
    } else {
        assert(!may_see(store, user_id, chatroom_uids[at]));
    }
}

/// A bulk fetch that is run against a store ends as [`known_outcome`] says.
pub proof fn lemma_known_runs(
    store: StoreView,
    user_id: i32,
    session_token: Seq<u8>,
    chatroom_uids: Seq<i32>,
)
    requires
        store.wf(),
    ensures
        outcome(store, OperationView::fetch_known(user_id, session_token, chatroom_uids)) == (
            store,
            match known_outcome(store, user_id, session_token, chatroom_uids) {
                Ok(chatrooms) => Ok(ApiResponseView::Chatrooms(chatrooms)),
                Err(error) => Err(error),
            },
        ),
{
    reveal_with_fuel(outcome, 2);
    lemma_counts_fit(store);
    if session_is_valid(store, user_id, session_token) {
        if chatroom_uids.len() == 0 {
            assert(disclosures(store, chatroom_uids) =~= Seq::empty());
        } else {
            let found = Seq::<FetchChatroomResponseView>::empty();
            assert(found =~= disclosures(store, chatroom_uids.take(0)));
            lemma_known_loads(store, user_id, chatroom_uids, found);
        }
    }
}

/// A creation that is run against a store ends as [`create_outcome`] says.
pub proof fn lemma_create_runs(
    store: StoreView,
    user_id: i32,
    chatroom_name: Seq<char>,
    chatroom_passw: Option<Seq<char>>,
    chatroom_id: Seq<char>,
)
    requires
        store.wf(),
    ensures
        outcome(
            store,
            OperationView::create_chatroom(user_id, chatroom_name, chatroom_passw, chatroom_id),
        ) == (
            create_outcome(store, user_id, chatroom_name, chatroom_passw, chatroom_id).0,
            match create_outcome(store, user_id, chatroom_name, chatroom_passw, chatroom_id).1 {
                Ok(chatroom) => Ok(ApiResponseView::Chatroom(chatroom)),
                Err(error) => Err(error),
            },
        ),
{
    reveal_with_fuel(outcome, 4);
    assert(crate::models::present(seq![user_id]) =~= seq![Some(user_id)]);
    match first_of(store.users.filter(account_is(user_id))) {
        None => {},
        Some(account) => {
            let joined = account.chatrooms_joined.push(Some((store.last_chatroom_id + 1) as i32));
            lemma_count_rewritten(
                store.users,
                joining(user_id, joined),
                account_is(user_id),
                account_is(user_id),
            );
        },
    }
}

/// Registers an account and opens its first session, with a given token.
pub fn register_with_token(
    state: &mut ServerState,
    information: RegisterRequest,
    session_token: [u8; 32],
) -> (result: Result<LoginResponse, ApiError>)
    requires
        old(state).store@.wf(),
    ensures
        final(state).store@.wf(),
        (final(state).store@, login_view(result)) == register_outcome(
            old(state).store@,
            information.username@,
            information.password@,
            information.email@,
            session_token@,
        ),
{
    proof {
        lemma_register_runs(
            state.store@,
            information.username@,
            information.password@,
            information.email@,
            session_token@,
        );
    }
    match state.store.run(Operation::register(information, session_token)) {
        Ok(ApiResponse::Login(login)) => Ok(login),
        Ok(_) => vstd::pervasive::unreached(),
        Err(error) => Err(error),
    }
}

/// Registers an account and opens its first session, with a fresh token.
pub fn register_user(state: &mut ServerState, information: RegisterRequest) -> (result: Result<
    LoginResponse,
    ApiError,
>)
    requires
        old(state).store@.wf(),
    ensures
        final(state).store@.wf(),
        exists|session_token: Seq<u8>|
            session_token.len() == 32 && (final(state).store@, login_view(result))
                == #[trigger] register_outcome(
                old(state).store@,
                information.username@,
                information.password@,
                information.email@,
                session_token,
            ),
{
    let session_token = generate_session_token();
    register_with_token(state, information, session_token)
}

/// Logs an account in, with a given token. Whatever token the account held
/// before is no longer valid.
pub fn login_with_token(
    state: &mut ServerState,
    information: LoginRequest,
    session_token: [u8; 32],
) -> (result: Result<LoginResponse, ApiError>)
    requires
        old(state).store@.wf(),
    ensures
        final(state).store@.wf(),
        (final(state).store@, login_view(result)) == login_outcome(
            old(state).store@,
            information.username@,
            information.password@,
            session_token@,
        ),
{
    proof {
        lemma_login_runs(
            state.store@,
            information.username@,
            information.password@,
            session_token@,
        );
    }
    match state.store.run(Operation::login(information, session_token)) {
        Ok(ApiResponse::Login(login)) => Ok(login),
        Ok(_) => vstd::pervasive::unreached(),
        Err(error) => Err(error),
    }
}

/// Logs an account in, with a fresh token.
pub fn fetch_login(state: &mut ServerState, information: LoginRequest) -> (result: Result<
    LoginResponse,
    ApiError,
>)
    requires
        old(state).store@.wf(),
    ensures
        final(state).store@.wf(),
        exists|session_token: Seq<u8>|
            session_token.len() == 32 && (final(state).store@, login_view(result))
                == #[trigger] login_outcome(
                old(state).store@,
                information.username@,
                information.password@,
                session_token,
            ),
{
    let session_token = generate_session_token();
    login_with_token(state, information, session_token)
}

/// Checks a session, and hands back what a client may show of the account.
pub fn fetch_session_token(state: &mut ServerState, session_cookie: UserSession) -> (result:
    Result<UserInformation, ApiError>)
    requires
        old(state).store@.wf(),
    ensures
        final(state).store@ == old(state).store@,
        user_view(result) == session_outcome(
            old(state).store@,
            session_cookie.user_id,
            session_cookie.session_token@,
        ),
{
    proof {
        lemma_session_runs(state.store@, session_cookie.user_id, session_cookie.session_token@);
    }
    match state.store.run(Operation::continue_session(session_cookie)) {
        Ok(ApiResponse::User(user)) => Ok(user),
        Ok(_) => vstd::pervasive::unreached(),
        Err(error) => Err(error),
    }
}

/// Ends the session with a token. It succeeds whether or not there was one.
pub fn handle_logout_request(state: &mut ServerState, session_cookie: UserSession) -> (result:
    Result<LogoutReponse, ApiError>)
    requires
        old(state).store@.wf(),
    ensures
        final(state).store@.wf(),
        final(state).store@ == logout_outcome(old(state).store@, session_cookie.session_token@),
        result is Ok,
{
    proof {
        lemma_logout_runs(state.store@, session_cookie.session_token@);
    }
    match state.store.run(Operation::logout(session_cookie)) {
        Ok(ApiResponse::Logout(done)) => Ok(done),
        Ok(_) => vstd::pervasive::unreached(),
        Err(_) => vstd::pervasive::unreached(),
    }
}

/// Fetches a chatroom by its public id. A wrong password and an unknown id
/// look the same to the caller.
pub fn fetch_unknown_chatroom(state: &mut ServerState, chatroom_request: FetchUnknownChatroom)
    -> (result: Result<FetchChatroomResponse, ApiError>)
    requires
        old(state).store@.wf(),
    ensures
        final(state).store@ == old(state).store@,
        chatroom_view(result) == unknown_outcome(
            old(state).store@,
            chatroom_request.chatroom_id@,
            text_view(chatroom_request.password),
        ),
{
    proof {
        lemma_unknown_runs(
            state.store@,
            chatroom_request.chatroom_id@,
            text_view(chatroom_request.password),
        );
    }
    match state.store.run(Operation::fetch_unknown(chatroom_request)) {
        Ok(ApiResponse::Chatroom(chatroom)) => Ok(chatroom),
        Ok(_) => vstd::pervasive::unreached(),
        Err(error) => Err(error),
    }
}

/// Fetches the chatrooms with the given internal ids: all of them, or none.
pub fn fetch_known_chatrooms(state: &mut ServerState, bulk_chatrooms_request: FetchKnownChatrooms)
    -> (result: Result<FetchKnownChatroomResponse, ApiError>)
    requires
        old(state).store@.wf(),
    ensures
        final(state).store@ == old(state).store@,
        chatrooms_view(result) == known_outcome(
            old(state).store@,
            bulk_chatrooms_request.user_session.user_id,
            bulk_chatrooms_request.user_session.session_token@,
            bulk_chatrooms_request.chatroom_uids@,
        ),
{
    proof {
        lemma_known_runs(
            state.store@,
            bulk_chatrooms_request.user_session.user_id,
            bulk_chatrooms_request.user_session.session_token@,
            bulk_chatrooms_request.chatroom_uids@,
        );
    }
    match state.store.run(Operation::fetch_known(bulk_chatrooms_request)) {
        Ok(ApiResponse::Chatrooms(chatrooms)) => Ok(chatrooms),
        Ok(_) => vstd::pervasive::unreached(),
        Err(error) => Err(error),
    }
}

/// Creates a chatroom with a given public id.
pub fn create_chatroom_with_id(
    state: &mut ServerState,
    chatroom_request: CreateChatroomRequest,
    chatroom_id: String,
) -> (result: Result<FetchChatroomResponse, ApiError>)
    requires
        old(state).store@.wf(),
    ensures
        final(state).store@.wf(),
        (final(state).store@, chatroom_view(result)) == create_outcome(
            old(state).store@,
            chatroom_request.user_session.user_id,
            chatroom_request.chatroom_name@,
            text_view(chatroom_request.chatroom_passw),
            chatroom_id@,
        ),
{
    proof {
        lemma_create_runs(
            state.store@,
            chatroom_request.user_session.user_id,
            chatroom_request.chatroom_name@,
            text_view(chatroom_request.chatroom_passw),
            chatroom_id@,
        );
    }
    match state.store.run(Operation::create_chatroom(chatroom_request, chatroom_id)) {
        Ok(ApiResponse::Chatroom(chatroom)) => Ok(chatroom),
        Ok(_) => vstd::pervasive::unreached(),
        Err(error) => Err(error),
    }
}

/// Creates a chatroom with a fresh public id.
pub fn create_chatroom(state: &mut ServerState, chatroom_request: CreateChatroomRequest) -> (result:
    Result<FetchChatroomResponse, ApiError>)
    requires
        old(state).store@.wf(),
    ensures
        final(state).store@.wf(),
        exists|chatroom_id: Seq<char>|
            is_chatroom_id(chatroom_id) && (final(state).store@, chatroom_view(result))
                == #[trigger] create_outcome(
                old(state).store@,
                chatroom_request.user_session.user_id,
                chatroom_request.chatroom_name@,
                text_view(chatroom_request.chatroom_passw),
                chatroom_id,
            ),
{
    let chatroom_id = generate_chatroom_id();
    create_chatroom_with_id(state, chatroom_request, chatroom_id)
}

} // verus!
