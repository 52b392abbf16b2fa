//! The operations as state machines.
//!
//! An operation never touches a store itself. It starts by asking one thing
//! of the store; handed the reply, it either asks the next thing or is done.
//! Whoever owns the store runs the loop: [`Store::run`](crate::memory::Store::run)
//! does so for the store in memory, and [`outcome`] says what such a run
//! yields against any store that answers as [`StoreView::perform`] says.

use vstd::prelude::*;
use crate::error::ApiError;
use crate::models::{
    token_bytes, NewChatroom, NewChatroomView, NewUserAccount, NewUserAccountView,
    NewUserSession, NewUserSessionView,
};
use crate::store::{StoreReply, StoreReplyView, StoreRequest, StoreRequestView, StoreView};
use crate::{
    disclosed, CreateChatroomRequest, FetchChatroomResponse, FetchChatroomResponseView,
    FetchKnownChatroomResponse, FetchKnownChatrooms, FetchUnknownChatroom, LoginRequest,
    LoginResponse, LoginResponseView, LogoutReponse, RegisterRequest, UserInformation,
    UserInformationView, UserSession,
};

verus! {

/// What an operation that succeeded hands back.
#[derive(Debug)]
pub enum ApiResponse {
    Login(LoginResponse),
    User(UserInformation),
    Logout(LogoutReponse),
    Chatroom(FetchChatroomResponse),
    Chatrooms(FetchKnownChatroomResponse),
}

/// The mathematical value of an [`ApiResponse`].
pub enum ApiResponseView {
    Login(LoginResponseView),
    User(UserInformationView),
    Logout,
    Chatroom(FetchChatroomResponseView),
    Chatrooms(Seq<FetchChatroomResponseView>),
}

impl View for ApiResponse {
    type V = ApiResponseView;

    open spec fn view(&self) -> ApiResponseView {
        match *self {
            ApiResponse::Login(response) => ApiResponseView::Login(response@),
            ApiResponse::User(response) => ApiResponseView::User(response@),
            ApiResponse::Logout(_) => ApiResponseView::Logout,
            ApiResponse::Chatroom(response) => ApiResponseView::Chatroom(response@),
            ApiResponse::Chatrooms(response) => ApiResponseView::Chatrooms(response@),
        }
    }
}

/// The value of the end of an operation.
pub open spec fn result_view(result: Result<ApiResponse, ApiError>) -> Result<
    ApiResponseView,
    ApiError,
> {
    match result {
        Ok(response) => Ok(response@),
        Err(error) => Err(error),
    }
}

/// An operation that waits for a reply: each variant is named for the
/// operation and for what it has asked.
#[derive(Debug)]
pub enum Operation {
    /// Registration has asked how many accounts bear the username.
    RegisterCheck { account: NewUserAccount, session_token: [u8; 32] },
    /// Registration has asked to insert the account.
    RegisterInsert { session_token: [u8; 32] },
    /// Registration has asked to insert the session.
    RegisterSession { login: LoginResponse },
    /// Login has asked for the account with the credentials.
    LoginLookup { session_token: [u8; 32] },
    /// Login has asked how many sessions the account holds.
    LoginCount { login: LoginResponse },
    /// Login has asked to write the session.
    LoginWrite { login: LoginResponse },
    /// Continuing a session has asked how many sessions match.
    SessionCount { user_id: i32 },
    /// Continuing a session has asked for the account.
    SessionAccount,
    /// Logout has asked to delete the sessions with the token.
    LogoutDelete,
    /// A fetch by public id has asked for the chatroom.
    UnknownLookup,
    /// A bulk fetch has asked how many sessions match.
    KnownValidate { user_id: i32, chatroom_uids: Vec<i32> },
    /// A bulk fetch has asked for the chatroom after those in `found`.
    KnownLoad { user_id: i32, chatroom_uids: Vec<i32>, found: Vec<FetchChatroomResponse> },
    /// Creation has asked to insert the chatroom.
    CreateInsert { user_id: i32 },
    /// Creation has asked for the creator's account.
    CreateAccount { user_id: i32, chatroom: FetchChatroomResponse },
    /// Creation has asked to record the chatroom with the creator.
    CreateUpdate { chatroom: FetchChatroomResponse },
}

/// The mathematical value of an [`Operation`].
pub enum OperationView {
    RegisterCheck { account: NewUserAccountView, session_token: Seq<u8> },
    RegisterInsert { session_token: Seq<u8> },
    RegisterSession { login: LoginResponseView },
    LoginLookup { session_token: Seq<u8> },
    LoginCount { login: LoginResponseView },
    LoginWrite { login: LoginResponseView },
    SessionCount { user_id: i32 },
    SessionAccount,
    LogoutDelete,
    UnknownLookup,
    KnownValidate { user_id: i32, chatroom_uids: Seq<i32> },
    KnownLoad { user_id: i32, chatroom_uids: Seq<i32>, found: Seq<FetchChatroomResponseView> },
    CreateInsert { user_id: i32 },
    CreateAccount { user_id: i32, chatroom: FetchChatroomResponseView },
    CreateUpdate { chatroom: FetchChatroomResponseView },
}

impl View for Operation {
    type V = OperationView;

    open spec fn view(&self) -> OperationView {
        match *self {
            Operation::RegisterCheck { account, session_token } => OperationView::RegisterCheck {
                account: account@,
                session_token: session_token@,
            },
            Operation::RegisterInsert { session_token } => OperationView::RegisterInsert {
                session_token: session_token@,
            },
            Operation::RegisterSession { login } => OperationView::RegisterSession {
                login: login@,
            },
            Operation::LoginLookup { session_token } => OperationView::LoginLookup {
                session_token: session_token@,
            },
            Operation::LoginCount { login } => OperationView::LoginCount { login: login@ },
            Operation::LoginWrite { login } => OperationView::LoginWrite { login: login@ },
            Operation::SessionCount { user_id } => OperationView::SessionCount { user_id },
            Operation::SessionAccount => OperationView::SessionAccount,
            Operation::LogoutDelete => OperationView::LogoutDelete,
            Operation::UnknownLookup => OperationView::UnknownLookup,
            Operation::KnownValidate { user_id, chatroom_uids } => OperationView::KnownValidate {
                user_id,
                chatroom_uids: chatroom_uids@,
            },
            Operation::KnownLoad { user_id, chatroom_uids, found } => OperationView::KnownLoad {
                user_id,
                chatroom_uids: chatroom_uids@,
                found: disclosed(found@),
            },
            Operation::CreateInsert { user_id } => OperationView::CreateInsert { user_id },
            Operation::CreateAccount { user_id, chatroom } => OperationView::CreateAccount {
                user_id,
                chatroom: chatroom@,
            },
            Operation::CreateUpdate { chatroom } => OperationView::CreateUpdate {
                chatroom: chatroom@,
            },
        }
    }
}

/// Where an operation stands: it asks something of the store, or it is done.
#[derive(Debug)]
pub enum Progress {
    Ask(Operation, StoreRequest),
    Done(Result<ApiResponse, ApiError>),
}

/// The mathematical value of a [`Progress`].
pub enum ProgressView {
    Ask(OperationView, StoreRequestView),
    Done(Result<ApiResponseView, ApiError>),
}

impl View for Progress {
    type V = ProgressView;

    open spec fn view(&self) -> ProgressView {
        match *self {
            Progress::Ask(operation, request) => ProgressView::Ask(operation@, request@),
            Progress::Done(result) => ProgressView::Done(result_view(result)),
        }
    }
}

impl ProgressView {
    /// The end of an operation whose read was not answered with what it
    /// asked for.
    pub open spec fn read_failure() -> ProgressView {
        ProgressView::Done(Err(ApiError::StorageUnavailable))
    }

    /// The end of an operation whose write was not answered with the row
    /// written.
    pub open spec fn write_failure(reply: StoreReplyView) -> ProgressView {
        if reply is Unavailable {
            ProgressView::Done(Err(ApiError::StorageUnavailable))
        } else {
            ProgressView::Done(Err(ApiError::InternalWriteFailure))
        }
    }

    /// How many requests are still to be made, at most.
    pub open spec fn remaining(self) -> nat {
        match self {
            ProgressView::Ask(operation, _) => operation.remaining(),
            ProgressView::Done(_) => 0,
        }
    }
}

impl OperationView {
    /// The session to store for a login.
    pub open spec fn session_of(login: LoginResponseView) -> NewUserSessionView {
        NewUserSessionView { user_id: login.user_id, session_token: login.session_token }
    }

    /// Registration starts by asking whether the username is taken.
    pub open spec fn register(
        username: Seq<char>,
        password: Seq<char>,
        email: Seq<char>,
        session_token: Seq<u8>,
    ) -> ProgressView {
        ProgressView::Ask(
            OperationView::RegisterCheck {
                account: NewUserAccountView {
                    username,
                    passw: password,
                    chatrooms_joined: Seq::empty(),
                    email,
                },
                session_token,
            },
            StoreRequestView::CountAccountsByUsername { username },
        )
    }

    /// Login starts by asking for the account with the credentials.
    pub open spec fn login(username: Seq<char>, password: Seq<char>, session_token: Seq<u8>)
        -> ProgressView {
        ProgressView::Ask(
            OperationView::LoginLookup { session_token },
            StoreRequestView::FindAccountByCredentials { username, password },
        )
    }

    /// Continuing a session starts by asking how many sessions match.
    pub open spec fn continue_session(user_id: i32, session_token: Seq<u8>) -> ProgressView {
        ProgressView::Ask(
            OperationView::SessionCount { user_id },
            StoreRequestView::CountSessions { user_id, session_token },
        )
    }

    /// Logout asks to delete the sessions with the token.
    pub open spec fn logout(session_token: Seq<u8>) -> ProgressView {
        ProgressView::Ask(
            OperationView::LogoutDelete,
            StoreRequestView::DeleteSessionByToken { session_token },
        )
    }

    /// A fetch by public id asks for the chatroom.
    pub open spec fn fetch_unknown(chatroom_id: Seq<char>, password: Option<Seq<char>>)
        -> ProgressView {
        ProgressView::Ask(
            OperationView::UnknownLookup,
            StoreRequestView::FindChatroomByHumanId { chatroom_id, chatroom_password: password },
        )
    }

    /// A bulk fetch starts by asking how many sessions match.
    pub open spec fn fetch_known(user_id: i32, session_token: Seq<u8>, chatroom_uids: Seq<i32>)
        -> ProgressView {
        ProgressView::Ask(
            OperationView::KnownValidate { user_id, chatroom_uids },
            StoreRequestView::CountSessions { user_id, session_token },
        )
    }

    /// Creation starts by asking to insert the chatroom, with the creator as
    /// its one participant.
    pub open spec fn create_chatroom(
        user_id: i32,
        chatroom_name: Seq<char>,
        chatroom_passw: Option<Seq<char>>,
        chatroom_id: Seq<char>,
    ) -> ProgressView {
        ProgressView::Ask(
            OperationView::CreateInsert { user_id },
            StoreRequestView::InsertChatroom {
                chatroom: NewChatroomView {
                    chatroom_id,
                    chatroom_name,
                    chatroom_password: chatroom_passw,
                    participants: seq![user_id],
                    is_direct_message: false,
                    last_message_id: None,
                },
            },
        )
    }

    /// How many requests are still to be made, at most, the one that waits
    /// for its reply included.
    pub open spec fn remaining(self) -> nat {
        match self {
            OperationView::RegisterCheck { .. } => 3,
            OperationView::RegisterInsert { .. } => 2,
            OperationView::RegisterSession { .. } => 1,
            OperationView::LoginLookup { .. } => 3,
            OperationView::LoginCount { .. } => 2,
            OperationView::LoginWrite { .. } => 1,
            OperationView::SessionCount { .. } => 2,
            OperationView::SessionAccount => 1,
            OperationView::LogoutDelete => 1,
            OperationView::UnknownLookup => 1,
            OperationView::KnownValidate { chatroom_uids, .. } => chatroom_uids.len() + 1,
            OperationView::KnownLoad { chatroom_uids, found, .. } => if found.len()
                < chatroom_uids.len() {
                (chatroom_uids.len() - found.len()) as nat
            } else {
                1
            },
            OperationView::CreateInsert { .. } => 3,
            OperationView::CreateAccount { .. } => 2,
            OperationView::CreateUpdate { .. } => 1,
        }
    }

    /// What registration does with a reply.
    pub open spec fn resume_register(self, reply: StoreReplyView) -> ProgressView {
        match self {
            OperationView::RegisterCheck { account, session_token } => match reply {
                StoreReplyView::Count(n) => if n != 0 {
                    ProgressView::Done(Err(ApiError::Conflict))
                } else {
                    ProgressView::Ask(
                        OperationView::RegisterInsert { session_token },
                        StoreRequestView::InsertAccount { account },
                    )
                },
                _ => ProgressView::read_failure(),
            },
            OperationView::RegisterInsert { session_token } => match reply {
                StoreReplyView::Account(row) => {
                    let login = LoginResponseView {
                        user_id: row.id,
                        session_token,
                        chatrooms_joined: row.chatrooms_joined,
                    };
                    ProgressView::Ask(
                        OperationView::RegisterSession { login },
                        StoreRequestView::InsertSession { session: Self::session_of(login) },
                    )
                },
                _ => ProgressView::write_failure(reply),
            },
            OperationView::RegisterSession { login } => match reply {
                StoreReplyView::Session(_) => ProgressView::Done(Ok(ApiResponseView::Login(login))),
                _ => ProgressView::write_failure(reply),
            },
            _ => ProgressView::read_failure(),
        }
    }

    /// What login does with a reply: a session that exists is overwritten,
    /// and one is inserted where none exists.
    pub open spec fn resume_login(self, reply: StoreReplyView) -> ProgressView {
        match self {
            OperationView::LoginLookup { session_token } => match reply {
                StoreReplyView::Account(row) => ProgressView::Ask(
                    OperationView::LoginCount {
                        login: LoginResponseView {
                            user_id: row.id,
                            session_token,
                            chatrooms_joined: row.chatrooms_joined,
                        },
                    },
                    StoreRequestView::CountSessionsForAccount { user_id: row.id },
                ),
                StoreReplyView::NotFound => ProgressView::Done(Err(ApiError::NotFound)),
                _ => ProgressView::read_failure(),
            },
            OperationView::LoginCount { login } => match reply {
                StoreReplyView::Count(n) => if n != 0 {
                    ProgressView::Ask(
                        OperationView::LoginWrite { login },
                        StoreRequestView::UpdateSession { session: Self::session_of(login) },
                    )
                } else {
                    ProgressView::Ask(
                        OperationView::LoginWrite { login },
                        StoreRequestView::InsertSession { session: Self::session_of(login) },
                    )
                },
                _ => ProgressView::read_failure(),
            },
            OperationView::LoginWrite { login } => match reply {
                StoreReplyView::Session(_) => ProgressView::Done(Ok(ApiResponseView::Login(login))),
                _ => ProgressView::write_failure(reply),
            },
            _ => ProgressView::read_failure(),
        }
    }

    /// What continuing a session and logout do with a reply. A session is
    /// valid where exactly one row matches; logout succeeds however many
    /// rows were deleted.
    pub open spec fn resume_session(self, reply: StoreReplyView) -> ProgressView {
        match self {
            OperationView::SessionCount { user_id } => match reply {
                StoreReplyView::Count(n) => if n == 1 {
                    ProgressView::Ask(
                        OperationView::SessionAccount,
                        StoreRequestView::FindAccountById { id: user_id },
                    )
                } else {
                    ProgressView::Done(Err(ApiError::InvalidSession))
                },
                _ => ProgressView::read_failure(),
            },
            OperationView::SessionAccount => match reply {
                StoreReplyView::Account(row) => ProgressView::Done(
                    Ok(
                        ApiResponseView::User(
                            UserInformationView {
                                username: row.username,
                                chatrooms_joined: row.chatrooms_joined,
                            },
                        ),
                    ),
                ),
                _ => ProgressView::read_failure(),
            },
            OperationView::LogoutDelete => match reply {
                StoreReplyView::Deleted(_) => ProgressView::Done(Ok(ApiResponseView::Logout)),
                _ => ProgressView::write_failure(reply),
            },
            _ => ProgressView::read_failure(),
        }
    }

    /// What the fetches do with a reply. In a bulk fetch one chatroom that
    /// is missing, or that the caller takes no part in, ends the whole fetch.
    pub open spec fn resume_fetch(self, reply: StoreReplyView) -> ProgressView {
        match self {
            OperationView::UnknownLookup => match reply {
                StoreReplyView::Chatroom(row) => ProgressView::Done(
                    Ok(ApiResponseView::Chatroom(FetchChatroomResponse::of(row))),
                ),
                StoreReplyView::NotFound => ProgressView::Done(Err(ApiError::NotFound)),
                _ => ProgressView::read_failure(),
            },
            OperationView::KnownValidate { user_id, chatroom_uids } => match reply {
                StoreReplyView::Count(n) => if n != 1 {
                    ProgressView::Done(Err(ApiError::Forbidden))
                } else if chatroom_uids.len() == 0 {
                    ProgressView::Done(Ok(ApiResponseView::Chatrooms(Seq::empty())))
                } else {
                    ProgressView::Ask(
                        OperationView::KnownLoad { user_id, chatroom_uids, found: Seq::empty() },
                        StoreRequestView::FindChatroomById { id: chatroom_uids[0] },
                    )
                },
                _ => ProgressView::read_failure(),
            },
            OperationView::KnownLoad { user_id, chatroom_uids, found } => match reply {
                StoreReplyView::Chatroom(row) => if !row.participants.contains(Some(user_id)) {
                    ProgressView::Done(Err(ApiError::Forbidden))
                } else {
                    let found = found.push(FetchChatroomResponse::of(row));
                    if found.len() >= chatroom_uids.len() {
                        ProgressView::Done(Ok(ApiResponseView::Chatrooms(found)))
                    } else {
                        ProgressView::Ask(
                            OperationView::KnownLoad { user_id, chatroom_uids, found },
                            StoreRequestView::FindChatroomById {
                                id: chatroom_uids[found.len() as int],
                            },
                        )
                    }
                },
                StoreReplyView::NotFound => ProgressView::Done(Err(ApiError::Forbidden)),
                _ => ProgressView::read_failure(),
            },
            _ => ProgressView::read_failure(),
        }
    }

    /// What creation does with a reply: once the chatroom is stored, its
    /// internal id is appended to the list of its creator.
    pub open spec fn resume_create(self, reply: StoreReplyView) -> ProgressView {
        match self {
            OperationView::CreateInsert { user_id } => match reply {
                StoreReplyView::Chatroom(row) => ProgressView::Ask(
                    OperationView::CreateAccount {
                        user_id,
                        chatroom: FetchChatroomResponse::of(row),
                    },
                    StoreRequestView::FindAccountById { id: user_id },
                ),
                _ => ProgressView::write_failure(reply),
            },
            OperationView::CreateAccount { user_id, chatroom } => match reply {
                StoreReplyView::Account(row) => ProgressView::Ask(
                    OperationView::CreateUpdate { chatroom },
                    StoreRequestView::UpdateAccountMembership {
                        id: user_id,
                        chatrooms_joined: row.chatrooms_joined.push(Some(chatroom.chatroom_uid)),
                    },
                ),
                _ => ProgressView::read_failure(),
            },
            OperationView::CreateUpdate { chatroom } => match reply {
                StoreReplyView::Account(_) => ProgressView::Done(
                    Ok(ApiResponseView::Chatroom(chatroom)),
                ),
                _ => ProgressView::write_failure(reply),
            },
            _ => ProgressView::read_failure(),
        }
    }

    /// What an operation does with the reply to its request.
    pub open spec fn resume(self, reply: StoreReplyView) -> ProgressView {
        match self {
            OperationView::RegisterCheck { .. }
            | OperationView::RegisterInsert { .. }
            | OperationView::RegisterSession { .. } => self.resume_register(reply),
            OperationView::LoginLookup { .. }
            | OperationView::LoginCount { .. }
            | OperationView::LoginWrite { .. } => self.resume_login(reply),
            OperationView::SessionCount { .. }
            | OperationView::SessionAccount
            | OperationView::LogoutDelete => self.resume_session(reply),
            OperationView::UnknownLookup
            | OperationView::KnownValidate { .. }
            | OperationView::KnownLoad { .. } => self.resume_fetch(reply),
            OperationView::CreateInsert { .. }
            | OperationView::CreateAccount { .. }
            | OperationView::CreateUpdate { .. } => self.resume_create(reply),
        }
    }
}

/// Whether an account is among the participants of a chatroom.
pub fn takes_part(participants: &Vec<Option<i32>>, user_id: i32) -> (present: bool)
    ensures
        present == participants@.contains(Some(user_id)),
{
    let mut i: usize = 0;
    while i < participants.len()
        invariant
            i <= participants.len(),
            forall|k: int| 0 <= k < i ==> participants@[k] != Some(user_id),
        decreases participants.len() - i,
    {
        match participants[i] {
            Some(id) => {
                if id == user_id {
                    return true;
                }
            },
            None => {},
        }
        i += 1;
    }
    false
}

impl Progress {
    fn read_failure() -> (progress: Progress)
        ensures
            progress@ == ProgressView::read_failure(),
    {
        Progress::Done(Err(ApiError::StorageUnavailable))
    }

    fn write_failure(reply: &StoreReply) -> (progress: Progress)
        ensures
            progress@ == ProgressView::write_failure(reply@),
    {
        match reply {
            StoreReply::Unavailable => Progress::Done(Err(ApiError::StorageUnavailable)),
            _ => Progress::Done(Err(ApiError::InternalWriteFailure)),
        }
    }
}

impl Operation {
    fn session_of(login: &LoginResponse) -> (session: NewUserSession)
        ensures
            session@ == OperationView::session_of(login@),
    {
        NewUserSession { user_id: login.user_id, session_token: token_bytes(&login.session_token) }
    }

    /// Starts a registration, which on success ends in a session with
    /// `session_token`.
    pub fn register(information: RegisterRequest, session_token: [u8; 32]) -> (progress: Progress)
        ensures
            progress@ == OperationView::register(
                information.username@,
                information.password@,
                information.email@,
                session_token@,
            ),
    {
        let username = information.username.clone();
        Progress::Ask(
            Operation::RegisterCheck {
                account: NewUserAccount {
                    username: information.username,
                    passw: information.password,
                    chatrooms_joined: Vec::new(),
                    email: information.email,
                },
                session_token,
            },
            StoreRequest::CountAccountsByUsername { username },
        )
    }

    /// Starts a login, which on success leaves the account with
    /// `session_token` and no other token.
    pub fn login(information: LoginRequest, session_token: [u8; 32]) -> (progress: Progress)
        ensures
            progress@ == OperationView::login(
                information.username@,
                information.password@,
                session_token@,
            ),
    {
        Progress::Ask(
            Operation::LoginLookup { session_token },
            StoreRequest::FindAccountByCredentials {
                username: information.username,
                password: information.password,
            },
        )
    }

    /// Starts the check of a session.
    pub fn continue_session(session: UserSession) -> (progress: Progress)
        ensures
            progress@ == OperationView::continue_session(session.user_id, session.session_token@),
    {
        Progress::Ask(
            Operation::SessionCount { user_id: session.user_id },
            StoreRequest::CountSessions {
                user_id: session.user_id,
                session_token: session.session_token,
            },
        )
    }

    /// Starts a logout.
    pub fn logout(session: UserSession) -> (progress: Progress)
        ensures
            progress@ == OperationView::logout(session.session_token@),
    {
        Progress::Ask(
            Operation::LogoutDelete,
            StoreRequest::DeleteSessionByToken { session_token: session.session_token },
        )
    }

    /// Starts the fetch of a chatroom by its public id.
    pub fn fetch_unknown(request: FetchUnknownChatroom) -> (progress: Progress)
        ensures
            progress@ == OperationView::fetch_unknown(
                request.chatroom_id@,
                crate::models::text_view(request.password),
            ),
    {
        Progress::Ask(
            Operation::UnknownLookup,
            StoreRequest::FindChatroomByHumanId {
                chatroom_id: request.chatroom_id,
                chatroom_password: request.password,
            },
        )
    }

    /// Starts the fetch of chatrooms by their internal ids.
    pub fn fetch_known(request: FetchKnownChatrooms) -> (progress: Progress)
        ensures
            progress@ == OperationView::fetch_known(
                request.user_session.user_id,
                request.user_session.session_token@,
                request.chatroom_uids@,
            ),
    {
        Progress::Ask(
            Operation::KnownValidate {
                user_id: request.user_session.user_id,
                chatroom_uids: request.chatroom_uids,
            },
            StoreRequest::CountSessions {
                user_id: request.user_session.user_id,
                session_token: request.user_session.session_token,
            },
        )
    }

    /// Starts the creation of a chatroom with the public id `chatroom_id`.
    pub fn create_chatroom(request: CreateChatroomRequest, chatroom_id: String) -> (progress:
        Progress)
        ensures
            progress@ == OperationView::create_chatroom(
                request.user_session.user_id,
                request.chatroom_name@,
                crate::models::text_view(request.chatroom_passw),
                chatroom_id@,
            ),
    {
        let mut participants: Vec<i32> = Vec::new();
        participants.push(request.user_session.user_id);
        assert(participants@ =~= seq![request.user_session.user_id]);
        Progress::Ask(
            Operation::CreateInsert { user_id: request.user_session.user_id },
            StoreRequest::InsertChatroom {
                chatroom: NewChatroom {
                    chatroom_id,
                    chatroom_name: request.chatroom_name,
                    chatroom_password: request.chatroom_passw,
                    participants,
                    is_direct_message: false,
                    last_message_id: None,
                },
            },
        )
    }

    fn resume_register(self, reply: StoreReply) -> (progress: Progress)
        ensures
            progress@ == self@.resume_register(reply@),
    {
        match self {
            Operation::RegisterCheck { account, session_token } => match reply {
                StoreReply::Count(n) => {
                    if n != 0 {
                        Progress::Done(Err(ApiError::Conflict))
                    } else {
                        Progress::Ask(
                            Operation::RegisterInsert { session_token },
                            StoreRequest::InsertAccount { account },
                        )
                    }
                },
                _ => Progress::read_failure(),
            },
            Operation::RegisterInsert { session_token } => match reply {
                StoreReply::Account(row) => {
                    let login = LoginResponse {
                        user_id: row.id,
                        session_token,
                        chatrooms_joined: row.chatrooms_joined,
                    };
                    let session = Self::session_of(&login);
                    Progress::Ask(
                        Operation::RegisterSession { login },
                        StoreRequest::InsertSession { session },
                    )
                },
                other => Progress::write_failure(&other),
            },
            Operation::RegisterSession { login } => match reply {
                StoreReply::Session(_) => Progress::Done(Ok(ApiResponse::Login(login))),
                other => Progress::write_failure(&other),
            },
            _ => Progress::read_failure(),
        }
    }

    fn resume_login(self, reply: StoreReply) -> (progress: Progress)
        ensures
            progress@ == self@.resume_login(reply@),
    {
        match self {
            Operation::LoginLookup { session_token } => match reply {
                StoreReply::Account(row) => {
                    let user_id = row.id;
                    Progress::Ask(
                        Operation::LoginCount {
                            login: LoginResponse {
                                user_id,
                                session_token,
                                chatrooms_joined: row.chatrooms_joined,
                            },
                        },
                        StoreRequest::CountSessionsForAccount { user_id },
                    )
                },
                StoreReply::NotFound => Progress::Done(Err(ApiError::NotFound)),
                _ => Progress::read_failure(),
            },
            Operation::LoginCount { login } => match reply {
                StoreReply::Count(n) => {
                    let session = Self::session_of(&login);
                    if n != 0 {
                        Progress::Ask(
                            Operation::LoginWrite { login },
                            StoreRequest::UpdateSession { session },
                        )
                    } else {
                        Progress::Ask(
                            Operation::LoginWrite { login },
                            StoreRequest::InsertSession { session },
                        )
                    }
                },
                _ => Progress::read_failure(),
            },
            Operation::LoginWrite { login } => match reply {
                StoreReply::Session(_) => Progress::Done(Ok(ApiResponse::Login(login))),
                other => Progress::write_failure(&other),
            },
            _ => Progress::read_failure(),
        }
    }

    fn resume_session(self, reply: StoreReply) -> (progress: Progress)
        ensures
            progress@ == self@.resume_session(reply@),
    {
        match self {
            Operation::SessionCount { user_id } => match reply {
                StoreReply::Count(n) => {
                    if n == 1 {
                        Progress::Ask(
                            Operation::SessionAccount,
                            StoreRequest::FindAccountById { id: user_id },
                        )
                    } else {
                        Progress::Done(Err(ApiError::InvalidSession))
                    }
                },
                _ => Progress::read_failure(),
            },
            Operation::SessionAccount => match reply {
                StoreReply::Account(row) => Progress::Done(
                    Ok(
                        ApiResponse::User(
                            UserInformation {
                                username: row.username,
                                chatrooms_joined: row.chatrooms_joined,
                            },
                        ),
                    ),
                ),
                _ => Progress::read_failure(),
            },
            Operation::LogoutDelete => match reply {
                StoreReply::Deleted(_) => Progress::Done(Ok(ApiResponse::Logout(LogoutReponse {  }))),
                other => Progress::write_failure(&other),
            },
            _ => Progress::read_failure(),
        }
    }

    fn resume_fetch(self, reply: StoreReply) -> (progress: Progress)
        ensures
            progress@ == self@.resume_fetch(reply@),
    {
        match self {
            Operation::UnknownLookup => match reply {
                StoreReply::Chatroom(row) => Progress::Done(
                    Ok(ApiResponse::Chatroom(FetchChatroomResponse::from_entry(row))),
                ),
                StoreReply::NotFound => Progress::Done(Err(ApiError::NotFound)),
                _ => Progress::read_failure(),
            },
            Operation::KnownValidate { user_id, chatroom_uids } => match reply {
                StoreReply::Count(n) => {
                    if n != 1 {
                        Progress::Done(Err(ApiError::Forbidden))
                    } else if chatroom_uids.len() == 0 {
                        let chatrooms: Vec<FetchChatroomResponse> = Vec::new();
                        assert(disclosed(chatrooms@) =~= Seq::empty());
                        Progress::Done(
                            Ok(ApiResponse::Chatrooms(FetchKnownChatroomResponse { chatrooms })),
                        )
                    } else {
                        let id: i32 = chatroom_uids[0];
                        let found: Vec<FetchChatroomResponse> = Vec::new();
                        assert(disclosed(found@) =~= Seq::empty());
                        Progress::Ask(
                            Operation::KnownLoad { user_id, chatroom_uids, found },
                            StoreRequest::FindChatroomById { id },
                        )
                    }
                },
                _ => Progress::read_failure(),
            },
            Operation::KnownLoad { user_id, chatroom_uids, found } => match reply {
                StoreReply::Chatroom(row) => {
                    if !takes_part(&row.participants, user_id) {
                        Progress::Done(Err(ApiError::Forbidden))
                    } else {
                        let ghost before = disclosed(found@);
                        let mut found = found;
                        let response = FetchChatroomResponse::from_entry(row);
                        let ghost added = response@;
                        found.push(response);
                        assert(disclosed(found@) =~= before.push(added));
                        if found.len() >= chatroom_uids.len() {
                            Progress::Done(
                                Ok(
                                    ApiResponse::Chatrooms(
                                        FetchKnownChatroomResponse { chatrooms: found },
                                    ),
                                ),
                            )
                        } else {
                            let id: i32 = chatroom_uids[found.len()];
                            Progress::Ask(
                                Operation::KnownLoad { user_id, chatroom_uids, found },
                                StoreRequest::FindChatroomById { id },
                            )
                        }
                    }
                },
                StoreReply::NotFound => Progress::Done(Err(ApiError::Forbidden)),
                _ => Progress::read_failure(),
            },
            _ => Progress::read_failure(),
        }
    }

    fn resume_create(self, reply: StoreReply) -> (progress: Progress)
        ensures
            progress@ == self@.resume_create(reply@),
    {
        match self {
            Operation::CreateInsert { user_id } => match reply {
                StoreReply::Chatroom(row) => Progress::Ask(
                    Operation::CreateAccount {
                        user_id,
                        chatroom: FetchChatroomResponse::from_entry(row),
                    },
                    StoreRequest::FindAccountById { id: user_id },
                ),
                other => Progress::write_failure(&other),
            },
            Operation::CreateAccount { user_id, chatroom } => match reply {
                StoreReply::Account(row) => {
                    let mut chatrooms_joined = row.chatrooms_joined;
                    chatrooms_joined.push(Some(chatroom.chatroom_uid));
                    Progress::Ask(
                        Operation::CreateUpdate { chatroom },
                        StoreRequest::UpdateAccountMembership { id: user_id, chatrooms_joined },
                    )
                },
                _ => Progress::read_failure(),
            },
            Operation::CreateUpdate { chatroom } => match reply {
                StoreReply::Account(_) => Progress::Done(Ok(ApiResponse::Chatroom(chatroom))),
                other => Progress::write_failure(&other),
            },
            _ => Progress::read_failure(),
        }
    }

    /// Takes the reply to the request that this operation made, and says
    /// what to ask next or how the operation ended. A reply of another kind
    /// than the request calls for ends the operation as a failure of the
    /// store.
    pub fn resume(self, reply: StoreReply) -> (progress: Progress)
        ensures
            progress@ == self@.resume(reply@),
            progress@.remaining() < self@.remaining(),
    {
        proof {
            lemma_resume_decreases(self@, reply@);
        }
        match self {
            Operation::RegisterCheck { .. }
            | Operation::RegisterInsert { .. }
            | Operation::RegisterSession { .. } => self.resume_register(reply),
            Operation::LoginLookup { .. }
            | Operation::LoginCount { .. }
            | Operation::LoginWrite { .. } => self.resume_login(reply),
            Operation::SessionCount { .. }
            | Operation::SessionAccount
            | Operation::LogoutDelete => self.resume_session(reply),
            Operation::UnknownLookup
            | Operation::KnownValidate { .. }
            | Operation::KnownLoad { .. } => self.resume_fetch(reply),
            Operation::CreateInsert { .. }
            | Operation::CreateAccount { .. }
            | Operation::CreateUpdate { .. } => self.resume_create(reply),
        }
    }
}

/// Every reply brings an operation nearer to its end.
pub proof fn lemma_resume_decreases(operation: OperationView, reply: StoreReplyView)
    ensures
        operation.resume(reply).remaining() < operation.remaining(),
{
}

/// What a store holds once an operation has run to its end against it, and
/// how the operation ended.
pub open spec fn outcome(store: StoreView, progress: ProgressView) -> (
    StoreView,
    Result<ApiResponseView, ApiError>,
)
    decreases progress.remaining(),
{
    match progress {
        ProgressView::Done(result) => (store, result),
        ProgressView::Ask(operation, request) => {
            let (next, reply) = store.perform(request);
            outcome(next, operation.resume(reply))
        },
    }
}

} // verus!
