//! Account, session and chatroom logic of a chat server.
//!
//! The types in this file are the requests and responses that the transport
//! layer exchanges with the operations in [`api`]. An operation decides, step
//! by step, what to ask of the store ([`operation`]); [`store`] says what each
//! request means, and [`memory`] is a store that lives in memory.

use vstd::prelude::*;

pub mod api;
pub mod error;
pub mod laws;
pub mod memory;
pub mod models;
pub mod operation;
pub mod query;
pub mod random;
pub mod store;

verus! {

/// What the handlers share: the store.
#[derive(Debug)]
pub struct ServerState {
    pub store: memory::Store,
}

/// Credentials presented on login.
#[derive(Debug)]
pub struct LoginRequest {
    pub username: String,
    pub password: String,
}

/// What a successful login or registration hands back.
#[derive(Debug)]
pub struct LoginResponse {
    pub user_id: i32,
    pub session_token: [u8; 32],
    pub chatrooms_joined: Vec<Option<i32>>,
}

/// The mathematical value of a [`LoginResponse`].
pub struct LoginResponseView {
    pub user_id: i32,
    pub session_token: Seq<u8>,
    pub chatrooms_joined: Seq<Option<i32>>,
}

impl View for LoginResponse {
    type V = LoginResponseView;

    open spec fn view(&self) -> LoginResponseView {
        LoginResponseView {
            user_id: self.user_id,
            session_token: self.session_token@,
            chatrooms_joined: self.chatrooms_joined@,
        }
    }
}

impl LoginResponse {
    pub fn new(user_id: i32, session_token: [u8; 32], chatrooms_joined: Vec<Option<i32>>) -> (r:
        Self)
        ensures
            r.user_id == user_id,
            r.session_token == session_token,
            r.chatrooms_joined == chatrooms_joined,
    {
        Self { user_id, session_token, chatrooms_joined }
    }
}

/// What a new user presents.
#[derive(Debug)]
pub struct RegisterRequest {
    pub username: String,
    pub password: String,
    pub email: String,
}

/// What a client keeps of its session: the account and the token.
#[derive(Debug, Clone, Copy)]
pub struct UserSession {
    pub user_id: i32,
    pub session_token: [u8; 32],
}

/// What a client may show of an account.
#[derive(Debug)]
pub struct UserInformation {
    pub username: String,
    pub chatrooms_joined: Vec<Option<i32>>,
}

/// The mathematical value of a [`UserInformation`].
pub struct UserInformationView {
    pub username: Seq<char>,
    pub chatrooms_joined: Seq<Option<i32>>,
}

impl View for UserInformation {
    type V = UserInformationView;

    open spec fn view(&self) -> UserInformationView {
        UserInformationView {
            username: self.username@,
            chatrooms_joined: self.chatrooms_joined@,
        }
    }
}

/// The answer to a logout: it says nothing.
#[derive(Debug, Clone, Copy, PartialEq, Eq, Structural)]
pub struct LogoutReponse {}

/// A request for a chatroom by its public id.
#[derive(Debug)]
pub struct FetchUnknownChatroom {
    pub user_session: UserSession,
    pub chatroom_id: String,
    pub password: Option<String>,
}

/// A request for chatrooms that the caller has joined, by internal id.
#[derive(Debug)]
pub struct FetchKnownChatrooms {
    pub user_session: UserSession,
    pub chatroom_uids: Vec<i32>,
}

/// What is disclosed of a chatroom.
#[derive(Debug)]
pub struct FetchChatroomResponse {
    /// The internal id.
    pub chatroom_uid: i32,
    /// The public id.
    pub chatroom_id: String,
    pub chatroom_name: String,
    /// A slot may be empty: the store keeps the list so.
    pub participants: Vec<Option<i32>>,
    pub is_direct_message: bool,
    pub last_message_id: Option<i32>,
}

/// The mathematical value of a [`FetchChatroomResponse`].
pub struct FetchChatroomResponseView {
    pub chatroom_uid: i32,
    pub chatroom_id: Seq<char>,
    pub chatroom_name: Seq<char>,
    pub participants: Seq<Option<i32>>,
    pub is_direct_message: bool,
    pub last_message_id: Option<i32>,
}

impl View for FetchChatroomResponse {
    type V = FetchChatroomResponseView;

    open spec fn view(&self) -> FetchChatroomResponseView {
        FetchChatroomResponseView {
            chatroom_uid: self.chatroom_uid,
            chatroom_id: self.chatroom_id@,
            chatroom_name: self.chatroom_name@,
            participants: self.participants@,
            is_direct_message: self.is_direct_message,
            last_message_id: self.last_message_id,
        }
    }
}

impl Clone for FetchChatroomResponse {
    fn clone(&self) -> (r: Self)
        ensures
            r@ == self@,
    {
        FetchChatroomResponse {
            chatroom_uid: self.chatroom_uid,
            chatroom_id: self.chatroom_id.clone(),
            chatroom_name: self.chatroom_name.clone(),
            participants: models::copy_slots(&self.participants),
            is_direct_message: self.is_direct_message,
            last_message_id: self.last_message_id,
        }
    }
}

/// The accounts in a list of participants, without the empty slots.
pub open spec fn members(participants: Seq<Option<i32>>) -> Seq<i32> {
    participants.filter(|slot: Option<i32>| slot is Some).map_values(|slot: Option<i32>| slot->0)
}

impl FetchChatroomResponse {
    /// What is disclosed of a stored chatroom: all but its password.
    pub open spec fn of(row: models::ChatroomView) -> FetchChatroomResponseView {
        FetchChatroomResponseView {
            chatroom_uid: row.id,
            chatroom_id: row.chatroom_id,
            chatroom_name: row.chatroom_name,
            participants: row.participants,
            is_direct_message: row.is_direct_message,
            last_message_id: row.last_message_id,
        }
    }

    /// What is disclosed of a stored chatroom: all but its password.
    pub fn from_entry(row: models::ChatroomEntry) -> (r: Self)
        ensures
            r@ == Self::of(row@),
    {
        FetchChatroomResponse {
            chatroom_uid: row.id,
            chatroom_id: row.chatroom_id,
            chatroom_name: row.chatroom_name,
            participants: row.participants,
            is_direct_message: row.is_direct_message,
            last_message_id: row.last_message_id,
        }
    }

    /// The accounts that take part, in the order of the list, without its
    /// empty slots.
    pub fn current_participants(&self) -> (ids: Vec<i32>)
        ensures
            ids@ == members(self.participants@),
    {
        let ghost taken = |slot: Option<i32>| slot is Some;
        let ghost value = |slot: Option<i32>| slot->0;
        let mut ids: Vec<i32> = Vec::new();
        let mut i: usize = 0;
        proof {
            query::lemma_scan_start(self.participants@, taken);
            assert(ids@ =~= self.participants@.take(0).filter(taken).map_values(value));
        }
        while i < self.participants.len()
            invariant
                i <= self.participants.len(),
                ids@ == self.participants@.take(i as int).filter(taken).map_values(value),
                taken == (|slot: Option<i32>| slot is Some),
                value == (|slot: Option<i32>| slot->0),
            decreases self.participants.len() - i,
        {
            proof {
                query::lemma_scan_step(self.participants@, taken, i as int);
            }
            if let Some(id) = self.participants[i] {
                ids.push(id);
                assert(ids@ =~= self.participants@.take(i + 1).filter(taken).map_values(value));
            }
            i += 1;
        }
        proof {
            query::lemma_scan_end(self.participants@, taken);
        }
        ids
    }
}

/// A request for a new chatroom.
#[derive(Debug, Clone)]
pub struct CreateChatroomRequest {
    pub user_session: UserSession,
    pub chatroom_name: String,
    pub chatroom_passw: Option<String>,
}

/// The chatrooms disclosed to a caller, in the order asked for.
#[derive(Debug)]
pub struct FetchKnownChatroomResponse {
    pub chatrooms: Vec<FetchChatroomResponse>,
}

/// The values of a list of disclosed chatrooms.
pub open spec fn disclosed(rows: Seq<FetchChatroomResponse>) -> Seq<FetchChatroomResponseView> {
    rows.map_values(|row: FetchChatroomResponse| row@)
}

impl View for FetchKnownChatroomResponse {
    type V = Seq<FetchChatroomResponseView>;

    open spec fn view(&self) -> Seq<FetchChatroomResponseView> {
        disclosed(self.chatrooms@)
    }
}

impl Clone for FetchKnownChatroomResponse {
    fn clone(&self) -> (r: Self)
        ensures
            r@ == self@,
    {
        let mut chatrooms: Vec<FetchChatroomResponse> = Vec::new();
        let mut i: usize = 0;
        assert(disclosed(chatrooms@) =~= disclosed(self.chatrooms@.take(0)));
        while i < self.chatrooms.len()
            invariant
                i <= self.chatrooms.len(),
                disclosed(chatrooms@) == disclosed(self.chatrooms@.take(i as int)),
            decreases self.chatrooms.len() - i,
        {
            let row = self.chatrooms[i].clone();
            let ghost copied = disclosed(chatrooms@);
            let ghost value = row@;
            chatrooms.push(row);
            proof {
                assert(disclosed(chatrooms@) =~= copied.push(value));
                assert(self.chatrooms@.take(i + 1) =~= self.chatrooms@.take(i as int).push(
                    self.chatrooms@[i as int],
                ));
                assert(disclosed(self.chatrooms@.take(i + 1)) =~= copied.push(value));
            }
            i += 1;
        }
        assert(self.chatrooms@.take(i as int) =~= self.chatrooms@);
        FetchKnownChatroomResponse { chatrooms }
    }
}

} // verus!
