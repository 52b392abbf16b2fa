//! The store as the operations see it: requests, replies, and what each
//! request does to the three tables.
//!
//! [`StoreView`] is the mathematical store. [`StoreView::perform`] says, for
//! every request, what the store holds afterwards and what it replies.
//! [`Store`](crate::memory::Store) is a store in memory that does exactly that.

use vstd::prelude::*;
use crate::models::{
    present, text_view, ChatroomEntry, ChatroomView, NewChatroom, NewChatroomView, NewUserAccount,
    NewUserAccountView, NewUserSession, NewUserSessionView, UserAccountEntry, UserAccountView,
    UserSessionEntry, UserSessionView,
};
use crate::query::first_of;

verus! {

/// What an operation asks of the store.
#[derive(Debug)]
pub enum StoreRequest {
    /// How many accounts have this username?
    CountAccountsByUsername { username: String },
    /// The account with this username and password.
    FindAccountByCredentials { username: String, password: String },
    /// The account with this id.
    FindAccountById { id: i32 },
    /// Add an account; the reply is the stored row.
    InsertAccount { account: NewUserAccount },
    /// Replace the list of chatrooms that an account has joined.
    UpdateAccountMembership { id: i32, chatrooms_joined: Vec<Option<i32>> },
    /// How many sessions does this account hold?
    CountSessionsForAccount { user_id: i32 },
    /// How many sessions does this account hold with this token?
    CountSessions { user_id: i32, session_token: [u8; 32] },
    /// Add a session; the reply is the stored row.
    InsertSession { session: NewUserSession },
    /// Give every session of the account this token.
    UpdateSession { session: NewUserSession },
    /// Remove every session with this token.
    DeleteSessionByToken { session_token: [u8; 32] },
    /// The chatroom with this public id and, where one is given, this
    /// password.
    FindChatroomByHumanId { chatroom_id: String, chatroom_password: Option<String> },
    /// The chatroom with this internal id.
    FindChatroomById { id: i32 },
    /// Add a chatroom; the reply is the stored row.
    InsertChatroom { chatroom: NewChatroom },
}

/// The mathematical value of a [`StoreRequest`].
pub enum StoreRequestView {
    CountAccountsByUsername { username: Seq<char> },
    FindAccountByCredentials { username: Seq<char>, password: Seq<char> },
    FindAccountById { id: i32 },
    InsertAccount { account: NewUserAccountView },
    UpdateAccountMembership { id: i32, chatrooms_joined: Seq<Option<i32>> },
    CountSessionsForAccount { user_id: i32 },
    CountSessions { user_id: i32, session_token: Seq<u8> },
    InsertSession { session: NewUserSessionView },
    UpdateSession { session: NewUserSessionView },
    DeleteSessionByToken { session_token: Seq<u8> },
    FindChatroomByHumanId { chatroom_id: Seq<char>, chatroom_password: Option<Seq<char>> },
    FindChatroomById { id: i32 },
    InsertChatroom { chatroom: NewChatroomView },
}

impl View for StoreRequest {
    type V = StoreRequestView;

    open spec fn view(&self) -> StoreRequestView {
        match *self {
            StoreRequest::CountAccountsByUsername { username } => {
                StoreRequestView::CountAccountsByUsername { username: username@ }
            },
            StoreRequest::FindAccountByCredentials { username, password } => {
                StoreRequestView::FindAccountByCredentials {
                    username: username@,
                    password: password@,
                }
            },
            StoreRequest::FindAccountById { id } => StoreRequestView::FindAccountById { id },
            StoreRequest::InsertAccount { account } => {
                StoreRequestView::InsertAccount { account: account@ }
            },
            StoreRequest::UpdateAccountMembership { id, chatrooms_joined } => {
                StoreRequestView::UpdateAccountMembership {
                    id,
                    chatrooms_joined: chatrooms_joined@,
                }
            },
            StoreRequest::CountSessionsForAccount { user_id } => {
                StoreRequestView::CountSessionsForAccount { user_id }
            },
            StoreRequest::CountSessions { user_id, session_token } => {
                StoreRequestView::CountSessions { user_id, session_token: session_token@ }
            },
            StoreRequest::InsertSession { session } => {
                StoreRequestView::InsertSession { session: session@ }
            },
            StoreRequest::UpdateSession { session } => {
                StoreRequestView::UpdateSession { session: session@ }
            },
            StoreRequest::DeleteSessionByToken { session_token } => {
                StoreRequestView::DeleteSessionByToken { session_token: session_token@ }
            },
            StoreRequest::FindChatroomByHumanId { chatroom_id, chatroom_password } => {
                StoreRequestView::FindChatroomByHumanId {
                    chatroom_id: chatroom_id@,
                    chatroom_password: text_view(chatroom_password),
                }
            },
            StoreRequest::FindChatroomById { id } => StoreRequestView::FindChatroomById { id },
            StoreRequest::InsertChatroom { chatroom } => {
                StoreRequestView::InsertChatroom { chatroom: chatroom@ }
            },
        }
    }
}

/// What the store answers.
#[derive(Debug)]
pub enum StoreReply {
    /// No connection to the store could be had.
    Unavailable,
    /// The store refused or failed the request.
    Failed,
    /// No row matches.
    NotFound,
    /// The number of rows that match.
    Count(i64),
    /// An account row.
    Account(UserAccountEntry),
    /// A session row.
    Session(UserSessionEntry),
    /// A chatroom row.
    Chatroom(ChatroomEntry),
    /// The number of rows removed.
    Deleted(usize),
}

/// The mathematical value of a [`StoreReply`].
pub enum StoreReplyView {
    Unavailable,
    Failed,
    NotFound,
    Count(i64),
    Account(UserAccountView),
    Session(UserSessionView),
    Chatroom(ChatroomView),
    Deleted(usize),
}

impl View for StoreReply {
    type V = StoreReplyView;

    open spec fn view(&self) -> StoreReplyView {
        match *self {
            StoreReply::Unavailable => StoreReplyView::Unavailable,
            StoreReply::Failed => StoreReplyView::Failed,
            StoreReply::NotFound => StoreReplyView::NotFound,
            StoreReply::Count(n) => StoreReplyView::Count(n),
            StoreReply::Account(row) => StoreReplyView::Account(row@),
            StoreReply::Session(row) => StoreReplyView::Session(row@),
            StoreReply::Chatroom(row) => StoreReplyView::Chatroom(row@),
            StoreReply::Deleted(n) => StoreReplyView::Deleted(n),
        }
    }
}

/// Accounts with this username.
pub open spec fn named(username: Seq<char>) -> spec_fn(UserAccountView) -> bool {
    |row: UserAccountView| row.username == username
}

/// Accounts with this username and this password.
pub open spec fn with_credentials(username: Seq<char>, password: Seq<char>) -> spec_fn(
    UserAccountView,
) -> bool {
    |row: UserAccountView| row.username == username && row.passw == password
}

/// Accounts with this id.
pub open spec fn account_is(id: i32) -> spec_fn(UserAccountView) -> bool {
    |row: UserAccountView| row.id == id
}

/// Sessions of this account.
pub open spec fn owned_by(user_id: i32) -> spec_fn(UserSessionView) -> bool {
    |row: UserSessionView| row.user_id == user_id
}

/// Sessions of this account with this token.
pub open spec fn holds_token(user_id: i32, token: Seq<u8>) -> spec_fn(UserSessionView) -> bool {
    |row: UserSessionView| row.user_id == user_id && row.session_token == token
}

/// Sessions with this token.
pub open spec fn has_token(token: Seq<u8>) -> spec_fn(UserSessionView) -> bool {
    |row: UserSessionView| row.session_token == token
}

/// Sessions with another token than this.
pub open spec fn lacks_token(token: Seq<u8>) -> spec_fn(UserSessionView) -> bool {
    |row: UserSessionView| row.session_token != token
}

/// Chatrooms with this internal id.
pub open spec fn chatroom_is(id: i32) -> spec_fn(ChatroomView) -> bool {
    |row: ChatroomView| row.id == id
}

/// Chatrooms with this public id and, where a password is given, with that
/// password. A chatroom without a password matches no given password.
pub open spec fn chatroom_named(chatroom_id: Seq<char>, password: Option<Seq<char>>) -> spec_fn(
    ChatroomView,
) -> bool {
    |row: ChatroomView|
        row.chatroom_id == chatroom_id && (password is Some ==> row.chatroom_password == password)
}

/// The account `id` gets a new list of joined chatrooms; other accounts stay.
pub open spec fn joining(id: i32, chatrooms_joined: Seq<Option<i32>>) -> spec_fn(
    UserAccountView,
) -> UserAccountView {
    |row: UserAccountView|
        if row.id == id {
            UserAccountView { chatrooms_joined, ..row }
        } else {
            row
        }
}

/// Every session of the account `user_id` gets the token; other sessions
/// stay.
pub open spec fn rotating(user_id: i32, token: Seq<u8>) -> spec_fn(
    UserSessionView,
) -> UserSessionView {
    |row: UserSessionView|
        if row.user_id == user_id {
            UserSessionView { session_token: token, ..row }
        } else {
            row
        }
}

/// The three tables, the ids last handed out, and the date that the store
/// stamps on new accounts.
pub struct StoreView {
    pub users: Seq<UserAccountView>,
    pub user_signin_tokens: Seq<UserSessionView>,
    pub chatrooms: Seq<ChatroomView>,
    pub last_user_id: i32,
    pub last_token_id: i32,
    pub last_chatroom_id: i32,
    pub today: chrono::NaiveDate,
}

impl StoreView {
    /// A store without rows.
    pub open spec fn empty(today: chrono::NaiveDate) -> StoreView {
        StoreView {
            users: Seq::empty(),
            user_signin_tokens: Seq::empty(),
            chatrooms: Seq::empty(),
            last_user_id: 0,
            last_token_id: 0,
            last_chatroom_id: 0,
            today,
        }
    }

    /// Ids are positive, were handed out in rising order, and none is above
    /// the last one handed out; no two accounts share a username.
    pub open spec fn wf(self) -> bool {
        &&& self.users.len() <= self.last_user_id
        &&& forall|i: int|
            0 <= i < self.users.len() ==> 0 < (#[trigger] self.users[i]).id <= self.last_user_id
        &&& forall|i: int, j: int|
            0 <= i < j < self.users.len() ==> (#[trigger] self.users[i]).id < (
            #[trigger] self.users[j]).id
        &&& forall|i: int, j: int|
            0 <= i < j < self.users.len() ==> (#[trigger] self.users[i]).username != (
            #[trigger] self.users[j]).username
        &&& self.user_signin_tokens.len() <= self.last_token_id
        &&& forall|i: int|
            0 <= i < self.user_signin_tokens.len() ==> 0 < (
            #[trigger] self.user_signin_tokens[i]).token_id <= self.last_token_id
        &&& forall|i: int, j: int|
            0 <= i < j < self.user_signin_tokens.len() ==> (
            #[trigger] self.user_signin_tokens[i]).token_id < (
            #[trigger] self.user_signin_tokens[j]).token_id
        &&& self.chatrooms.len() <= self.last_chatroom_id
        &&& forall|i: int|
            0 <= i < self.chatrooms.len() ==> 0 < (#[trigger] self.chatrooms[i]).id
                <= self.last_chatroom_id
        &&& forall|i: int, j: int|
            0 <= i < j < self.chatrooms.len() ==> (#[trigger] self.chatrooms[i]).id < (
            #[trigger] self.chatrooms[j]).id
    }

    /// The reply to a search for one row: the first that matches.
    pub open spec fn found_account(rows: Seq<UserAccountView>) -> StoreReplyView {
        match first_of(rows) {
            Some(row) => StoreReplyView::Account(row),
            None => StoreReplyView::NotFound,
        }
    }

    /// The reply to a search for one row: the first that matches.
    pub open spec fn found_chatroom(rows: Seq<ChatroomView>) -> StoreReplyView {
        match first_of(rows) {
            Some(row) => StoreReplyView::Chatroom(row),
            None => StoreReplyView::NotFound,
        }
    }

    /// Adding an account. It is refused where the username is taken or the
    /// ids have run out.
    pub open spec fn insert_account(self, account: NewUserAccountView) -> (
        StoreView,
        StoreReplyView,
    ) {
        if self.users.filter(named(account.username)).len() != 0 || self.last_user_id
            >= i32::MAX {
            (self, StoreReplyView::Failed)
        } else {
            let row = UserAccountView {
                id: (self.last_user_id + 1) as i32,
                username: account.username,
                passw: account.passw,
                email: account.email,
                chatrooms_joined: account.chatrooms_joined,
                created_at: self.today,
            };
            (
                StoreView { users: self.users.push(row), last_user_id: row.id, ..self },
                StoreReplyView::Account(row),
            )
        }
    }

    /// Replacing an account's list of joined chatrooms.
    pub open spec fn update_membership(self, id: i32, chatrooms_joined: Seq<Option<i32>>) -> (
        StoreView,
        StoreReplyView,
    ) {
        let rewritten = self.users.map_values(joining(id, chatrooms_joined));
        (
            StoreView { users: rewritten, ..self },
            Self::found_account(rewritten.filter(account_is(id))),
        )
    }

    /// Adding a session. It is refused where the ids have run out.
    pub open spec fn insert_session(self, session: NewUserSessionView) -> (
        StoreView,
        StoreReplyView,
    ) {
        if self.last_token_id >= i32::MAX {
            (self, StoreReplyView::Failed)
        } else {
            let row = UserSessionView {
                token_id: (self.last_token_id + 1) as i32,
                user_id: session.user_id,
                session_token: session.session_token,
            };
            (
                StoreView {
                    user_signin_tokens: self.user_signin_tokens.push(row),
                    last_token_id: row.token_id,
                    ..self
                },
                StoreReplyView::Session(row),
            )
        }
    }

    /// Giving every session of an account a new token.
    pub open spec fn update_session(self, session: NewUserSessionView) -> (
        StoreView,
        StoreReplyView,
    ) {
        let rewritten = self.user_signin_tokens.map_values(
            rotating(session.user_id, session.session_token),
        );
        (
            StoreView { user_signin_tokens: rewritten, ..self },
            match first_of(rewritten.filter(owned_by(session.user_id))) {
                Some(row) => StoreReplyView::Session(row),
                None => StoreReplyView::NotFound,
            },
        )
    }

    /// Removing every session with a token.
    pub open spec fn delete_sessions(self, token: Seq<u8>) -> (StoreView, StoreReplyView) {
        (
            StoreView {
                user_signin_tokens: self.user_signin_tokens.filter(lacks_token(token)),
                ..self
            },
            StoreReplyView::Deleted(self.user_signin_tokens.filter(has_token(token)).len() as usize),
        )
    }

    /// Adding a chatroom. It is refused where the ids have run out.
    pub open spec fn insert_chatroom(self, chatroom: NewChatroomView) -> (
        StoreView,
        StoreReplyView,
    ) {
        if self.last_chatroom_id >= i32::MAX {
            (self, StoreReplyView::Failed)
        } else {
            let row = ChatroomView {
                id: (self.last_chatroom_id + 1) as i32,
                chatroom_id: chatroom.chatroom_id,
                chatroom_name: chatroom.chatroom_name,
                chatroom_password: chatroom.chatroom_password,
                participants: present(chatroom.participants),
                is_direct_message: chatroom.is_direct_message,
                last_message_id: chatroom.last_message_id,
            };
            (
                StoreView {
                    chatrooms: self.chatrooms.push(row),
                    last_chatroom_id: row.id,
                    ..self
                },
                StoreReplyView::Chatroom(row),
            )
        }
    }

    /// What the store holds after a request, and what it replies.
    pub open spec fn perform(self, request: StoreRequestView) -> (StoreView, StoreReplyView) {
        match request {
            StoreRequestView::CountAccountsByUsername { username } => (
                self,
                StoreReplyView::Count(self.users.filter(named(username)).len() as i64),
            ),
            StoreRequestView::FindAccountByCredentials { username, password } => (
                self,
                Self::found_account(self.users.filter(with_credentials(username, password))),
            ),
            StoreRequestView::FindAccountById { id } => (
                self,
                Self::found_account(self.users.filter(account_is(id))),
            ),
            StoreRequestView::InsertAccount { account } => self.insert_account(account),
            StoreRequestView::UpdateAccountMembership { id, chatrooms_joined } => {
                self.update_membership(id, chatrooms_joined)
            },
            StoreRequestView::CountSessionsForAccount { user_id } => (
                self,
                StoreReplyView::Count(
                    self.user_signin_tokens.filter(owned_by(user_id)).len() as i64,
                ),
            ),
            StoreRequestView::CountSessions { user_id, session_token } => (
                self,
                StoreReplyView::Count(
                    self.user_signin_tokens.filter(holds_token(user_id, session_token)).len() as i64,
                ),
            ),
            StoreRequestView::InsertSession { session } => self.insert_session(session),
            StoreRequestView::UpdateSession { session } => self.update_session(session),
            StoreRequestView::DeleteSessionByToken { session_token } => {
                self.delete_sessions(session_token)
            },
            StoreRequestView::FindChatroomByHumanId { chatroom_id, chatroom_password } => (
                self,
                Self::found_chatroom(
                    self.chatrooms.filter(chatroom_named(chatroom_id, chatroom_password)),
                ),
            ),
            StoreRequestView::FindChatroomById { id } => (
                self,
                Self::found_chatroom(self.chatrooms.filter(chatroom_is(id))),
            ),
            StoreRequestView::InsertChatroom { chatroom } => self.insert_chatroom(chatroom),
        }
    }
}

} // verus!
