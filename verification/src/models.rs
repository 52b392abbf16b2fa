//! The rows of the three tables, and the rows that are handed in for insertion.
//!
//! `accounts(id, username unique, passw, email, chatrooms_joined[], created_at)`,
//! `sessions(token_id, user_id, session_token)`,
//! `chatrooms(id, chatroom_id, chatroom_name, chatroom_password?, participants[],
//! is_direct_message, last_message_id?)`.

use vstd::prelude::*;

verus! {

/// A calendar date of the `chrono` crate. The library only carries such a
/// value from the store to whoever reads an account; it never looks inside.
#[verifier::external_type_specification]
#[verifier::external_body]
pub struct ExNaiveDate(chrono::NaiveDate);

/// The view of an optional string.
pub open spec fn text_view(text: Option<String>) -> Option<Seq<char>> {
    match text {
        Some(t) => Some(t@),
        None => None,
    }
}

/// A copy of an account's list of joined chatrooms, or of a chatroom's list
/// of participants.
pub fn copy_slots(slots: &Vec<Option<i32>>) -> (r: Vec<Option<i32>>)
    ensures
        r@ == slots@,
{
    let mut r: Vec<Option<i32>> = Vec::new();
    let mut i: usize = 0;
    while i < slots.len()
        invariant
            i <= slots.len(),
            r@ == slots@.subrange(0, i as int),
        decreases slots.len() - i,
    {
        r.push(slots[i]);
        i += 1;
    }
    r
}

/// A copy of a byte string.
pub fn copy_bytes(bytes: &Vec<u8>) -> (r: Vec<u8>)
    ensures
        r@ == bytes@,
{
    let mut r: Vec<u8> = Vec::new();
    let mut i: usize = 0;
    while i < bytes.len()
        invariant
            i <= bytes.len(),
            r@ == bytes@.subrange(0, i as int),
        decreases bytes.len() - i,
    {
        r.push(bytes[i]);
        i += 1;
    }
    r
}

/// The bytes of a token as the store keeps them.
pub fn token_bytes(token: &[u8; 32]) -> (r: Vec<u8>)
    ensures
        r@ == token@,
{
    let mut r: Vec<u8> = Vec::new();
    let mut i: usize = 0;
    while i < 32
        invariant
            i <= 32,
            r@ == token@.subrange(0, i as int),
        decreases 32 - i,
    {
        r.push(token[i]);
        i += 1;
    }
    r
}

/// Whether stored bytes are those of a token.
pub fn same_token(stored: &Vec<u8>, token: &[u8; 32]) -> (same: bool)
    ensures
        same == (stored@ == token@),
{
    if stored.len() != 32 {
        return false;
    }
    let mut i: usize = 0;
    while i < 32
        invariant
            i <= 32,
            stored.len() == 32,
            stored@.subrange(0, i as int) == token@.subrange(0, i as int),
        decreases 32 - i,
    {
        if stored[i] != token[i] {
            return false;
        }
        assert(stored@.subrange(0, i + 1) =~= stored@.subrange(0, i as int).push(stored@[i as int]));
        assert(token@.subrange(0, i + 1) =~= token@.subrange(0, i as int).push(token@[i as int]));
        i += 1;
    }
    assert(stored@ =~= stored@.subrange(0, 32));
    assert(token@ =~= token@.subrange(0, 32));
    true
}

/// Whether an optional string is present and equal to a given one.
pub fn same_text(stored: &Option<String>, given: &String) -> (same: bool)
    ensures
        same == (text_view(*stored) == Some(given@)),
{
    match stored {
        Some(text) => *text == *given,
        None => false,
    }
}

/// The participants of a new chatroom as the store keeps them: each one
/// present.
pub open spec fn present(ids: Seq<i32>) -> Seq<Option<i32>> {
    ids.map_values(|id: i32| Some(id))
}

/// The participants of a new chatroom as the store keeps them: each one
/// present.
pub fn present_slots(ids: &Vec<i32>) -> (r: Vec<Option<i32>>)
    ensures
        r@ == present(ids@),
{
    let mut r: Vec<Option<i32>> = Vec::new();
    let mut i: usize = 0;
    while i < ids.len()
        invariant
            i <= ids.len(),
            r@ == present(ids@.subrange(0, i as int)),
        decreases ids.len() - i,
    {
        r.push(Some(ids[i]));
        assert(ids@.subrange(0, i + 1) =~= ids@.subrange(0, i as int).push(ids@[i as int]));
        assert(r@ =~= present(ids@.subrange(0, i + 1)));
        i += 1;
    }
    assert(ids@ =~= ids@.subrange(0, ids.len() as int));
    r
}

/// A copy of an optional string.
pub fn copy_text(text: &Option<String>) -> (r: Option<String>)
    ensures
        text_view(r) == text_view(*text),
{
    match text {
        Some(t) => Some(t.clone()),
        None => None,
    }
}

/// A stored account.
#[derive(Debug)]
pub struct UserAccountEntry {
    pub id: i32,
    pub username: String,
    pub passw: String,
    pub email: String,
    pub chatrooms_joined: Vec<Option<i32>>,
    pub created_at: chrono::NaiveDate,
}

/// The mathematical value of a [`UserAccountEntry`].
pub struct UserAccountView {
    pub id: i32,
    pub username: Seq<char>,
    pub passw: Seq<char>,
    pub email: Seq<char>,
    pub chatrooms_joined: Seq<Option<i32>>,
    pub created_at: chrono::NaiveDate,
}

impl View for UserAccountEntry {
    type V = UserAccountView;

    open spec fn view(&self) -> UserAccountView {
        UserAccountView {
            id: self.id,
            username: self.username@,
            passw: self.passw@,
            email: self.email@,
            chatrooms_joined: self.chatrooms_joined@,
            created_at: self.created_at,
        }
    }
}

impl Clone for UserAccountEntry {
    fn clone(&self) -> (r: Self)
        ensures
            r@ == self@,
    {
        UserAccountEntry {
            id: self.id,
            username: self.username.clone(),
            passw: self.passw.clone(),
            email: self.email.clone(),
            chatrooms_joined: copy_slots(&self.chatrooms_joined),
            created_at: self.created_at,
        }
    }
}

/// An account to be inserted: the store assigns the id and the date.
#[derive(Debug)]
pub struct NewUserAccount {
    pub username: String,
    pub passw: String,
    pub chatrooms_joined: Vec<Option<i32>>,
    pub email: String,
}

/// The mathematical value of a [`NewUserAccount`].
pub struct NewUserAccountView {
    pub username: Seq<char>,
    pub passw: Seq<char>,
    pub chatrooms_joined: Seq<Option<i32>>,
    pub email: Seq<char>,
}

impl View for NewUserAccount {
    type V = NewUserAccountView;

    open spec fn view(&self) -> NewUserAccountView {
        NewUserAccountView {
            username: self.username@,
            passw: self.passw@,
            chatrooms_joined: self.chatrooms_joined@,
            email: self.email@,
        }
    }
}

impl Clone for NewUserAccount {
    fn clone(&self) -> (r: Self)
        ensures
            r@ == self@,
    {
        NewUserAccount {
            username: self.username.clone(),
            passw: self.passw.clone(),
            chatrooms_joined: copy_slots(&self.chatrooms_joined),
            email: self.email.clone(),
        }
    }
}

/// A stored session: the token that an account currently holds.
#[derive(Debug)]
pub struct UserSessionEntry {
    pub token_id: i32,
    pub user_id: i32,
    pub session_token: Vec<u8>,
}

/// The mathematical value of a [`UserSessionEntry`].
pub struct UserSessionView {
    pub token_id: i32,
    pub user_id: i32,
    pub session_token: Seq<u8>,
}

impl View for UserSessionEntry {
    type V = UserSessionView;

    open spec fn view(&self) -> UserSessionView {
        UserSessionView {
            token_id: self.token_id,
            user_id: self.user_id,
            session_token: self.session_token@,
        }
    }
}

impl Clone for UserSessionEntry {
    fn clone(&self) -> (r: Self)
        ensures
            r@ == self@,
    {
        UserSessionEntry {
            token_id: self.token_id,
            user_id: self.user_id,
            session_token: copy_bytes(&self.session_token),
        }
    }
}

/// A session to be inserted, or the new contents of an account's sessions.
#[derive(Debug)]
pub struct NewUserSession {
    pub user_id: i32,
    pub session_token: Vec<u8>,
}

/// The mathematical value of a [`NewUserSession`].
pub struct NewUserSessionView {
    pub user_id: i32,
    pub session_token: Seq<u8>,
}

impl View for NewUserSession {
    type V = NewUserSessionView;

    open spec fn view(&self) -> NewUserSessionView {
        NewUserSessionView { user_id: self.user_id, session_token: self.session_token@ }
    }
}

impl Clone for NewUserSession {
    fn clone(&self) -> (r: Self)
        ensures
            r@ == self@,
    {
        NewUserSession { user_id: self.user_id, session_token: copy_bytes(&self.session_token) }
    }
}

/// A stored chatroom.
#[derive(Debug)]
pub struct ChatroomEntry {
    pub id: i32,
    pub chatroom_id: String,
    pub chatroom_name: String,
    pub chatroom_password: Option<String>,
    pub participants: Vec<Option<i32>>,
    pub is_direct_message: bool,
    pub last_message_id: Option<i32>,
}

/// The mathematical value of a [`ChatroomEntry`].
pub struct ChatroomView {
    pub id: i32,
    pub chatroom_id: Seq<char>,
    pub chatroom_name: Seq<char>,
    pub chatroom_password: Option<Seq<char>>,
    pub participants: Seq<Option<i32>>,
    pub is_direct_message: bool,
    pub last_message_id: Option<i32>,
}

impl View for ChatroomEntry {
    type V = ChatroomView;

    open spec fn view(&self) -> ChatroomView {
        ChatroomView {
            id: self.id,
            chatroom_id: self.chatroom_id@,
            chatroom_name: self.chatroom_name@,
            chatroom_password: text_view(self.chatroom_password),
            participants: self.participants@,
            is_direct_message: self.is_direct_message,
            last_message_id: self.last_message_id,
        }
    }
}

impl Clone for ChatroomEntry {
    fn clone(&self) -> (r: Self)
        ensures
            r@ == self@,
    {
        ChatroomEntry {
            id: self.id,
            chatroom_id: self.chatroom_id.clone(),
            chatroom_name: self.chatroom_name.clone(),
            chatroom_password: copy_text(&self.chatroom_password),
            participants: copy_slots(&self.participants),
            is_direct_message: self.is_direct_message,
            last_message_id: self.last_message_id,
        }
    }
}

/// A chatroom to be inserted: the store assigns the internal id.
#[derive(Debug)]
pub struct NewChatroom {
    pub chatroom_id: String,
    pub chatroom_name: String,
    pub chatroom_password: Option<String>,
    pub participants: Vec<i32>,
    pub is_direct_message: bool,
    pub last_message_id: Option<i32>,
}

/// The mathematical value of a [`NewChatroom`].
pub struct NewChatroomView {
    pub chatroom_id: Seq<char>,
    pub chatroom_name: Seq<char>,
    pub chatroom_password: Option<Seq<char>>,
    pub participants: Seq<i32>,
    pub is_direct_message: bool,
    pub last_message_id: Option<i32>,
}

impl Clone for NewChatroom {
    fn clone(&self) -> (r: Self)
        ensures
            r@ == self@,
    {
        let mut participants: Vec<i32> = Vec::new();
        let mut i: usize = 0;
        while i < self.participants.len()
            invariant
                i <= self.participants.len(),
                participants@ == self.participants@.subrange(0, i as int),
            decreases self.participants.len() - i,
        {
            participants.push(self.participants[i]);
            i += 1;
        }
        assert(participants@ =~= self.participants@);
        NewChatroom {
            chatroom_id: self.chatroom_id.clone(),
            chatroom_name: self.chatroom_name.clone(),
            chatroom_password: copy_text(&self.chatroom_password),
            participants,
            is_direct_message: self.is_direct_message,
            last_message_id: self.last_message_id,
        }
    }
}

impl View for NewChatroom {
    type V = NewChatroomView;

    open spec fn view(&self) -> NewChatroomView {
        NewChatroomView {
            chatroom_id: self.chatroom_id@,
            chatroom_name: self.chatroom_name@,
            chatroom_password: text_view(self.chatroom_password),
            participants: self.participants@,
            is_direct_message: self.is_direct_message,
            last_message_id: self.last_message_id,
        }
    }
}

} // verus!
