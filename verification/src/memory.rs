//! A store in memory: three tables in vectors, which answers every request
//! as [`StoreView::perform`] says.

use vstd::prelude::*;
use crate::error::ApiError;
use crate::operation::{outcome, result_view, ApiResponse, Progress};
use crate::models::{
    copy_slots, present_slots, same_text, same_token, ChatroomEntry, ChatroomView, NewChatroom,
    NewUserAccount, NewUserSession, UserAccountEntry, UserAccountView, UserSessionEntry,
    UserSessionView,
};
use crate::query::{
    lemma_first_match, lemma_no_match, lemma_scan_end, lemma_scan_start, lemma_scan_step,
};
use crate::store::{
    account_is, chatroom_is, chatroom_named, has_token, holds_token, joining, lacks_token, named,
    owned_by, rotating, with_credentials, StoreReply, StoreReplyView, StoreRequest, StoreView,
};

verus! {

/// The values of a table of accounts.
pub open spec fn account_rows(rows: Seq<UserAccountEntry>) -> Seq<UserAccountView> {
    rows.map_values(|row: UserAccountEntry| row@)
}

/// The values of a table of sessions.
pub open spec fn session_rows(rows: Seq<UserSessionEntry>) -> Seq<UserSessionView> {
    rows.map_values(|row: UserSessionEntry| row@)
}

/// The values of a table of chatrooms.
pub open spec fn chatroom_rows(rows: Seq<ChatroomEntry>) -> Seq<ChatroomView> {
    rows.map_values(|row: ChatroomEntry| row@)
}

/// A store in memory.
///
/// Its fields are private, [`Store::new`] makes a well-formed store, and
/// every function that changes a store keeps it well-formed
/// ([`StoreView::wf`]): code that holds a `Store` holds a well-formed one.
#[derive(Debug)]
pub struct Store {
    users: Vec<UserAccountEntry>,
    user_signin_tokens: Vec<UserSessionEntry>,
    chatrooms: Vec<ChatroomEntry>,
    last_user_id: i32,
    last_token_id: i32,
    last_chatroom_id: i32,
    today: chrono::NaiveDate,
}

impl View for Store {
    type V = StoreView;

    closed spec fn view(&self) -> StoreView {
        StoreView {
            users: account_rows(self.users@),
            user_signin_tokens: session_rows(self.user_signin_tokens@),
            chatrooms: chatroom_rows(self.chatrooms@),
            last_user_id: self.last_user_id,
            last_token_id: self.last_token_id,
            last_chatroom_id: self.last_chatroom_id,
            today: self.today,
        }
    }
}

impl Store {
    /// A store without rows, which stamps `today` on the accounts it creates.
    pub fn new(today: chrono::NaiveDate) -> (store: Store)
        ensures
            store@ == StoreView::empty(today),
            store@.wf(),
    {
        let store = Store {
            users: Vec::new(),
            user_signin_tokens: Vec::new(),
            chatrooms: Vec::new(),
            last_user_id: 0,
            last_token_id: 0,
            last_chatroom_id: 0,
            today,
        };
        assert(store@.users =~= Seq::empty());
        assert(store@.user_signin_tokens =~= Seq::empty());
        assert(store@.chatrooms =~= Seq::empty());
        store
    }

    /// The date stamped on accounts from now on.
    pub fn set_today(&mut self, today: chrono::NaiveDate)
        ensures
            final(self)@ == (StoreView { today, ..old(self)@ }),
    {
        self.today = today;
    }

    /// The table of accounts.
    pub fn accounts(&self) -> (rows: &Vec<UserAccountEntry>)
        ensures
            account_rows(rows@) == self@.users,
    {
        &self.users
    }

    /// The table of sessions.
    pub fn sessions(&self) -> (rows: &Vec<UserSessionEntry>)
        ensures
            session_rows(rows@) == self@.user_signin_tokens,
    {
        &self.user_signin_tokens
    }

    /// The table of chatrooms.
    pub fn rooms(&self) -> (rows: &Vec<ChatroomEntry>)
        ensures
            chatroom_rows(rows@) == self@.chatrooms,
    {
        &self.chatrooms
    }

    fn count_accounts_named(&self, username: &String) -> (n: usize)
        ensures
            n == self@.users.filter(named(username@)).len(),
            n <= self@.users.len(),
    {
        let ghost pred = named(username@);
        let mut n: usize = 0;
        let mut i: usize = 0;
        proof {
            lemma_scan_start(self@.users, pred);
        }
        while i < self.users.len()
            invariant
                i <= self.users.len(),
                n <= i,
                n == self@.users.take(i as int).filter(pred).len(),
                pred == named(username@),
            decreases self.users.len() - i,
        {
            proof {
                lemma_scan_step(self@.users, pred, i as int);
            }
            if self.users[i].username == *username {
                n += 1;
            }
            i += 1;
        }
        proof {
            lemma_scan_end(self@.users, pred);
        }
        n
    }

    fn find_account_by_credentials(&self, username: &String, password: &String) -> (reply:
        StoreReply)
        ensures
            reply@ == StoreView::found_account(
                self@.users.filter(with_credentials(username@, password@)),
            ),
    {
        let ghost pred = with_credentials(username@, password@);
        let mut i: usize = 0;
        proof {
            lemma_scan_start(self@.users, pred);
        }
        while i < self.users.len()
            invariant
                i <= self.users.len(),
                self@.users.take(i as int).filter(pred).len() == 0,
                pred == with_credentials(username@, password@),
            decreases self.users.len() - i,
        {
            proof {
                lemma_scan_step(self@.users, pred, i as int);
            }
            if self.users[i].username == *username && self.users[i].passw == *password {
                proof {
                    lemma_first_match(self@.users, pred, i as int);
                }
                return StoreReply::Account(self.users[i].clone());
            }
            i += 1;
        }
        proof {
            lemma_scan_end(self@.users, pred);
        }
        StoreReply::NotFound
    }

    fn find_account_by_id(&self, id: i32) -> (reply: StoreReply)
        ensures
            reply@ == StoreView::found_account(self@.users.filter(account_is(id))),
    {
        let ghost pred = account_is(id);
        let mut i: usize = 0;
        proof {
            lemma_scan_start(self@.users, pred);
        }
        while i < self.users.len()
            invariant
                i <= self.users.len(),
                self@.users.take(i as int).filter(pred).len() == 0,
                pred == account_is(id),
            decreases self.users.len() - i,
        {
            proof {
                lemma_scan_step(self@.users, pred, i as int);
            }
            if self.users[i].id == id {
                proof {
                    lemma_first_match(self@.users, pred, i as int);
                }
                return StoreReply::Account(self.users[i].clone());
            }
            i += 1;
        }
        proof {
            lemma_scan_end(self@.users, pred);
        }
        StoreReply::NotFound
    }

    fn insert_account(&mut self, account: NewUserAccount) -> (reply: StoreReply)
        requires
            old(self)@.wf(),
        ensures
            final(self)@.wf(),
            (final(self)@, reply@) == old(self)@.insert_account(account@),
    {
        let taken = self.count_accounts_named(&account.username);
        if taken != 0 || self.last_user_id >= i32::MAX {
            return StoreReply::Failed;
        }
        let id: i32 = self.last_user_id + 1;
        let row = UserAccountEntry {
            id,
            username: account.username,
            passw: account.passw,
            email: account.email,
            chatrooms_joined: account.chatrooms_joined,
            created_at: self.today,
        };
        let reply = StoreReply::Account(row.clone());
        self.users.push(row);
        self.last_user_id = id;
        proof {
            lemma_no_match(old(self)@.users, named(account.username@));
            assert(self@.users =~= old(self)@.users.push(row@));
        }
        reply
    }

    fn update_membership(&mut self, id: i32, chatrooms_joined: Vec<Option<i32>>) -> (reply:
        StoreReply)
        requires
            old(self)@.wf(),
        ensures
            final(self)@.wf(),
            (final(self)@, reply@) == old(self)@.update_membership(id, chatrooms_joined@),
    {
        let ghost rewrite = joining(id, chatrooms_joined@);
        let mut rewritten: Vec<UserAccountEntry> = Vec::new();
        let mut i: usize = 0;
        while i < self.users.len()
            invariant
                i <= self.users.len(),
                account_rows(rewritten@) == self@.users.take(i as int).map_values(rewrite),
                rewrite == joining(id, chatrooms_joined@),
            decreases self.users.len() - i,
        {
            let row = &self.users[i];
            let next = if row.id == id {
                UserAccountEntry {
                    id: row.id,
                    username: row.username.clone(),
                    passw: row.passw.clone(),
                    email: row.email.clone(),
                    chatrooms_joined: copy_slots(&chatrooms_joined),
                    created_at: row.created_at,
                }
            } else {
                row.clone()
            };
            let ghost done = rewritten@;
            let ghost next_row = next@;
            rewritten.push(next);
            proof {
                assert(self@.users[i as int] == row@);
                assert(next_row == rewrite(row@));
                assert(account_rows(rewritten@) =~= account_rows(done).push(next_row));
                assert(self@.users.take(i + 1) =~= self@.users.take(i as int).push(row@));
                assert(self@.users.take(i + 1).map_values(rewrite) =~= self@.users.take(
                    i as int,
                ).map_values(rewrite).push(rewrite(row@)));
            }
            i += 1;
        }
        proof {
            assert(self@.users.take(i as int) =~= self@.users);
        }
        self.users = rewritten;
        self.find_account_by_id(id)
    }

    fn count_sessions_of(&self, user_id: i32) -> (n: usize)
        ensures
            n == self@.user_signin_tokens.filter(owned_by(user_id)).len(),
            n <= self@.user_signin_tokens.len(),
    {
        let ghost pred = owned_by(user_id);
        let mut n: usize = 0;
        let mut i: usize = 0;
        proof {
            lemma_scan_start(self@.user_signin_tokens, pred);
        }
        while i < self.user_signin_tokens.len()
            invariant
                i <= self.user_signin_tokens.len(),
                n <= i,
                n == self@.user_signin_tokens.take(i as int).filter(pred).len(),
                pred == owned_by(user_id),
            decreases self.user_signin_tokens.len() - i,
        {
            proof {
                lemma_scan_step(self@.user_signin_tokens, pred, i as int);
            }
            if self.user_signin_tokens[i].user_id == user_id {
                n += 1;
            }
            i += 1;
        }
        proof {
            lemma_scan_end(self@.user_signin_tokens, pred);
        }
        n
    }

    fn count_sessions_matching(&self, user_id: i32, token: &[u8; 32]) -> (n: usize)
        ensures
            n == self@.user_signin_tokens.filter(holds_token(user_id, token@)).len(),
            n <= self@.user_signin_tokens.len(),
    {
        let ghost pred = holds_token(user_id, token@);
        let mut n: usize = 0;
        let mut i: usize = 0;
        proof {
            lemma_scan_start(self@.user_signin_tokens, pred);
        }
        while i < self.user_signin_tokens.len()
            invariant
                i <= self.user_signin_tokens.len(),
                n <= i,
                n == self@.user_signin_tokens.take(i as int).filter(pred).len(),
                pred == holds_token(user_id, token@),
            decreases self.user_signin_tokens.len() - i,
        {
            proof {
                lemma_scan_step(self@.user_signin_tokens, pred, i as int);
            }
            if self.user_signin_tokens[i].user_id == user_id && same_token(
                &self.user_signin_tokens[i].session_token,
                token,
            ) {
                n += 1;
            }
            i += 1;
        }
        proof {
            lemma_scan_end(self@.user_signin_tokens, pred);
        }
        n
    }

    fn find_session_of(&self, user_id: i32) -> (reply: StoreReply)
        ensures
            reply@ == match crate::query::first_of(
                self@.user_signin_tokens.filter(owned_by(user_id)),
            ) {
                Some(row) => StoreReplyView::Session(row),
                None => StoreReplyView::NotFound,
            },
    {
        let ghost pred = owned_by(user_id);
        let mut i: usize = 0;
        proof {
            lemma_scan_start(self@.user_signin_tokens, pred);
        }
        while i < self.user_signin_tokens.len()
            invariant
                i <= self.user_signin_tokens.len(),
                self@.user_signin_tokens.take(i as int).filter(pred).len() == 0,
                pred == owned_by(user_id),
            decreases self.user_signin_tokens.len() - i,
        {
            proof {
                lemma_scan_step(self@.user_signin_tokens, pred, i as int);
            }
            if self.user_signin_tokens[i].user_id == user_id {
                proof {
                    lemma_first_match(self@.user_signin_tokens, pred, i as int);
                }
                return StoreReply::Session(self.user_signin_tokens[i].clone());
            }
            i += 1;
        }
        proof {
            lemma_scan_end(self@.user_signin_tokens, pred);
        }
        StoreReply::NotFound
    }

    fn insert_session(&mut self, session: NewUserSession) -> (reply: StoreReply)
        requires
            old(self)@.wf(),
        ensures
            final(self)@.wf(),
            (final(self)@, reply@) == old(self)@.insert_session(session@),
    {
        if self.last_token_id >= i32::MAX {
            return StoreReply::Failed;
        }
        let id: i32 = self.last_token_id + 1;
        let row = UserSessionEntry {
            token_id: id,
            user_id: session.user_id,
            session_token: session.session_token,
        };
        let reply = StoreReply::Session(row.clone());
        self.user_signin_tokens.push(row);
        self.last_token_id = id;
        proof {
            assert(self@.user_signin_tokens =~= old(self)@.user_signin_tokens.push(row@));
        }
        reply
    }

    fn update_session(&mut self, session: NewUserSession) -> (reply: StoreReply)
        requires
            old(self)@.wf(),
        ensures
            final(self)@.wf(),
            (final(self)@, reply@) == old(self)@.update_session(session@),
    {
        let ghost rewrite = rotating(session.user_id, session.session_token@);
        let mut rewritten: Vec<UserSessionEntry> = Vec::new();
        let mut i: usize = 0;
        while i < self.user_signin_tokens.len()
            invariant
                i <= self.user_signin_tokens.len(),
                session_rows(rewritten@) == self@.user_signin_tokens.take(i as int).map_values(
                    rewrite,
                ),
                rewrite == rotating(session.user_id, session.session_token@),
            decreases self.user_signin_tokens.len() - i,
        {
            let row = &self.user_signin_tokens[i];
            let next = if row.user_id == session.user_id {
                UserSessionEntry {
                    token_id: row.token_id,
                    user_id: row.user_id,
                    session_token: crate::models::copy_bytes(&session.session_token),
                }
            } else {
                row.clone()
            };
            let ghost done = rewritten@;
            let ghost next_row = next@;
            rewritten.push(next);
            proof {
                assert(self@.user_signin_tokens[i as int] == row@);
                assert(next_row == rewrite(row@));
                assert(session_rows(rewritten@) =~= session_rows(done).push(next_row));
                assert(self@.user_signin_tokens.take(i + 1) =~= self@.user_signin_tokens.take(
                    i as int,
                ).push(row@));
                assert(self@.user_signin_tokens.take(i + 1).map_values(rewrite)
                    =~= self@.user_signin_tokens.take(i as int).map_values(rewrite).push(
                    rewrite(row@),
                ));
            }
            i += 1;
        }
        proof {
            assert(self@.user_signin_tokens.take(i as int) =~= self@.user_signin_tokens);
        }
        self.user_signin_tokens = rewritten;
        self.find_session_of(session.user_id)
    }

    fn delete_sessions(&mut self, token: &[u8; 32]) -> (reply: StoreReply)
        requires
            old(self)@.wf(),
        ensures
            final(self)@.wf(),
            (final(self)@, reply@) == old(self)@.delete_sessions(token@),
    {
        let ghost keep = lacks_token(token@);
        let ghost drop = has_token(token@);
        let ghost rows = self@.user_signin_tokens;
        let mut kept: Vec<UserSessionEntry> = Vec::new();
        let mut deleted: usize = 0;
        let mut i: usize = 0;
        proof {
            lemma_scan_start(rows, keep);
            lemma_scan_start(rows, drop);
            assert(session_rows(kept@) =~= Seq::empty());
        }
        while i < self.user_signin_tokens.len()
            invariant
                i <= self.user_signin_tokens.len(),
                rows == self@.user_signin_tokens,
                self@.wf(),
                keep == lacks_token(token@),
                drop == has_token(token@),
                session_rows(kept@) == rows.take(i as int).filter(keep),
                deleted == rows.take(i as int).filter(drop).len(),
                deleted <= i,
                kept.len() <= i,
                forall|k: int|
                    0 <= k < kept.len() ==> 0 < (#[trigger] kept[k]).token_id
                        <= self@.last_token_id,
                forall|k: int, l: int|
                    0 <= k < l < kept.len() ==> (#[trigger] kept[k]).token_id < (
                    #[trigger] kept[l]).token_id,
                forall|k: int, j: int|
                    0 <= k < kept.len() && i <= j < rows.len() ==> (#[trigger] kept[k]).token_id
                        < (#[trigger] rows[j]).token_id,
            decreases self.user_signin_tokens.len() - i,
        {
            proof {
                lemma_scan_step(rows, keep, i as int);
                lemma_scan_step(rows, drop, i as int);
            }
            if same_token(&self.user_signin_tokens[i].session_token, token) {
                deleted += 1;
            } else {
                let row = self.user_signin_tokens[i].clone();
                assert(row@ == rows[i as int]);
                kept.push(row);
                assert(session_rows(kept@) =~= rows.take(i as int).filter(keep).push(
                    rows[i as int],
                ));
            }
            i += 1;
        }
        proof {
            lemma_scan_end(rows, keep);
            lemma_scan_end(rows, drop);
        }
        self.user_signin_tokens = kept;
        StoreReply::Deleted(deleted)
    }

    fn find_chatroom_by_human_id(&self, chatroom_id: &String, password: &Option<String>) -> (reply:
        StoreReply)
        ensures
            reply@ == StoreView::found_chatroom(
                self@.chatrooms.filter(
                    chatroom_named(chatroom_id@, crate::models::text_view(*password)),
                ),
            ),
    {
        let ghost pred = chatroom_named(chatroom_id@, crate::models::text_view(*password));
        let mut i: usize = 0;
        proof {
            lemma_scan_start(self@.chatrooms, pred);
        }
        while i < self.chatrooms.len()
            invariant
                i <= self.chatrooms.len(),
                self@.chatrooms.take(i as int).filter(pred).len() == 0,
                pred == chatroom_named(chatroom_id@, crate::models::text_view(*password)),
            decreases self.chatrooms.len() - i,
        {
            proof {
                lemma_scan_step(self@.chatrooms, pred, i as int);
            }
            let admitted = match password {
                Some(given) => same_text(&self.chatrooms[i].chatroom_password, given),
                None => true,
            };
            if self.chatrooms[i].chatroom_id == *chatroom_id && admitted {
                proof {
                    lemma_first_match(self@.chatrooms, pred, i as int);
                }
                return StoreReply::Chatroom(self.chatrooms[i].clone());
            }
            i += 1;
        }
        proof {
            lemma_scan_end(self@.chatrooms, pred);
        }
        StoreReply::NotFound
    }

    fn find_chatroom_by_id(&self, id: i32) -> (reply: StoreReply)
        ensures
            reply@ == StoreView::found_chatroom(self@.chatrooms.filter(chatroom_is(id))),
    {
        let ghost pred = chatroom_is(id);
        let mut i: usize = 0;
        proof {
            lemma_scan_start(self@.chatrooms, pred);
        }
        while i < self.chatrooms.len()
            invariant
                i <= self.chatrooms.len(),
                self@.chatrooms.take(i as int).filter(pred).len() == 0,
                pred == chatroom_is(id),
            decreases self.chatrooms.len() - i,
        {
            proof {
                lemma_scan_step(self@.chatrooms, pred, i as int);
            }
            if self.chatrooms[i].id == id {
                proof {
                    lemma_first_match(self@.chatrooms, pred, i as int);
                }
                return StoreReply::Chatroom(self.chatrooms[i].clone());
            }
            i += 1;
        }
        proof {
            lemma_scan_end(self@.chatrooms, pred);
        }
        StoreReply::NotFound
    }

    fn insert_chatroom(&mut self, chatroom: NewChatroom) -> (reply: StoreReply)
        requires
            old(self)@.wf(),
        ensures
            final(self)@.wf(),
            (final(self)@, reply@) == old(self)@.insert_chatroom(chatroom@),
    {
        if self.last_chatroom_id >= i32::MAX {
            return StoreReply::Failed;
        }
        let id: i32 = self.last_chatroom_id + 1;
        let row = ChatroomEntry {
            id,
            chatroom_id: chatroom.chatroom_id,
            chatroom_name: chatroom.chatroom_name,
            chatroom_password: chatroom.chatroom_password,
            participants: present_slots(&chatroom.participants),
            is_direct_message: chatroom.is_direct_message,
            last_message_id: chatroom.last_message_id,
        };
        let reply = StoreReply::Chatroom(row.clone());
        self.chatrooms.push(row);
        self.last_chatroom_id = id;
        proof {
            assert(self@.chatrooms =~= old(self)@.chatrooms.push(row@));
        }
        reply
    }

    /// Runs an operation to its end: answers what it asks until it is done.
    pub fn run(&mut self, progress: Progress) -> (result: Result<ApiResponse, ApiError>)
        requires
            old(self)@.wf(),
        ensures
            final(self)@.wf(),
            (final(self)@, result_view(result)) == outcome(old(self)@, progress@),
    {
        let ghost asked = progress@;
        let mut current = progress;
        loop
            invariant
                self@.wf(),
                asked == progress@,
                outcome(self@, current@) == outcome(old(self)@, asked),
            decreases current@.remaining(),
        {
            match current {
                Progress::Done(result) => {
                    return result;
                },
                Progress::Ask(operation, request) => {
                    let reply = self.perform(request);
                    current = operation.resume(reply);
                },
            }
        }
    }

    /// Answers a request. The store in memory is always at hand: it never
    /// replies [`StoreReply::Unavailable`].
    pub fn perform(&mut self, request: StoreRequest) -> (reply: StoreReply)
        requires
            old(self)@.wf(),
        ensures
            final(self)@.wf(),
            (final(self)@, reply@) == old(self)@.perform(request@),
    {
        match request {
            StoreRequest::CountAccountsByUsername { username } => {
                let n = self.count_accounts_named(&username);
                StoreReply::Count(n as i64)
            },
            StoreRequest::FindAccountByCredentials { username, password } => {
                self.find_account_by_credentials(&username, &password)
            },
            StoreRequest::FindAccountById { id } => self.find_account_by_id(id),
            StoreRequest::InsertAccount { account } => self.insert_account(account),
            StoreRequest::UpdateAccountMembership { id, chatrooms_joined } => {
                self.update_membership(id, chatrooms_joined)
            },
            StoreRequest::CountSessionsForAccount { user_id } => {
                let n = self.count_sessions_of(user_id);
                StoreReply::Count(n as i64)
            },
            StoreRequest::CountSessions { user_id, session_token } => {
                let n = self.count_sessions_matching(user_id, &session_token);
                StoreReply::Count(n as i64)
            },
            StoreRequest::InsertSession { session } => self.insert_session(session),
            StoreRequest::UpdateSession { session } => self.update_session(session),
            StoreRequest::DeleteSessionByToken { session_token } => {
                self.delete_sessions(&session_token)
            },
            StoreRequest::FindChatroomByHumanId { chatroom_id, chatroom_password } => {
                self.find_chatroom_by_human_id(&chatroom_id, &chatroom_password)
            },
            StoreRequest::FindChatroomById { id } => self.find_chatroom_by_id(id),
            StoreRequest::InsertChatroom { chatroom } => self.insert_chatroom(chatroom),
        }
    }
}

} // verus!
