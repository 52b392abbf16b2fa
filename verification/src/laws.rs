//! What holds of the operations taken together.
//!
//! The laws speak of the spec functions that the operations' contracts use:
//! a law about "after a login" is a law about the store that
//! [`login_outcome`] yields.

use vstd::prelude::*;
use crate::api::user_account_control::{
    create_outcome, known_outcome, login_outcome, logout_outcome, may_see, register_outcome,
    session_is_valid, session_outcome,
};
use crate::error::ApiError;
use crate::models::UserSessionView;
use crate::operation::{lemma_resume_decreases, outcome, ProgressView};
use crate::query::{
    lemma_count_after_filter, lemma_count_rewritten, lemma_filter_keeps_order,
    lemma_filter_twice, lemma_match_is_row, lemma_no_match, lemma_only_match,
};
use crate::store::{
    account_is, chatroom_is, holds_token, joining, lacks_token, named, owned_by, rotating,
    with_credentials, StoreRequestView, StoreView,
};
use crate::{FetchChatroomResponseView, UserInformationView};

verus! {

/// No account holds more than one session, and every session belongs to an
/// account id that was handed out.
pub open spec fn single_session(store: StoreView) -> bool {
    &&& forall|user_id: i32|
        (#[trigger] store.user_signin_tokens.filter(owned_by(user_id))).len() <= 1
    &&& forall|i: int|
        0 <= i < store.user_signin_tokens.len() ==> 0 < (
        #[trigger] store.user_signin_tokens[i]).user_id <= store.last_user_id
}

/// The first row that a query yields is a row of the table and matches.
proof fn lemma_first_is_row<T>(rows: Seq<T>, pred: spec_fn(T) -> bool) -> (i: int)
    requires
        rows.filter(pred).len() > 0,
    ensures
        0 <= i < rows.len(),
        rows[i] == rows.filter(pred)[0],
        pred(rows[i]),
{
    lemma_match_is_row(rows, pred, 0);
    choose|i: int| 0 <= i < rows.len() && #[trigger] rows[i] == rows.filter(pred)[0]
}

/// In a well-formed store the account with an id is the only one with it.
proof fn lemma_account_by_id(store: StoreView, i: int)
    requires
        store.wf(),
        0 <= i < store.users.len(),
    ensures
        store.users.filter(account_is(store.users[i].id)) == seq![store.users[i]],
{
    let id = store.users[i].id;
    assert forall|j: int| 0 <= j < store.users.len() && j != i implies !account_is(id)(
        #[trigger] store.users[j],
    ) by {
        if j < i {
            assert(store.users[j].id < store.users[i].id);
        } else {
            assert(store.users[i].id < store.users[j].id);
        }
    }
    lemma_only_match(store.users, account_is(id), i);
}

/// Whatever is asked of a well-formed store, it stays well-formed.
pub proof fn perform_keeps_wf(store: StoreView, request: StoreRequestView)
    requires
        store.wf(),
    ensures
        store.perform(request).0.wf(),
{
    let after = store.perform(request).0;
    match request {
        StoreRequestView::InsertAccount { account } => {
            lemma_no_match(store.users, named(account.username));
        },
        StoreRequestView::UpdateAccountMembership { id, chatrooms_joined } => {
            let rewrite = joining(id, chatrooms_joined);
            assert forall|i: int| 0 <= i < after.users.len() implies (#[trigger] after.users[i]).id
                == store.users[i].id && after.users[i].username == store.users[i].username by {
                assert(after.users[i] == rewrite(store.users[i]));
            }
        },
        StoreRequestView::UpdateSession { session } => {
            let rewrite = rotating(session.user_id, session.session_token);
            assert forall|i: int| 0 <= i < after.user_signin_tokens.len() implies (
            #[trigger] after.user_signin_tokens[i]).token_id
                == store.user_signin_tokens[i].token_id by {
                assert(after.user_signin_tokens[i] == rewrite(store.user_signin_tokens[i]));
            }
        },
        StoreRequestView::DeleteSessionByToken { session_token } => {
            let rows = store.user_signin_tokens;
            let keep = lacks_token(session_token);
            let key = |row: UserSessionView| row.token_id as int;
            lemma_filter_keeps_order(rows, keep, key);
            rows.lemma_filter_len(keep);
            assert forall|k: int| 0 <= k < after.user_signin_tokens.len() implies 0 < (
            #[trigger] after.user_signin_tokens[k]).token_id <= after.last_token_id by {
                lemma_match_is_row(rows, keep, k);
            }
            assert forall|i: int, j: int| 0 <= i < j < after.user_signin_tokens.len() implies (
            #[trigger] after.user_signin_tokens[i]).token_id < (
            #[trigger] after.user_signin_tokens[j]).token_id by {
                assert(key(after.user_signin_tokens[i]) < key(after.user_signin_tokens[j]));
            }
        },
        _ => {},
    }
}

/// An operation that is run against a well-formed store leaves it
/// well-formed, however it ends.
pub proof fn outcome_keeps_wf(store: StoreView, progress: ProgressView)
    requires
        store.wf(),
    ensures
        outcome(store, progress).0.wf(),
    decreases progress.remaining(),
{
    match progress {
        ProgressView::Done(_) => {},
        ProgressView::Ask(operation, request) => {
            perform_keeps_wf(store, request);
            let (next, reply) = store.perform(request);
            lemma_resume_decreases(operation, reply);
            outcome_keeps_wf(next, operation.resume(reply));
        },
    }
}

/// A bulk fetch discloses a chatroom only under a valid session and only
/// where the caller is among its participants; what it discloses are the
/// chatrooms asked for, in that order.
pub proof fn bulk_fetch_discloses_to_members_only(
    store: StoreView,
    user_id: i32,
    session_token: Seq<u8>,
    chatroom_uids: Seq<i32>,
)
    requires
        known_outcome(store, user_id, session_token, chatroom_uids) is Ok,
    ensures
        session_is_valid(store, user_id, session_token),
        ({
            let chatrooms = known_outcome(store, user_id, session_token, chatroom_uids)->Ok_0;
            &&& chatrooms.len() == chatroom_uids.len()
            &&& forall|k: int|
                0 <= k < chatrooms.len() ==> (#[trigger] chatrooms[k]).chatroom_uid
                    == chatroom_uids[k] && chatrooms[k].participants.contains(Some(user_id))
        }),
{
    let chatrooms = known_outcome(store, user_id, session_token, chatroom_uids)->Ok_0;
    assert forall|k: int| 0 <= k < chatrooms.len() implies (#[trigger] chatrooms[k]).chatroom_uid
        == chatroom_uids[k] && chatrooms[k].participants.contains(Some(user_id)) by {
        assert(may_see(store, user_id, chatroom_uids[k]));
        lemma_match_is_row(store.chatrooms, chatroom_is(chatroom_uids[k]), 0);
    }
}

/// An empty store is well-formed and holds no session.
pub proof fn empty_store_is_sound(today: chrono::NaiveDate)
    ensures
        StoreView::empty(today).wf(),
        single_session(StoreView::empty(today)),
{
    let store = StoreView::empty(today);
    assert forall|user_id: i32|
        (#[trigger] store.user_signin_tokens.filter(owned_by(user_id))).len() <= 1 by {
        store.user_signin_tokens.lemma_filter_len(owned_by(user_id));
    }
}

/// Registration keeps a store well-formed, and keeps it true that no
/// account holds more than one session.
pub proof fn register_keeps_single_session(
    store: StoreView,
    username: Seq<char>,
    password: Seq<char>,
    email: Seq<char>,
    session_token: Seq<u8>,
)
    requires
        store.wf(),
        single_session(store),
    ensures
        register_outcome(store, username, password, email, session_token).0.wf(),
        single_session(register_outcome(store, username, password, email, session_token).0),
{
    let after = register_outcome(store, username, password, email, session_token).0;
    if store.users.filter(named(username)).len() == 0 && store.last_user_id < i32::MAX {
        lemma_no_match(store.users, named(username));
        let user_id = (store.last_user_id + 1) as i32;
        let rows = store.user_signin_tokens;
        if store.last_token_id < i32::MAX {
            let row = after.user_signin_tokens[rows.len() as int];
            assert(after.user_signin_tokens == rows.push(row));
            assert forall|id: i32|
                (#[trigger] after.user_signin_tokens.filter(owned_by(id))).len() <= 1 by {
                Seq::lemma_filter_len_push(rows, owned_by(id), row);
                assert(rows.filter(owned_by(id)).len() <= 1);
                if id == user_id {
                    lemma_no_match(rows, owned_by(id));
                }
            }
        } else {
            assert(after.user_signin_tokens == rows);
            assert forall|id: i32|
                (#[trigger] after.user_signin_tokens.filter(owned_by(id))).len() <= 1 by {
                assert(rows.filter(owned_by(id)).len() <= 1);
            }
        }
    }
}

/// Login keeps a store well-formed, and keeps it true that no account holds
/// more than one session.
pub proof fn login_keeps_single_session(
    store: StoreView,
    username: Seq<char>,
    password: Seq<char>,
    session_token: Seq<u8>,
)
    requires
        store.wf(),
        single_session(store),
    ensures
        login_outcome(store, username, password, session_token).0.wf(),
        single_session(login_outcome(store, username, password, session_token).0),
{
    let after = login_outcome(store, username, password, session_token).0;
    let rows = store.user_signin_tokens;
    let matches = store.users.filter(with_credentials(username, password));
    if matches.len() > 0 {
        let i = lemma_first_is_row(store.users, with_credentials(username, password));
        let account = store.users[i];
        if rows.filter(owned_by(account.id)).len() != 0 {
            let rewrite = rotating(account.id, session_token);
            assert(after.user_signin_tokens == rows.map_values(rewrite));
            assert forall|id: i32|
                (#[trigger] after.user_signin_tokens.filter(owned_by(id))).len() <= 1 by {
                lemma_count_rewritten(rows, rewrite, owned_by(id), owned_by(id));
                assert(rows.filter(owned_by(id)).len() <= 1);
            }
        } else if store.last_token_id < i32::MAX {
            let row = after.user_signin_tokens[rows.len() as int];
            assert(after.user_signin_tokens == rows.push(row));
            assert forall|id: i32|
                (#[trigger] after.user_signin_tokens.filter(owned_by(id))).len() <= 1 by {
                Seq::lemma_filter_len_push(rows, owned_by(id), row);
                assert(rows.filter(owned_by(id)).len() <= 1);
            }
        } else {
            assert(after == store);
        }
    } else {
        assert(after == store);
    }
}

/// Logout keeps it true that no account holds more than one session.
pub proof fn logout_keeps_single_session(store: StoreView, session_token: Seq<u8>)
    requires
        single_session(store),
    ensures
        single_session(logout_outcome(store, session_token)),
{
    let after = logout_outcome(store, session_token);
    let rows = store.user_signin_tokens;
    let keep = lacks_token(session_token);
    assert forall|id: i32|
        (#[trigger] after.user_signin_tokens.filter(owned_by(id))).len() <= 1 by {
        lemma_count_after_filter(rows, keep, owned_by(id));
        assert(rows.filter(owned_by(id)).len() <= 1);
    }
    assert forall|k: int| 0 <= k < after.user_signin_tokens.len() implies 0 < (
    #[trigger] after.user_signin_tokens[k]).user_id <= after.last_user_id by {
        lemma_match_is_row(rows, keep, k);
    }
}

/// The creation of a chatroom leaves the sessions as they are.
pub proof fn create_keeps_sessions(
    store: StoreView,
    user_id: i32,
    chatroom_name: Seq<char>,
    chatroom_passw: Option<Seq<char>>,
    chatroom_id: Seq<char>,
)
    ensures
        create_outcome(
            store,
            user_id,
            chatroom_name,
            chatroom_passw,
            chatroom_id,
        ).0.user_signin_tokens == store.user_signin_tokens,
        create_outcome(store, user_id, chatroom_name, chatroom_passw, chatroom_id).0.last_user_id
            == store.last_user_id,
{
}

/// A username that no account bears can be registered, unless the store has
/// run out of ids; once it is registered, registering it again is a conflict
/// and changes nothing.
pub proof fn register_succeeds_once(
    store: StoreView,
    username: Seq<char>,
    password: Seq<char>,
    email: Seq<char>,
    session_token: Seq<u8>,
    other_password: Seq<char>,
    other_email: Seq<char>,
    other_token: Seq<u8>,
)
    requires
        store.wf(),
        store.users.filter(named(username)).len() == 0,
        store.last_user_id < i32::MAX,
        store.last_token_id < i32::MAX,
    ensures
        register_outcome(store, username, password, email, session_token).1 is Ok,
        ({
            let after = register_outcome(store, username, password, email, session_token).0;
            register_outcome(after, username, other_password, other_email, other_token) == (
                after,
                Err::<crate::LoginResponseView, ApiError>(ApiError::Conflict),
            )
        }),
{
    let after = register_outcome(store, username, password, email, session_token).0;
    let row = after.users[store.users.len() as int];
    assert(after.users == store.users.push(row));
    Seq::lemma_filter_len_push(store.users, named(username), row);
}

/// Whatever the store holds, registering a username that an account bears
/// is a conflict and changes nothing.
pub proof fn register_twice_conflicts(
    store: StoreView,
    username: Seq<char>,
    password: Seq<char>,
    email: Seq<char>,
    session_token: Seq<u8>,
)
    requires
        store.users.filter(named(username)).len() != 0,
    ensures
        register_outcome(store, username, password, email, session_token) == (
            store,
            Err::<crate::LoginResponseView, ApiError>(ApiError::Conflict),
        ),
{
}

/// After a registration the new account's session is valid with the token
/// that was returned, and with no other.
pub proof fn register_opens_session(
    store: StoreView,
    username: Seq<char>,
    password: Seq<char>,
    email: Seq<char>,
    session_token: Seq<u8>,
    other_token: Seq<u8>,
)
    requires
        store.wf(),
        single_session(store),
        register_outcome(store, username, password, email, session_token).1 is Ok,
    ensures
        ({
            let (after, result) = register_outcome(store, username, password, email, session_token);
            &&& session_outcome(after, result->Ok_0.user_id, session_token) == Ok::<
                UserInformationView,
                ApiError,
            >(UserInformationView { username, chatrooms_joined: Seq::empty() })
            &&& other_token != session_token ==> session_outcome(
                after,
                result->Ok_0.user_id,
                other_token,
            ) == Err::<UserInformationView, ApiError>(ApiError::InvalidSession)
        }),
{
    let (after, result) = register_outcome(store, username, password, email, session_token);
    let user_id = result->Ok_0.user_id;
    register_keeps_single_session(store, username, password, email, session_token);
    let rows = store.user_signin_tokens;
    let row = after.user_signin_tokens[rows.len() as int];
    assert(after.user_signin_tokens == rows.push(row));
    lemma_no_match(rows, owned_by(user_id));
    lemma_no_match(rows, holds_token(user_id, session_token));
    lemma_no_match(rows, holds_token(user_id, other_token));
    Seq::lemma_filter_len_push(rows, holds_token(user_id, session_token), row);
    Seq::lemma_filter_len_push(rows, holds_token(user_id, other_token), row);
    let account = after.users[store.users.len() as int];
    assert(after.users == store.users.push(account));
    lemma_account_by_id(after, store.users.len() as int);
}

/// After a login the account's session is valid with the token that was
/// returned, provided that the account held at most one session before; with
/// any other token it is invalid.
pub proof fn login_opens_session(
    store: StoreView,
    username: Seq<char>,
    password: Seq<char>,
    session_token: Seq<u8>,
    other_token: Seq<u8>,
)
    requires
        store.wf(),
        login_outcome(store, username, password, session_token).1 is Ok,
    ensures
        ({
            let (after, result) = login_outcome(store, username, password, session_token);
            let login = result->Ok_0;
            &&& store.user_signin_tokens.filter(owned_by(login.user_id)).len() <= 1
                ==> session_outcome(after, login.user_id, session_token) == Ok::<
                UserInformationView,
                ApiError,
            >(UserInformationView { username, chatrooms_joined: login.chatrooms_joined })
            &&& other_token != session_token ==> session_outcome(after, login.user_id, other_token)
                == Err::<UserInformationView, ApiError>(ApiError::InvalidSession)
        }),
{
    let (after, result) = login_outcome(store, username, password, session_token);
    let login = result->Ok_0;
    let user_id = login.user_id;
    let rows = store.user_signin_tokens;
    let i = lemma_first_is_row(store.users, with_credentials(username, password));
    assert(store.users[i].id == user_id);
    assert(after.users == store.users);
    lemma_account_by_id(store, i);
    let valid = holds_token(user_id, session_token);
    let stale = holds_token(user_id, other_token);
    if rows.filter(owned_by(user_id)).len() != 0 {
        let rewrite = rotating(user_id, session_token);
        assert(after.user_signin_tokens == rows.map_values(rewrite));
        lemma_count_rewritten(rows, rewrite, owned_by(user_id), valid);
        if other_token != session_token {
            assert forall|k: int| 0 <= k < after.user_signin_tokens.len() implies !stale(
                #[trigger] after.user_signin_tokens[k],
            ) by {
                assert(after.user_signin_tokens[k] == rewrite(rows[k]));
            }
            lemma_no_match(after.user_signin_tokens, stale);
        }
    } else {
        let row = after.user_signin_tokens[rows.len() as int];
        assert(after.user_signin_tokens == rows.push(row));
        lemma_no_match(rows, owned_by(user_id));
        lemma_no_match(rows, valid);
        lemma_no_match(rows, stale);
        Seq::lemma_filter_len_push(rows, valid, row);
        Seq::lemma_filter_len_push(rows, stale, row);
    }
}

/// A second login of the same account succeeds and makes the token of the
/// first invalid, where the two tokens differ.
pub proof fn login_again_invalidates(
    store: StoreView,
    username: Seq<char>,
    password: Seq<char>,
    first_token: Seq<u8>,
    second_token: Seq<u8>,
)
    requires
        store.wf(),
        login_outcome(store, username, password, first_token).1 is Ok,
        first_token != second_token,
    ensures
        ({
            let (between, first) = login_outcome(store, username, password, first_token);
            let (after, second) = login_outcome(between, username, password, second_token);
            &&& second is Ok
            &&& second->Ok_0.user_id == first->Ok_0.user_id
            &&& session_outcome(after, first->Ok_0.user_id, first_token) == Err::<
                UserInformationView,
                ApiError,
            >(ApiError::InvalidSession)
        }),
{
    let (between, first) = login_outcome(store, username, password, first_token);
    let user_id = first->Ok_0.user_id;
    let rows = store.user_signin_tokens;
    assert(between.users == store.users);
    if rows.filter(owned_by(user_id)).len() != 0 {
        lemma_count_rewritten(
            rows,
            rotating(user_id, first_token),
            owned_by(user_id),
            owned_by(user_id),
        );
    } else {
        let row = between.user_signin_tokens[rows.len() as int];
        assert(between.user_signin_tokens == rows.push(row));
        Seq::lemma_filter_len_push(rows, owned_by(user_id), row);
    }
    assert(between.user_signin_tokens.filter(owned_by(user_id)).len() != 0);
    let (after, second) = login_outcome(between, username, password, second_token);
    assert(second is Ok);
    let stale = holds_token(user_id, first_token);
    let rewrite = rotating(user_id, second_token);
    assert(after.user_signin_tokens == between.user_signin_tokens.map_values(rewrite));
    assert forall|k: int| 0 <= k < after.user_signin_tokens.len() implies !stale(
        #[trigger] after.user_signin_tokens[k],
    ) by {
        assert(after.user_signin_tokens[k] == rewrite(between.user_signin_tokens[k]));
    }
    lemma_no_match(after.user_signin_tokens, stale);
}

/// After a logout no account's session is valid with that token, and a
/// second logout with it changes nothing more.
pub proof fn logout_ends_session(store: StoreView, session_token: Seq<u8>, user_id: i32)
    ensures
        session_outcome(logout_outcome(store, session_token), user_id, session_token) == Err::<
            UserInformationView,
            ApiError,
        >(ApiError::InvalidSession),
        logout_outcome(logout_outcome(store, session_token), session_token) == logout_outcome(
            store,
            session_token,
        ),
{
    let after = logout_outcome(store, session_token);
    let rows = store.user_signin_tokens;
    let keep = lacks_token(session_token);
    assert forall|k: int| 0 <= k < after.user_signin_tokens.len() implies !holds_token(
        user_id,
        session_token,
    )(#[trigger] after.user_signin_tokens[k]) by {
        lemma_match_is_row(rows, keep, k);
    }
    lemma_no_match(after.user_signin_tokens, holds_token(user_id, session_token));
    lemma_filter_twice(rows, keep);
}

/// A chatroom that was created lists its creator and nobody else. Fetched by
/// its internal id, it is disclosed to its creator under a valid session, and
/// refused to every other account.
pub proof fn created_chatroom_is_its_creators(
    store: StoreView,
    creator: i32,
    chatroom_name: Seq<char>,
    chatroom_passw: Option<Seq<char>>,
    chatroom_id: Seq<char>,
    caller: i32,
    session_token: Seq<u8>,
)
    requires
        store.wf(),
        create_outcome(store, creator, chatroom_name, chatroom_passw, chatroom_id).1 is Ok,
    ensures
        ({
            let (after, result) = create_outcome(
                store,
                creator,
                chatroom_name,
                chatroom_passw,
                chatroom_id,
            );
            let chatroom = result->Ok_0;
            &&& chatroom.participants == seq![Some(creator)]
            &&& chatroom.chatroom_id == chatroom_id
            &&& chatroom.chatroom_name == chatroom_name
            &&& session_is_valid(after, caller, session_token) == session_is_valid(
                store,
                caller,
                session_token,
            )
            &&& caller == creator && session_is_valid(after, caller, session_token)
                ==> known_outcome(after, caller, session_token, seq![chatroom.chatroom_uid])
                == Ok::<Seq<FetchChatroomResponseView>, ApiError>(seq![chatroom])
            &&& caller != creator ==> known_outcome(
                after,
                caller,
                session_token,
                seq![chatroom.chatroom_uid],
            ) == Err::<Seq<FetchChatroomResponseView>, ApiError>(ApiError::Forbidden)
        }),
{
    let (after, result) = create_outcome(store, creator, chatroom_name, chatroom_passw, chatroom_id);
    let chatroom = result->Ok_0;
    let uid = chatroom.chatroom_uid;
    let at = store.chatrooms.len() as int;
    let row = after.chatrooms[at];
    assert(after.chatrooms == store.chatrooms.push(row));
    assert(crate::models::present(seq![creator]) =~= seq![Some(creator)]);
    assert(row.participants == seq![Some(creator)]);
    assert forall|j: int| 0 <= j < after.chatrooms.len() && j != at implies !chatroom_is(uid)(
        #[trigger] after.chatrooms[j],
    ) by {
        assert(after.chatrooms[j] == store.chatrooms[j]);
    }
    lemma_only_match(after.chatrooms, chatroom_is(uid), at);
    let uids = seq![uid];
    assert(uids[0] == uid);
    if caller == creator {
        assert(row.participants[0] == Some(caller));
        assert(may_see(after, caller, uid));
        assert(crate::api::user_account_control::disclosures(after, uids) =~= seq![chatroom]);
    } else {
        assert(!may_see(after, caller, uids[0]));
    }
}

} // verus!
