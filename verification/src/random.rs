//! Random values: session tokens and the public ids of chatrooms.
//!
//! The two functions at the top call the `rand` crate and are trusted: Verus
//! takes their contracts as given.

use vstd::prelude::*;
use rand::Rng;

verus! {

/// Number of characters in the public id of a chatroom.
pub const CHATROOM_ID_LEN: usize = 10;

/// First character that a chatroom id may hold (the space).
pub const CHATROOM_ID_FIRST: char = ' ';

/// Last character that a chatroom id may hold (the tilde).
pub const CHATROOM_ID_LAST: char = '~';

/// A fresh session token.
///
/// Trusted: fills 32 bytes through `rand::Rng::fill` on the thread's generator
/// `rand::rng()`. Nothing is claimed of the bytes; in particular two tokens
/// may be equal.
#[verifier::external_body]
pub fn generate_session_token() -> (token: [u8; 32]) {
    let mut rng = rand::rng();
    let mut custom_identifier = [0_u8; 32];
    rng.fill(&mut custom_identifier);
    custom_identifier
}

/// `count` characters, each drawn from the half-open range `low..high`.
///
/// Trusted: builds `rand::distr::Uniform::new(low, high)`, which fails only
/// on an empty range (excluded here), and collects `count` samples of
/// `rand::Rng::sample_iter` on the thread's generator. `Uniform::new` samples
/// strictly below `high`.
#[verifier::external_body]
fn sample_chars(low: char, high: char, count: usize) -> (s: String)
    requires
        low < high,
    ensures
        s@.len() == count,
        forall|i: int| 0 <= i < s@.len() ==> low <= #[trigger] s@[i] < high,
{
    let range = rand::distr::Uniform::new(low, high).unwrap();
    rand::rng().sample_iter(&range).take(count).collect()
}

/// Whether `id` has the shape of a chatroom's public id: ten printable ASCII
/// characters.
pub open spec fn is_chatroom_id(id: Seq<char>) -> bool {
    &&& id.len() == CHATROOM_ID_LEN
    &&& forall|i: int|
        0 <= i < id.len() ==> CHATROOM_ID_FIRST <= #[trigger] id[i] <= CHATROOM_ID_LAST
}

/// A fresh public id for a chatroom. Ids are not checked against those in
/// use: two chatrooms may get the same one.
pub fn generate_chatroom_id() -> (id: String)
    ensures
        is_chatroom_id(id@),
{
    sample_chars(CHATROOM_ID_FIRST, CHATROOM_ID_LAST, CHATROOM_ID_LEN)
}

} // verus!
