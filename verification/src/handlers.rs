//! Request handlers: the adapter between decoded transport-level requests
//! and the record store. Each handler calls one store operation and shapes
//! the outcome — the payload to serialize, the error body, the status code.
//! Transport concerns (routing, JSON, the server itself) stay outside.

use vstd::prelude::*;

use crate::store::has_id;
use crate::store::index_of_id;
use crate::store::like_once;
use crate::store::liked;
use crate::store::StoreError;
use crate::store::Tweet;
use crate::store::TweetStore;

verus! {

use vstd::string::StringExecFns;

/// The decoded body of a request that creates a record.
pub struct TweetRequest {
    pub author: String,
    pub message: String,
}

/// The structured error body sent back when a like request fails: the
/// offending identifier and a human-readable message.
pub struct ErrNoId {
    pub id: String,
    pub err: String,
}

/// Why a like request failed, carrying the requested identifier.
#[derive(Debug)]
pub enum LikeError {
    /// No record carries the requested identifier.
    NotFound { id: String },
    /// The record exists but its like counter is already at its maximum.
    CounterFull { id: String },
}

impl LikeError {
    /// The requested identifier this error carries.
    pub open spec fn spec_id(&self) -> Seq<char> {
        match self {
            LikeError::NotFound { id } => id@,
            LikeError::CounterFull { id } => id@,
        }
    }

    /// The single mapping from error kind to response status code: a missing
    /// identifier is a not-found condition, a full counter a conflict.
    pub fn status_code(&self) -> (code: u16)
        ensures
            self is NotFound ==> code == 404,
            self is CounterFull ==> code == 409,
    {
        match self {
            LikeError::NotFound { .. } => 404,
            LikeError::CounterFull { .. } => 409,
        }
    }

    /// The structured error body for this error.
    pub fn error_body(&self) -> (b: ErrNoId)
        ensures
            b.id@ == self.spec_id(),
            self is NotFound ==> b.err@ == "Tweet not found"@,
            self is CounterFull ==> b.err@ == "Like counter at maximum"@,
    {
        match self {
            LikeError::NotFound { id } => ErrNoId {
                id: id.clone(),
                err: String::from_str("Tweet not found"),
            },
            LikeError::CounterFull { id } => ErrNoId {
                id: id.clone(),
                err: String::from_str("Like counter at maximum"),
            },
        }
    }
}

/// The list request: a snapshot of all records, in insertion order, to be
/// rendered as an array with a success status. No error path.
pub fn handle_tweets(state: &TweetStore) -> (r: Vec<Tweet>)
    ensures
        r@ == state@,
{
    state.list()
}

/// The create request: make a record from the decoded body and return it, to
/// be rendered with a "created" status. Beyond structural decoding — which
/// happens before this point — nothing is validated: an empty author or
/// message is stored as given.
pub fn post_tweet(state: &mut TweetStore, req: TweetRequest) -> (r: Tweet)
    requires
        old(state).wf(),
        old(state)@.len() <= usize::MAX - 37,
    ensures
        final(state).wf(),
        final(state)@ == old(state)@.push(r),
        r.author == req.author,
        r.message == req.message,
        r.likes == 0,
        r.id@.len() >= 36,
        !has_id(old(state)@, r.id@),
{
    state.append(req.author, req.message)
}

/// The like request: increment the like counter of the record carrying `id`
/// by one and return the updated record. When no record carries `id`, the
/// result is a not-found error carrying exactly that identifier; when the
/// counter is already at its maximum, a conflict error carrying it; either
/// way the store is left untouched.
pub fn like_tweet(state: &mut TweetStore, id: String) -> (r: Result<Tweet, LikeError>)
    requires
        old(state).wf(),
    ensures
        final(state).wf(),
        !has_id(old(state)@, id@) ==> r == Result::<Tweet, LikeError>::Err(
            LikeError::NotFound { id },
        ) && final(state)@ == old(state)@,
        has_id(old(state)@, id@) ==> ({
            let i = index_of_id(old(state)@, id@);
            if old(state)@[i].likes < 255 {
                &&& r == Result::<Tweet, LikeError>::Ok(liked(old(state)@[i]))
                &&& final(state)@ == like_once(old(state)@, i)
            } else {
                &&& r == Result::<Tweet, LikeError>::Err(LikeError::CounterFull { id })
                &&& final(state)@ == old(state)@
            }
        }),
{
    match state.increment_likes(&id) {
        Ok(t) => Ok(t),
        Err(StoreError::NotFound) => Err(LikeError::NotFound { id }),
        Err(StoreError::CounterFull) => Err(LikeError::CounterFull { id }),
    }
}

} // verus!
