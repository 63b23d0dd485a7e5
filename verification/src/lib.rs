//! An in-memory store of short text posts ("tweets") together with the
//! request-handling layer built on top of it: identifier lookup, like
//! counting, and the mapping from store outcomes to response payloads and
//! status codes.

pub mod handlers;
pub mod store;

pub use handlers::ErrNoId;
pub use handlers::LikeError;
pub use handlers::TweetRequest;
pub use store::StoreError;
pub use store::Timestamp;
pub use store::Tweet;
pub use store::TweetStore;
