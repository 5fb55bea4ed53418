//! What the request handlers decide, apart from the requests themselves.

pub mod lair_insertion;
pub mod login;
pub mod registrations;

pub use lair_insertion::{basic_authentication, LairInsertionError, PublishError};
pub use login::FetchError;
pub use registrations::{error_chain_fmt, SubscribeError};
