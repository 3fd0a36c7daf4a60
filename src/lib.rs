//! An in-memory store of books keyed by an identifier, and the dispatcher that
//! turns decoded requests into store operations and tagged responses.

pub mod book;
pub mod error;
pub mod laws;
pub mod message;
pub mod response;
pub mod state;

pub use book::{Book, BookPayload};
pub use error::MyError;
pub use message::Message;
pub use response::{Outcome, Response};
pub use state::AppState;
