use vstd::prelude::*;

use crate::book::Book;

verus! {

/// Tag of the request that lists every book.
pub const ACTION_GET_BOOKS: &'static str = "get-books";

/// Tag of the request that fetches one book by id.
pub const ACTION_GET_BOOK: &'static str = "get-book";

/// Tag of the request that adds a book under its own title.
pub const ACTION_ADD_BOOK: &'static str = "add-book";

/// Tag of the request that replaces the book stored under an id.
pub const ACTION_UPDATE_BOOK: &'static str = "update-book";

/// Tag of the request that removes the book stored under an id.
pub const ACTION_DELETE_BOOK: &'static str = "delete-book";

/// A validated operation on the store, carrying only what it needs.
#[derive(Debug)]
pub enum Message {
    GetAll,
    Get(String),
    Add(Book),
    Update(String, Book),
    Delete(String),
}

/// The action tag that a response to this operation carries.
pub open spec fn action_of(m: Message) -> Seq<char> {
    match m {
        Message::GetAll => ACTION_GET_BOOKS@,
        Message::Get(_) => ACTION_GET_BOOK@,
        Message::Add(_) => ACTION_ADD_BOOK@,
        Message::Update(_, _) => ACTION_UPDATE_BOOK@,
        Message::Delete(_) => ACTION_DELETE_BOOK@,
    }
}

} // verus!
