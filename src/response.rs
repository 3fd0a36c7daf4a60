use vstd::prelude::*;

use crate::book::Book;
use crate::error::MyError;

verus! {

/// What a request produced: the books or book it asked for, or why it failed.
#[derive(Debug)]
pub enum Outcome {
    Books(Vec<Book>),
    Book(Book),
    Failure(MyError),
}

/// A reply, tagged with the action of the request it answers.
#[derive(Debug)]
pub struct Response {
    pub action: String,
    pub outcome: Outcome,
}

impl Response {
    /// Whether the request succeeded.
    pub fn is_ok(&self) -> (r: bool)
        ensures
            r == !(self.outcome is Failure),
    {
        match self.outcome {
            Outcome::Failure(_) => false,
            _ => true,
        }
    }
}

} // verus!
