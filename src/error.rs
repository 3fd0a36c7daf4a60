use vstd::prelude::*;

verus! {

/// The failures that a request can meet. All of them are reported to the
/// client; none ends the connection.
#[derive(Debug, Clone, Copy, PartialEq, Eq, Structural)]
pub enum MyError {
    /// The action needs an id and none was given.
    EmptyId,
    /// The action needs a book and none was given.
    EmptyBody,
    /// The raw request could not be decoded at all.
    ParsingError,
    /// The action tag is none of the recognised ones.
    UnknownAction,
    /// An add targeted a key that is already taken.
    BookAlreadyExists,
    /// A lookup, update or delete targeted a key that is not present.
    WrongId,
}

} // verus!
