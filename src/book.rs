use vstd::prelude::*;

use crate::error::MyError;
use crate::message::{
    Message, ACTION_ADD_BOOK, ACTION_DELETE_BOOK, ACTION_GET_BOOK, ACTION_GET_BOOKS,
    ACTION_UPDATE_BOOK,
};
use vstd::string::StringExecFns;

verus! {

/// A stored record. Records are replaced whole, never edited field by field.
#[derive(Debug)]
pub struct Book {
    pub title: String,
    pub author: String,
    pub year: String,
}

impl Clone for Book {
    fn clone(&self) -> (r: Book)
        ensures
            r == *self,
    {
        Book { title: self.title.clone(), author: self.author.clone(), year: self.year.clone() }
    }
}

/// A decoded request: an action tag, and the id and book that some actions need.
#[derive(Debug)]
pub struct BookPayload {
    pub action: String,
    pub id: Option<String>,
    pub book: Option<Book>,
}

/// The operation that a request with this action tag, id and book asks for,
/// or the error that rejects it. For an update a missing id is reported
/// before a missing book.
pub open spec fn parse_spec(action: Seq<char>, id: Option<String>, book: Option<Book>) -> Result<
    Message,
    MyError,
> {
    if action == ACTION_GET_BOOKS@ {
        Ok(Message::GetAll)
    } else if action == ACTION_GET_BOOK@ {
        match id {
            Some(i) => Ok(Message::Get(i)),
            None => Err(MyError::EmptyId),
        }
    } else if action == ACTION_ADD_BOOK@ {
        match book {
            Some(b) => Ok(Message::Add(b)),
            None => Err(MyError::EmptyBody),
        }
    } else if action == ACTION_UPDATE_BOOK@ {
        match (id, book) {
            (None, _) => Err(MyError::EmptyId),
            (Some(_), None) => Err(MyError::EmptyBody),
            (Some(i), Some(b)) => Ok(Message::Update(i, b)),
        }
    } else if action == ACTION_DELETE_BOOK@ {
        match id {
            Some(i) => Ok(Message::Delete(i)),
            None => Err(MyError::EmptyId),
        }
    } else {
        Err(MyError::UnknownAction)
    }
}

impl BookPayload {
    /// Validates a request and turns it into the operation it asks for.
    pub fn parse(payload: BookPayload) -> (r: Result<Message, MyError>)
        ensures
            r == parse_spec(payload.action@, payload.id, payload.book),
    {
        let action = payload.action;
        if action == String::from_str(ACTION_GET_BOOKS) {
            Ok(Message::GetAll)
        } else if action == String::from_str(ACTION_GET_BOOK) {
            match payload.id {
                Some(id) => Ok(Message::Get(id)),
                None => Err(MyError::EmptyId),
            }
        } else if action == String::from_str(ACTION_ADD_BOOK) {
            match payload.book {
                Some(b) => Ok(Message::Add(b)),
                None => Err(MyError::EmptyBody),
            }
        } else if action == String::from_str(ACTION_UPDATE_BOOK) {
            match payload.id {
                Some(id) => match payload.book {
                    Some(book) => Ok(Message::Update(id, book)),
                    None => Err(MyError::EmptyBody),
                },
                None => Err(MyError::EmptyId),
            }
        } else if action == String::from_str(ACTION_DELETE_BOOK) {
            match payload.id {
                Some(id) => Ok(Message::Delete(id)),
                None => Err(MyError::EmptyId),
            }
        } else {
            Err(MyError::UnknownAction)
        }
    }
}

} // verus!
