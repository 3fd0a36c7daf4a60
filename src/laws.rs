use vstd::prelude::*;

use crate::book::Book;
use crate::error::MyError;
use crate::message::Message;
use crate::response::{Outcome, Response};
use crate::state::{answers, is_listing, lists, lookup, next_books};

verus! {

/// Adding a book whose title is already a key leaves the store unchanged,
/// the book stored there included, and is answered with `BookAlreadyExists`.
pub proof fn lemma_add_taken_title_rejected(m: Map<Seq<char>, Book>, b: Book, r: Response)
    requires
        m.contains_key(b.title@),
        answers(m, Message::Add(b), r),
    ensures
        next_books(m, Message::Add(b)) == m,
        r.outcome == Outcome::Failure(MyError::BookAlreadyExists),
{
}

/// Updating or deleting an id that is not a key leaves the store unchanged
/// and is answered with `WrongId`.
pub proof fn lemma_absent_id_rejected(
    m: Map<Seq<char>, Book>,
    id: String,
    b: Book,
    ru: Response,
    rd: Response,
)
    requires
        !m.contains_key(id@),
        answers(m, Message::Update(id, b), ru),
        answers(m, Message::Delete(id), rd),
    ensures
        next_books(m, Message::Update(id, b)) == m,
        next_books(m, Message::Delete(id)) == m,
        ru.outcome == Outcome::Failure(MyError::WrongId),
        rd.outcome == Outcome::Failure(MyError::WrongId),
{
    assert(m.remove(id@) =~= m);
}

/// A book that was added can be fetched back by its title, unchanged.
pub proof fn lemma_add_then_get(m: Map<Seq<char>, Book>, b: Book, id: String, r: Response)
    requires
        !m.contains_key(b.title@),
        id@ == b.title@,
        answers(next_books(m, Message::Add(b)), Message::Get(id), r),
    ensures
        lookup(next_books(m, Message::Add(b)), b.title@) == Some(b),
        r.outcome == Outcome::Book(b),
{
}

/// A listing of the store holds as many books as there are keys, the book
/// stored under each key, and nothing that is not stored under some key.
pub proof fn lemma_listing_complete(m: Map<Seq<char>, Book>, books: Seq<Book>)
    requires
        is_listing(m, books),
    ensures
        books.len() == m.dom().len(),
        forall|k: Seq<char>| #[trigger] m.contains_key(k) ==> books.contains(m[k]),
        forall|i: int| 0 <= i < books.len() ==> m.values().contains(#[trigger] books[i]),
{
    let ks = choose|ks: Seq<Seq<char>>| lists(m, books, ks);
    assert(ks.to_set() =~= m.dom());
    ks.unique_seq_to_set();
    assert forall|k: Seq<char>| #[trigger] m.contains_key(k) implies books.contains(m[k]) by {
        let i = ks.index_of(k);
        assert(ks[i] == k);
        assert(books[i] == m[k]);
    }
    assert forall|i: int| 0 <= i < books.len() implies m.values().contains(#[trigger] books[i]) by {
        assert(ks.contains(ks[i]));
        assert(m.contains_key(ks[i]));
    }
}

} // verus!
