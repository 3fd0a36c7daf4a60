use vstd::prelude::*;

use crate::book::Book;
use crate::book::{parse_spec, BookPayload};
use crate::error::MyError;
use crate::message::{
    action_of, Message, ACTION_ADD_BOOK, ACTION_DELETE_BOOK, ACTION_GET_BOOK, ACTION_GET_BOOKS,
    ACTION_UPDATE_BOOK,
};
use crate::response::{Outcome, Response};
use vstd::string::StringExecFns;

verus! {

/// `books` lists the values of `m`, one for each key, in the order of the
/// keys `ks`.
pub open spec fn lists(m: Map<Seq<char>, Book>, books: Seq<Book>, ks: Seq<Seq<char>>) -> bool {
    &&& ks.len() == books.len()
    &&& ks.no_duplicates()
    &&& forall|k: Seq<char>| #[trigger] m.contains_key(k) <==> ks.contains(k)
    &&& forall|i: int| 0 <= i < ks.len() ==> m[#[trigger] ks[i]] == books[i]
}

/// `books` holds every value of `m` once for each key, in some order.
pub open spec fn is_listing(m: Map<Seq<char>, Book>, books: Seq<Book>) -> bool {
    exists|ks: Seq<Seq<char>>| #[trigger] lists(m, books, ks)
}

/// The book stored under `k`, if any.
pub open spec fn lookup(m: Map<Seq<char>, Book>, k: Seq<char>) -> Option<Book> {
    if m.contains_key(k) {
        Some(m[k])
    } else {
        None
    }
}

/// The store after applying `msg` to `m`.
pub open spec fn next_books(m: Map<Seq<char>, Book>, msg: Message) -> Map<Seq<char>, Book> {
    match msg {
        Message::GetAll => m,
        Message::Get(_) => m,
        Message::Add(b) => if m.contains_key(b.title@) {
            m
        } else {
            m.insert(b.title@, b)
        },
        Message::Update(id, b) => if m.contains_key(id@) {
            m.insert(id@, b)
        } else {
            m
        },
        Message::Delete(id) => m.remove(id@),
    }
}

/// `r` is a correct reply to `msg` on store `m`: it carries the action tag of
/// `msg`; a listing holds every stored book; a lookup, update or delete of an
/// absent id fails with `WrongId`; an add of a taken title fails with
/// `BookAlreadyExists`; otherwise the reply holds the book found, added,
/// stored or removed.
pub open spec fn answers(m: Map<Seq<char>, Book>, msg: Message, r: Response) -> bool {
    &&& r.action@ == action_of(msg)
    &&& match msg {
        Message::GetAll => match r.outcome {
            Outcome::Books(v) => is_listing(m, v@),
            _ => false,
        },
        Message::Get(id) => r.outcome == if m.contains_key(id@) {
            Outcome::Book(m[id@])
        } else {
            Outcome::Failure(MyError::WrongId)
        },
        Message::Add(b) => r.outcome == if m.contains_key(b.title@) {
            Outcome::Failure(MyError::BookAlreadyExists)
        } else {
            Outcome::Book(b)
        },
        Message::Update(id, b) => r.outcome == if m.contains_key(id@) {
            Outcome::Book(b)
        } else {
            Outcome::Failure(MyError::WrongId)
        },
        Message::Delete(id) => r.outcome == if m.contains_key(id@) {
            Outcome::Book(m[id@])
        } else {
            Outcome::Failure(MyError::WrongId)
        },
    }
}

/// The reply to a decoded request on store `m`: the answer to the operation
/// it asks for, or its validation error under its own action tag.
pub open spec fn replies(m: Map<Seq<char>, Book>, p: BookPayload, r: Response) -> bool {
    match parse_spec(p.action@, p.id, p.book) {
        Ok(msg) => answers(m, msg, r),
        Err(e) => r.action@ == p.action@ && r.outcome == Outcome::Failure(e),
    }
}

/// The store after a decoded request: validation errors change nothing.
pub open spec fn after_payload(m: Map<Seq<char>, Book>, p: BookPayload) -> Map<Seq<char>, Book> {
    match parse_spec(p.action@, p.id, p.book) {
        Ok(msg) => next_books(m, msg),
        Err(_) => m,
    }
}

/// The shared collection of books, keyed by an identifier.
///
/// Reads take `&self` and writes `&mut self`, so a reader-writer lock around
/// one value gives the single-writer, many-readers discipline.
///
/// Known inconsistency, kept on purpose: an add keys a book by its own title,
/// while lookups, updates and deletes address it by a separate id. An update
/// whose book has another title does not move it to a new key.
pub struct AppState {
    books: Vec<(String, Book)>,
    model: Ghost<Map<Seq<char>, Book>>,
}

impl View for AppState {
    type V = Map<Seq<char>, Book>;

    closed spec fn view(&self) -> Map<Seq<char>, Book> {
        self.model@
    }
}

impl AppState {
    /// The keys of the stored entries, in storage order.
    pub closed spec fn keys(&self) -> Seq<Seq<char>> {
        self.books@.map_values(|e: (String, Book)| e.0@)
    }

    /// The stored books, in storage order.
    pub closed spec fn values(&self) -> Seq<Book> {
        self.books@.map_values(|e: (String, Book)| e.1)
    }

    /// Each key is stored once, and the entries are exactly the model.
    pub closed spec fn wf(&self) -> bool {
        lists(self@, self.values(), self.keys())
    }

    /// An empty store.
    pub fn new() -> (r: Self)
        ensures
            r.wf(),
            r@ == Map::<Seq<char>, Book>::empty(),
    {
        let r = AppState { books: Vec::new(), model: Ghost(Map::empty()) };
        assert(r.keys() =~= Seq::<Seq<char>>::empty());
        r
    }

    /// The position of the entry whose key is `id`, if any.
    fn find(&self, id: &String) -> (r: Option<usize>)
        requires
            self.wf(),
        ensures
            match r {
                Some(i) => i < self.books@.len() && self.keys()[i as int] == id@,
                None => !self@.contains_key(id@),
            },
    {
        let mut i: usize = 0;
        while i < self.books.len()
            invariant
                i <= self.books@.len(),
                self.wf(),
                forall|j: int| 0 <= j < i ==> self.keys()[j] != id@,
            decreases self.books@.len() - i,
        {
            if self.books[i].0 == *id {
                return Some(i);
            }
            i = i + 1;
        }
        proof {
            if self@.contains_key(id@) {
                assert(self.keys()[self.keys().index_of(id@)] == id@);
            }
        }
        None
    }

    /// Every stored book, each once, in no particular order.
    pub fn get_all_book(&self) -> (r: Vec<Book>)
        requires
            self.wf(),
        ensures
            is_listing(self@, r@),
    {
        let mut r: Vec<Book> = Vec::new();
        let mut i: usize = 0;
        while i < self.books.len()
            invariant
                i <= self.books@.len(),
                r@ == self.values().subrange(0, i as int),
            decreases self.books@.len() - i,
        {
            r.push(self.books[i].1.clone());
            i = i + 1;
            assert(r@ =~= self.values().subrange(0, i as int));
        }
        assert(r@ =~= self.values());
        assert(lists(self@, r@, self.keys()));
        r
    }

    /// The book stored under `id`, if any.
    pub fn get_book(&self, id: &str) -> (r: Option<Book>)
        requires
            self.wf(),
        ensures
            r == lookup(self@, id@),
    {
        let key = String::from_str(id);
        match self.find(&key) {
            Some(i) => Some(self.books[i].1.clone()),
            None => None,
        }
    }

    /// Stores `book` under `title` if that key is free; otherwise changes
    /// nothing and reports the conflict.
    pub fn add_book(&mut self, title: String, book: Book) -> (r: Result<Book, MyError>)
        requires
            old(self).wf(),
        ensures
            final(self).wf(),
            old(self)@.contains_key(title@) ==> r == Err::<Book, MyError>(MyError::BookAlreadyExists)
                && final(self)@ == old(self)@,
            !old(self)@.contains_key(title@) ==> r == Ok::<Book, MyError>(book)
                && final(self)@ == old(self)@.insert(title@, book),
    {
        match self.find(&title) {
            Some(_) => Err(MyError::BookAlreadyExists),
            None => {
                let ghost k = title@;
                let stored = book.clone();
                self.books.push((title, stored));
                self.model = Ghost(self.model@.insert(k, book));
                proof {
                    let ks = old(self).keys();
                    assert(self.keys() =~= ks.push(k));
                    assert(self.values() =~= old(self).values().push(book));
                    assert(ks.push(k)[ks.len() as int] == k);
                    assert forall|q: Seq<char>| #[trigger] self@.contains_key(q) <==> self.keys().contains(q) by {
                        if q != k && ks.contains(q) {
                            let j = ks.index_of(q);
                            assert(self.keys()[j] == q);
                        }
                        if self.keys().contains(q) {
                            let j = self.keys().index_of(q);
                            if j < ks.len() {
                                assert(ks[j] == q);
                            }
                        }
                    }
                }
                Ok(book)
            },
        }
    }

    /// Replaces the book stored under `id` with `book` and returns the new
    /// value; if `id` is not stored, changes nothing and reports it.
    pub fn update_book(&mut self, id: String, book: Book) -> (r: Result<Book, MyError>)
        requires
            old(self).wf(),
        ensures
            final(self).wf(),
            old(self)@.contains_key(id@) ==> r == Ok::<Book, MyError>(book)
                && final(self)@ == old(self)@.insert(id@, book),
            !old(self)@.contains_key(id@) ==> r == Err::<Book, MyError>(MyError::WrongId)
                && final(self)@ == old(self)@,
    {
        match self.find(&id) {
            Some(i) => {
                let stored = book.clone();
                self.books.set(i, (id, stored));
                self.model = Ghost(self.model@.insert(self.keys()[i as int], book));
                proof {
                    assert(self.keys() =~= old(self).keys());
                    assert(self.values() =~= old(self).values().update(i as int, book));
                }
                Ok(book)
            },
            None => Err(MyError::WrongId),
        }
    }

    /// Removes the book stored under `id` and returns it, if there is one.
    pub fn remove_book(&mut self, id: &str) -> (r: Option<Book>)
        requires
            old(self).wf(),
        ensures
            final(self).wf(),
            r == lookup(old(self)@, id@),
            final(self)@ == old(self)@.remove(id@),
    {
        let key = String::from_str(id);
        match self.find(&key) {
            Some(i) => {
                let entry = self.books.remove(i);
                self.model = Ghost(self.model@.remove(key@));
                proof {
                    let ks = old(self).keys();
                    assert(self.keys() =~= ks.remove(i as int));
                    assert(self.values() =~= old(self).values().remove(i as int));
                    assert forall|q: Seq<char>| #[trigger] self@.contains_key(q) <==> self.keys().contains(q) by {
                        if q != key@ && ks.contains(q) {
                            let j = ks.index_of(q);
                            if j < i {
                                assert(self.keys()[j] == q);
                            } else {
                                assert(self.keys()[j - 1] == q);
                            }
                        }
                        if self.keys().contains(q) {
                            let j = self.keys().index_of(q);
                            if j < i {
                                assert(ks[j] == q);
                            } else {
                                assert(ks[j + 1] == q);
                            }
                        }
                    }
                }
                Some(entry.1)
            },
            None => {
                assert(self@ =~= old(self)@.remove(id@));
                None
            },
        }
    }

    /// Runs one operation against the store and builds the tagged reply.
    pub fn apply_message(&mut self, message: Message) -> (r: Response)
        requires
            old(self).wf(),
        ensures
            final(self).wf(),
            answers(old(self)@, message, r),
            final(self)@ == next_books(old(self)@, message),
    {
        match message {
            Message::GetAll => {
                let books = self.get_all_book();
                Response { action: String::from_str(ACTION_GET_BOOKS), outcome: Outcome::Books(books) }
            },
            Message::Get(id) => {
                let outcome = match self.get_book(id.as_str()) {
                    Some(b) => Outcome::Book(b),
                    None => Outcome::Failure(MyError::WrongId),
                };
                Response { action: String::from_str(ACTION_GET_BOOK), outcome }
            },
            Message::Add(book) => {
                let title = book.title.clone();
                let outcome = match self.add_book(title, book) {
                    Ok(b) => Outcome::Book(b),
                    Err(e) => Outcome::Failure(e),
                };
                Response { action: String::from_str(ACTION_ADD_BOOK), outcome }
            },
            Message::Update(id, book) => {
                let outcome = match self.update_book(id, book) {
                    Ok(b) => Outcome::Book(b),
                    Err(e) => Outcome::Failure(e),
                };
                Response { action: String::from_str(ACTION_UPDATE_BOOK), outcome }
            },
            Message::Delete(id) => {
                let outcome = match self.remove_book(id.as_str()) {
                    Some(b) => Outcome::Book(b),
                    None => Outcome::Failure(MyError::WrongId),
                };
                Response { action: String::from_str(ACTION_DELETE_BOOK), outcome }
            },
        }
    }

    /// Validates a decoded request and, if it is well formed, applies it; a
    /// request that fails validation leaves the store as it is and is answered
    /// with its error under the action tag it came with.
    pub fn handle_payload(&mut self, payload: BookPayload) -> (r: Response)
        requires
            old(self).wf(),
        ensures
            final(self).wf(),
            replies(old(self)@, payload, r),
            final(self)@ == after_payload(old(self)@, payload),
    {
        let action = payload.action.clone();
        match BookPayload::parse(payload) {
            Ok(message) => self.apply_message(message),
            Err(e) => Response { action, outcome: Outcome::Failure(e) },
        }
    }

    /// The store holds at most one record per key: its entries have distinct
    /// keys, there are exactly as many entries as keys, and the keys are those
    /// of the model.
    pub proof fn lemma_keys_unique(&self)
        requires
            self.wf(),
        ensures
            self.keys().no_duplicates(),
            self.keys().to_set() == self@.dom(),
            self.values().len() == self@.dom().len(),
    {
        let ks = self.keys();
        assert(ks.to_set() =~= self@.dom());
        ks.unique_seq_to_set();
    }
}

} // verus!
