use book_store::message::{
    ACTION_ADD_BOOK, ACTION_DELETE_BOOK, ACTION_GET_BOOK, ACTION_GET_BOOKS, ACTION_UPDATE_BOOK,
};
use book_store::{AppState, Book, BookPayload, Message, MyError, Outcome, Response};

fn book(title: &str, author: &str, year: &str) -> Book {
    Book { title: title.to_string(), author: author.to_string(), year: year.to_string() }
}

fn request(action: &str, id: Option<&str>, b: Option<Book>) -> BookPayload {
    BookPayload { action: action.to_string(), id: id.map(|s| s.to_string()), book: b }
}

fn same(a: &Book, b: &Book) -> bool {
    a.title == b.title && a.author == b.author && a.year == b.year
}

fn expect_book(r: &Response, action: &str, b: &Book) {
    assert_eq!(r.action, action);
    assert!(r.is_ok());
    match &r.outcome {
        Outcome::Book(got) => assert!(same(got, b)),
        other => panic!("expected a book, got {:?}", other),
    }
}

fn expect_error(r: &Response, action: &str, e: MyError) {
    assert_eq!(r.action, action);
    assert!(!r.is_ok());
    match &r.outcome {
        Outcome::Failure(got) => assert_eq!(*got, e),
        other => panic!("expected an error, got {:?}", other),
    }
}

fn dune() -> Book {
    book("Dune", "Herbert", "1965")
}

fn sorted_titles(books: &[Book]) -> Vec<String> {
    let mut t: Vec<String> = books.iter().map(|b| format!("{}|{}|{}", b.title, b.author, b.year)).collect();
    t.sort();
    t
}

#[test]
fn test_add_book() {
    let mut s = AppState::new();
    let b = book("123", "Bill", "123");
    let r = s.handle_payload(request(ACTION_ADD_BOOK, None, Some(b.clone())));
    expect_book(&r, "add-book", &b);
}

#[test]
fn add_echoes_record() {
    let mut s = AppState::new();
    let r = s.handle_payload(request("add-book", None, Some(dune())));
    expect_book(&r, "add-book", &dune());
}

#[test]
fn add_same_title_is_rejected() {
    let mut s = AppState::new();
    s.handle_payload(request("add-book", None, Some(dune())));
    let r = s.handle_payload(request("add-book", None, Some(book("Dune", "Someone", "2000"))));
    expect_error(&r, "add-book", MyError::BookAlreadyExists);
    let all = s.get_all_book();
    assert_eq!(all.len(), 1);
    assert!(same(&all[0], &dune()));
}

#[test]
fn get_one_found_and_missing() {
    let mut s = AppState::new();
    s.handle_payload(request("add-book", None, Some(dune())));
    let r = s.handle_payload(request("get-book", Some("Dune"), None));
    expect_book(&r, "get-book", &dune());
    let r = s.handle_payload(request("get-book", Some("Missing"), None));
    expect_error(&r, "get-book", MyError::WrongId);
}

#[test]
fn update_replaces_record() {
    let mut s = AppState::new();
    s.handle_payload(request("add-book", None, Some(dune())));
    let revised = book("Dune", "Herbert", "1965 (revised)");
    let r = s.handle_payload(request("update-book", Some("Dune"), Some(revised.clone())));
    expect_book(&r, "update-book", &revised);
    let r = s.handle_payload(request("get-book", Some("Dune"), None));
    expect_book(&r, "get-book", &revised);
}

#[test]
fn delete_returns_removed_record() {
    let mut s = AppState::new();
    s.handle_payload(request("add-book", None, Some(dune())));
    let r = s.handle_payload(request("delete-book", Some("Dune"), None));
    expect_book(&r, "delete-book", &dune());
    let r = s.handle_payload(request("get-book", Some("Dune"), None));
    expect_error(&r, "get-book", MyError::WrongId);
}

#[test]
fn unknown_action_is_rejected() {
    let mut s = AppState::new();
    let r = s.handle_payload(request("frobnicate", None, None));
    expect_error(&r, "frobnicate", MyError::UnknownAction);
}

#[test]
fn missing_fields_are_reported() {
    let mut s = AppState::new();
    expect_error(&s.handle_payload(request("get-book", None, None)), "get-book", MyError::EmptyId);
    expect_error(&s.handle_payload(request("add-book", Some("x"), None)), "add-book", MyError::EmptyBody);
    expect_error(&s.handle_payload(request("update-book", None, Some(dune()))), "update-book", MyError::EmptyId);
    expect_error(&s.handle_payload(request("update-book", None, None)), "update-book", MyError::EmptyId);
    expect_error(&s.handle_payload(request("update-book", Some("Dune"), None)), "update-book", MyError::EmptyBody);
    expect_error(&s.handle_payload(request("delete-book", None, None)), "delete-book", MyError::EmptyId);
    assert!(s.get_all_book().is_empty());
}

#[test]
fn parse_maps_each_action() {
    assert!(matches!(BookPayload::parse(request(ACTION_GET_BOOKS, None, None)), Ok(Message::GetAll)));
    assert!(matches!(BookPayload::parse(request(ACTION_GET_BOOK, Some("a"), None)), Ok(Message::Get(ref i)) if i == "a"));
    assert!(matches!(BookPayload::parse(request(ACTION_ADD_BOOK, Some("ignored"), Some(dune()))), Ok(Message::Add(ref b)) if b.title == "Dune"));
    assert!(matches!(BookPayload::parse(request(ACTION_UPDATE_BOOK, Some("a"), Some(dune()))), Ok(Message::Update(ref i, ref b)) if i == "a" && b.year == "1965"));
    assert!(matches!(BookPayload::parse(request(ACTION_DELETE_BOOK, Some("a"), None)), Ok(Message::Delete(ref i)) if i == "a"));
    assert!(matches!(BookPayload::parse(request("GET-BOOKS", None, None)), Err(MyError::UnknownAction)));
    assert!(matches!(BookPayload::parse(request("", None, None)), Err(MyError::UnknownAction)));
}

#[test]
fn add_ignores_request_id() {
    let mut s = AppState::new();
    s.handle_payload(request("add-book", Some("Other"), Some(dune())));
    assert!(s.get_book("Other").is_none());
    assert!(same(&s.get_book("Dune").unwrap(), &dune()));
}

#[test]
fn update_and_delete_of_absent_id_change_nothing() {
    let mut s = AppState::new();
    s.handle_payload(request("add-book", None, Some(dune())));
    let r = s.handle_payload(request("update-book", Some("Emma"), Some(book("Emma", "Austen", "1815"))));
    expect_error(&r, "update-book", MyError::WrongId);
    let r = s.handle_payload(request("delete-book", Some("Emma"), None));
    expect_error(&r, "delete-book", MyError::WrongId);
    assert_eq!(sorted_titles(&s.get_all_book()), vec!["Dune|Herbert|1965".to_string()]);
}

#[test]
fn update_keeps_key_when_title_changes() {
    let mut s = AppState::new();
    s.handle_payload(request("add-book", None, Some(dune())));
    let renamed = book("Dune Messiah", "Herbert", "1969");
    s.update_book("Dune".to_string(), renamed.clone()).unwrap();
    assert!(same(&s.get_book("Dune").unwrap(), &renamed));
    assert!(s.get_book("Dune Messiah").is_none());
}

#[test]
fn store_primitives() {
    let mut s = AppState::new();
    assert!(s.get_all_book().is_empty());
    assert!(same(&s.add_book("k".to_string(), dune()).unwrap(), &dune()));
    assert_eq!(s.add_book("k".to_string(), book("x", "y", "z")).unwrap_err(), MyError::BookAlreadyExists);
    assert!(same(&s.get_book("k").unwrap(), &dune()));
    assert_eq!(s.update_book("nope".to_string(), dune()).unwrap_err(), MyError::WrongId);
    assert!(same(&s.remove_book("k").unwrap(), &dune()));
    assert!(s.remove_book("k").is_none());
    assert!(s.get_book("k").is_none());
}

#[test]
fn listing_holds_latest_values() {
    let mut s = AppState::new();
    s.handle_payload(request("add-book", None, Some(dune())));
    s.handle_payload(request("add-book", None, Some(book("Emma", "Austen", "1815"))));
    s.handle_payload(request("add-book", None, Some(book("Ulysses", "Joyce", "1922"))));
    s.handle_payload(request("update-book", Some("Emma"), Some(book("Emma", "Austen", "1816"))));
    s.handle_payload(request("delete-book", Some("Ulysses"), None));
    let r = s.handle_payload(request("get-books", None, None));
    assert_eq!(r.action, "get-books");
    match &r.outcome {
        Outcome::Books(v) => assert_eq!(
            sorted_titles(v),
            vec!["Dune|Herbert|1965".to_string(), "Emma|Austen|1816".to_string()]
        ),
        other => panic!("expected books, got {:?}", other),
    }
}

#[test]
fn round_trip_after_many_adds() {
    let mut s = AppState::new();
    for i in 0..20 {
        let b = book(&format!("t{}", i), "a", &format!("{}", 1900 + i));
        s.add_book(b.title.clone(), b.clone()).unwrap();
        assert!(same(&s.get_book(&b.title).unwrap(), &b));
    }
    assert_eq!(s.get_all_book().len(), 20);
}
