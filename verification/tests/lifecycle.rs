use notes::addressing::derive_address;
use notes::addressing::AuthorId;
use notes::errors::NotesError;
use notes::errors::StoreError;
use notes::note::Note;
use notes::store::CreateNote;
use notes::store::DeleteNote;
use notes::store::NoteStore;
use notes::store::UpdateNote;
use notes::store::NOTE_SPACE;

fn author(key: u64) -> AuthorId {
    AuthorId { key }
}

fn create(
    store: &mut NoteStore,
    owner: u64,
    title: &str,
    content: Vec<u8>,
    now: i64,
) -> Result<(), StoreError> {
    store.create_note(
        CreateNote { author: author(owner), funds: NOTE_SPACE },
        title.to_string(),
        content,
        now,
    )
}

#[test]
fn create_valid_note() {
    let mut store = NoteStore::new();
    let r = create(&mut store, 7, "Groceries", vec![1, 2, 3], 1000);
    assert!(r.is_ok());
    let addr = derive_address(author(7));
    let note = store.get_note(addr).expect("record must exist at the derived address");
    assert_eq!(note.author, author(7));
    assert_eq!(note.title, "Groceries");
    assert_eq!(note.content, vec![1, 2, 3]);
    assert_eq!(note.created_at, 1000);
    assert_eq!(note.last_updated, 1000);
    assert_eq!(note.created_at, note.last_updated);
    assert_eq!(store.len(), 1);
}

#[test]
fn create_title_at_cap() {
    let mut store = NoteStore::new();
    let title: String = "t".repeat(100);
    let r = create(&mut store, 7, &title, vec![5], 1);
    assert!(r.is_ok());
}

#[test]
fn create_title_too_long() {
    let mut store = NoteStore::new();
    let title: String = "t".repeat(101);
    let r = create(&mut store, 7, &title, vec![5], 1);
    assert_eq!(r, Err(StoreError::Rejected(NotesError::TitleTooLong)));
    assert!(store.get_note(derive_address(author(7))).is_none());
}

#[test]
fn create_title_all_whitespace() {
    let mut store = NoteStore::new();
    let r = create(&mut store, 7, " \t\r\n ", vec![5], 1);
    assert_eq!(r, Err(StoreError::Rejected(NotesError::TitleEmpty)));
    assert!(store.get_note(derive_address(author(7))).is_none());
}

#[test]
fn create_content_at_cap() {
    let mut store = NoteStore::new();
    let r = create(&mut store, 7, "big", vec![0; 1000], 1);
    assert!(r.is_ok());
}

#[test]
fn create_content_too_long() {
    let mut store = NoteStore::new();
    let r = create(&mut store, 7, "big", vec![0; 1001], 1);
    assert_eq!(r, Err(StoreError::Rejected(NotesError::ContentTooLong)));
}

#[test]
fn create_content_empty() {
    let mut store = NoteStore::new();
    let r = create(&mut store, 7, "empty", vec![], 1);
    assert_eq!(r, Err(StoreError::Rejected(NotesError::ContentEmpty)));
}

#[test]
fn create_reports_first_violated_check() {
    let mut store = NoteStore::new();
    // Both the title and the content are too long: the title check is first.
    let title: String = "t".repeat(101);
    let r = create(&mut store, 7, &title, vec![0; 1001], 1);
    assert_eq!(r, Err(StoreError::Rejected(NotesError::TitleTooLong)));
    // An all-whitespace title over the cap is reported as too long.
    let blank: String = " ".repeat(101);
    let r = create(&mut store, 7, &blank, vec![5], 1);
    assert_eq!(r, Err(StoreError::Rejected(NotesError::TitleTooLong)));
}

#[test]
fn create_insufficient_funds() {
    let mut store = NoteStore::new();
    let r = store.create_note(
        CreateNote { author: author(7), funds: NOTE_SPACE - 1 },
        "Groceries".to_string(),
        vec![1],
        1000,
    );
    assert_eq!(r, Err(StoreError::InsufficientFunds));
    assert!(store.get_note(derive_address(author(7))).is_none());
}

#[test]
fn create_twice_same_owner() {
    let mut store = NoteStore::new();
    assert!(create(&mut store, 7, "first", vec![1], 1000).is_ok());
    let r = create(&mut store, 7, "second", vec![2], 2000);
    assert_eq!(r, Err(StoreError::AlreadyExists));
    // The first record is unmodified.
    let note = store.get_note(derive_address(author(7))).unwrap();
    assert_eq!(note.title, "first");
    assert_eq!(note.content, vec![1]);
    assert_eq!(note.created_at, 1000);
    assert_eq!(note.last_updated, 1000);
    assert_eq!(store.len(), 1);
}

#[test]
fn distinct_owners_do_not_collide() {
    let mut store = NoteStore::new();
    assert!(create(&mut store, 1, "one", vec![1], 10).is_ok());
    assert!(create(&mut store, 2, "two", vec![2], 20).is_ok());
    assert_ne!(derive_address(author(1)), derive_address(author(2)));
    assert_eq!(store.len(), 2);
    assert_eq!(store.get_note(derive_address(author(1))).unwrap().title, "one");
    assert_eq!(store.get_note(derive_address(author(2))).unwrap().title, "two");
}

#[test]
fn derive_address_is_deterministic() {
    assert_eq!(derive_address(author(42)), derive_address(author(42)));
    assert_ne!(derive_address(author(42)), derive_address(author(43)));
}

#[test]
fn update_by_owner() {
    let mut store = NoteStore::new();
    assert!(create(&mut store, 7, "Groceries", vec![1, 2, 3], 1000).is_ok());
    let addr = derive_address(author(7));
    let r = store.update_note(UpdateNote { note: addr, author: author(7) }, vec![4, 5], 2000);
    assert_eq!(r, Ok(()));
    let note = store.get_note(addr).unwrap();
    assert_eq!(note.content, vec![4, 5]);
    assert_eq!(note.last_updated, 2000);
    assert!(note.last_updated >= 1000);
    assert_eq!(note.title, "Groceries");
    assert_eq!(note.author, author(7));
    assert_eq!(note.created_at, 1000);
}

#[test]
fn update_by_non_owner() {
    let mut store = NoteStore::new();
    assert!(create(&mut store, 7, "Groceries", vec![1, 2, 3], 1000).is_ok());
    let addr = derive_address(author(7));
    let r = store.update_note(UpdateNote { note: addr, author: author(8) }, vec![9], 2000);
    assert_eq!(r, Err(StoreError::Rejected(NotesError::Unauthorized)));
    let note = store.get_note(addr).unwrap();
    assert_eq!(note.content, vec![1, 2, 3]);
    assert_eq!(note.last_updated, 1000);
}

#[test]
fn update_content_invalid() {
    let mut store = NoteStore::new();
    assert!(create(&mut store, 7, "Groceries", vec![1], 1000).is_ok());
    let addr = derive_address(author(7));
    let r = store.update_note(UpdateNote { note: addr, author: author(7) }, vec![0; 1001], 2000);
    assert_eq!(r, Err(StoreError::Rejected(NotesError::ContentTooLong)));
    let r = store.update_note(UpdateNote { note: addr, author: author(7) }, vec![], 2000);
    assert_eq!(r, Err(StoreError::Rejected(NotesError::ContentEmpty)));
    let note = store.get_note(addr).unwrap();
    assert_eq!(note.content, vec![1]);
    assert_eq!(note.last_updated, 1000);
}

#[test]
fn update_missing_record() {
    let mut store = NoteStore::new();
    let addr = derive_address(author(7));
    let r = store.update_note(UpdateNote { note: addr, author: author(7) }, vec![1], 1000);
    assert_eq!(r, Err(StoreError::NoSuchNote));
}

#[test]
fn delete_by_owner_then_gone() {
    let mut store = NoteStore::new();
    assert!(create(&mut store, 7, "Groceries", vec![1], 1000).is_ok());
    let addr = derive_address(author(7));
    let r = store.delete_note(DeleteNote { note: addr, author: author(7) });
    assert_eq!(r, Ok(NOTE_SPACE));
    assert!(store.get_note(addr).is_none());
    assert_eq!(store.len(), 0);
    // Later operations aimed at the freed address find no record.
    let r = store.update_note(UpdateNote { note: addr, author: author(7) }, vec![2], 2000);
    assert_eq!(r, Err(StoreError::NoSuchNote));
    let r = store.delete_note(DeleteNote { note: addr, author: author(7) });
    assert_eq!(r, Err(StoreError::NoSuchNote));
}

#[test]
fn delete_by_non_owner() {
    let mut store = NoteStore::new();
    assert!(create(&mut store, 7, "Groceries", vec![1], 1000).is_ok());
    let addr = derive_address(author(7));
    let r = store.delete_note(DeleteNote { note: addr, author: author(8) });
    assert_eq!(r, Err(StoreError::Rejected(NotesError::Unauthorized)));
    let note = store.get_note(addr).unwrap();
    assert_eq!(note.title, "Groceries");
    assert_eq!(note.content, vec![1]);
    assert_eq!(note.created_at, 1000);
    assert_eq!(note.last_updated, 1000);
}

#[test]
fn repeated_failing_operation_is_stable() {
    let mut store = NoteStore::new();
    assert!(create(&mut store, 7, "Groceries", vec![1], 1000).is_ok());
    let addr = derive_address(author(7));
    for _ in 0..3 {
        let r = store.update_note(UpdateNote { note: addr, author: author(8) }, vec![9], 2000);
        assert_eq!(r, Err(StoreError::Rejected(NotesError::Unauthorized)));
        let note = store.get_note(addr).unwrap();
        assert_eq!(note.content, vec![1]);
        assert_eq!(note.last_updated, 1000);
    }
}

#[test]
fn full_lifecycle_example() {
    let mut store = NoteStore::new();
    let a = author(100);
    let b = author(200);
    let addr = derive_address(a);

    assert!(create(&mut store, 100, "Groceries", vec![1, 2, 3], 1000).is_ok());
    let note = store.get_note(addr).unwrap();
    assert_eq!(note.author, a);
    assert_eq!(note.title, "Groceries");
    assert_eq!(note.content, vec![1, 2, 3]);
    assert_eq!(note.created_at, 1000);
    assert_eq!(note.last_updated, 1000);

    assert_eq!(store.update_note(UpdateNote { note: addr, author: a }, vec![4, 5], 2000), Ok(()));
    let note = store.get_note(addr).unwrap();
    assert_eq!(note.content, vec![4, 5]);
    assert_eq!(note.last_updated, 2000);
    assert_eq!(note.created_at, 1000);

    assert_eq!(
        store.update_note(UpdateNote { note: addr, author: b }, vec![9], 3000),
        Err(StoreError::Rejected(NotesError::Unauthorized))
    );
    let note = store.get_note(addr).unwrap();
    assert_eq!(note.content, vec![4, 5]);

    assert_eq!(store.delete_note(DeleteNote { note: addr, author: a }), Ok(NOTE_SPACE));
    assert!(store.get_note(addr).is_none());
    assert_eq!(
        store.delete_note(DeleteNote { note: addr, author: a }),
        Err(StoreError::NoSuchNote)
    );
}

#[test]
fn note_level_lifecycle() {
    let r = Note::create(author(7), "Plan".to_string(), vec![1], 50);
    let mut note = r.expect("valid inputs must create a record");
    assert_eq!(note.created_at, 50);
    assert_eq!(note.last_updated, 50);

    assert_eq!(note.update(author(8), vec![2], 60), Err(NotesError::Unauthorized));
    assert_eq!(note.content, vec![1]);
    assert_eq!(note.update(author(7), vec![2], 60), Ok(()));
    assert_eq!(note.content, vec![2]);
    assert_eq!(note.last_updated, 60);
    assert_eq!(note.created_at, 50);
    assert_eq!(note.title, "Plan");

    assert_eq!(note.authorize_delete(author(8)), Err(NotesError::Unauthorized));
    assert_eq!(note.authorize_delete(author(7)), Ok(()));
}

#[test]
fn note_create_rejects_invalid_fields() {
    assert_eq!(
        Note::create(author(7), "x".repeat(101), vec![1], 0),
        Err(NotesError::TitleTooLong)
    );
    assert_eq!(
        Note::create(author(7), "   ".to_string(), vec![1], 0),
        Err(NotesError::TitleEmpty)
    );
    assert_eq!(
        Note::create(author(7), "x".to_string(), vec![0; 1001], 0),
        Err(NotesError::ContentTooLong)
    );
    assert_eq!(Note::create(author(7), "x".to_string(), vec![], 0), Err(NotesError::ContentEmpty));
}

#[test]
fn error_messages() {
    assert_eq!(NotesError::TitleTooLong.message(), "Title cannot be longer than 100 chars");
    assert_eq!(NotesError::ContentTooLong.message(), "Content cannot be longer than 1000 chars");
    assert_eq!(NotesError::TitleEmpty.message(), "Title cannot be empty");
    assert_eq!(NotesError::ContentEmpty.message(), "Content cannot be empty");
    assert_eq!(NotesError::Unauthorized.message(), "Unauthorized");
}
