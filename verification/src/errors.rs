use vstd::prelude::*;

verus! {

/// A validation failure reported by the record lifecycle logic.
#[derive(Clone, Copy, Debug, PartialEq, Eq, Structural)]
pub enum NotesError {
    /// The title exceeds the maximum length.
    TitleTooLong,
    /// The content exceeds the maximum length.
    ContentTooLong,
    /// The title is empty once leading and trailing whitespace is removed.
    TitleEmpty,
    /// The content is empty.
    ContentEmpty,
    /// The caller is not the owner recorded in the note.
    Unauthorized,
}

/// A rejection reported by the transactional store: either one of the
/// host-level failures (an occupied address, a missing record, too little
/// funding for the allocation) or a lifecycle validation failure.
#[derive(Clone, Copy, Debug, PartialEq, Eq, Structural)]
pub enum StoreError {
    /// A record already exists at the derived address.
    AlreadyExists,
    /// No record exists at the given address.
    NoSuchNote,
    /// The caller supplied too little to pay for the record's storage.
    InsufficientFunds,
    /// The lifecycle logic rejected the operation.
    Rejected(NotesError),
}

impl NotesError {
    /// A human-readable description of the failure.
    pub fn message(&self) -> (r: &'static str)
        ensures
            r@ == match self {
                NotesError::TitleTooLong => "Title cannot be longer than 100 chars"@,
                NotesError::ContentTooLong => "Content cannot be longer than 1000 chars"@,
                NotesError::TitleEmpty => "Title cannot be empty"@,
                NotesError::ContentEmpty => "Content cannot be empty"@,
                NotesError::Unauthorized => "Unauthorized"@,
            },
    {
        match self {
            NotesError::TitleTooLong => "Title cannot be longer than 100 chars",
            NotesError::ContentTooLong => "Content cannot be longer than 1000 chars",
            NotesError::TitleEmpty => "Title cannot be empty",
            NotesError::ContentEmpty => "Content cannot be empty",
            NotesError::Unauthorized => "Unauthorized",
        }
    }
}

} // verus!
