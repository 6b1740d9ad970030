use vstd::prelude::*;
use vstd::string::StrSliceExecFns;
use crate::addressing::AuthorId;
use crate::errors::NotesError;

verus! {

/// The largest title accepted at creation, in characters.
pub const MAX_TITLE_CHARS: usize = 100;

/// The largest content payload accepted, in bytes.
pub const MAX_CONTENT_BYTES: usize = 1000;

/// Whether `c` is a whitespace character, as trimming sees it.
pub open spec fn spec_is_space(c: char) -> bool {
    ||| c == ' '
    ||| c == '\t'
    ||| c == '\n'
    ||| c == '\u{b}'
    ||| c == '\u{c}'
    ||| c == '\r'
    ||| c == '\u{85}'
    ||| c == '\u{a0}'
    ||| c == '\u{1680}'
    ||| c == '\u{2000}'
    ||| c == '\u{2001}'
    ||| c == '\u{2002}'
    ||| c == '\u{2003}'
    ||| c == '\u{2004}'
    ||| c == '\u{2005}'
    ||| c == '\u{2006}'
    ||| c == '\u{2007}'
    ||| c == '\u{2008}'
    ||| c == '\u{2009}'
    ||| c == '\u{200a}'
    ||| c == '\u{2028}'
    ||| c == '\u{2029}'
    ||| c == '\u{202f}'
    ||| c == '\u{205f}'
    ||| c == '\u{3000}'
}

/// Whether `c` is a whitespace character.
pub fn is_space(c: char) -> (r: bool)
    ensures
        r == spec_is_space(c),
{
    c == ' ' || c == '\t' || c == '\n' || c == '\u{b}' || c == '\u{c}' || c == '\r'
        || c == '\u{85}' || c == '\u{a0}' || c == '\u{1680}' || c == '\u{2000}' || c == '\u{2001}'
        || c == '\u{2002}' || c == '\u{2003}' || c == '\u{2004}' || c == '\u{2005}'
        || c == '\u{2006}' || c == '\u{2007}' || c == '\u{2008}' || c == '\u{2009}'
        || c == '\u{200a}' || c == '\u{2028}' || c == '\u{2029}' || c == '\u{202f}'
        || c == '\u{205f}' || c == '\u{3000}'
}

/// Whether `t` still holds a character once leading and trailing whitespace is
/// trimmed away — that is, whether any character of `t` is not whitespace.
pub open spec fn spec_title_visible(t: Seq<char>) -> bool {
    exists|i: int| 0 <= i < t.len() && !spec_is_space(t[i])
}

/// A title is valid when it fits the length cap and is non-empty after
/// trimming.
pub open spec fn spec_valid_title(t: Seq<char>) -> bool {
    t.len() <= MAX_TITLE_CHARS && spec_title_visible(t)
}

/// Content is valid when it is non-empty and fits the length cap.
pub open spec fn spec_valid_content(c: Seq<u8>) -> bool {
    1 <= c.len() <= MAX_CONTENT_BYTES
}

/// Whether any character of `s` is not whitespace.
pub fn has_visible_char(s: &str) -> (r: bool)
    ensures
        r == spec_title_visible(s@),
{
    let n = s.unicode_len();
    let mut i: usize = 0;
    while i < n
        invariant
            n == s@.len(),
            i <= n,
            forall|j: int| 0 <= j < i ==> spec_is_space(s@[j]),
        decreases n - i,
    {
        let c = s.get_char(i);
        if !is_space(c) {
            return true;
        }
        i += 1;
    }
    false
}

/// The mathematical content of a note record.
pub struct NoteView {
    pub author: u64,
    pub title: Seq<char>,
    pub content: Seq<u8>,
    pub created_at: int,
    pub last_updated: int,
}

impl NoteView {
    /// Well-formedness of a stored record: the fields passed validation and
    /// the update stamp never precedes the creation stamp.
    pub open spec fn wf(self) -> bool {
        &&& spec_valid_title(self.title)
        &&& spec_valid_content(self.content)
        &&& self.created_at <= self.last_updated
    }
}

/// A note record: one per owner, addressed by the owner's identity.
#[derive(Debug, PartialEq, Eq)]
pub struct Note {
    /// The identity that created the record; immutable afterwards.
    pub author: AuthorId,
    /// Set once at creation, never mutated afterwards.
    pub title: String,
    /// The payload; replaced by every successful update.
    pub content: Vec<u8>,
    /// The trusted clock's reading when the record was created.
    pub created_at: i64,
    /// The trusted clock's reading at creation and at every successful update.
    pub last_updated: i64,
}

impl View for Note {
    type V = NoteView;

    open spec fn view(&self) -> NoteView {
        NoteView {
            author: self.author.key,
            title: self.title@,
            content: self.content@,
            created_at: self.created_at as int,
            last_updated: self.last_updated as int,
        }
    }
}

/// The outcome of validating creation inputs, with the checks applied in a
/// fixed order so that the first violated check is the one reported.
pub open spec fn spec_check_create(title: Seq<char>, content: Seq<u8>) -> Result<(), NotesError> {
    if title.len() > MAX_TITLE_CHARS {
        Err(NotesError::TitleTooLong)
    } else if content.len() > MAX_CONTENT_BYTES {
        Err(NotesError::ContentTooLong)
    } else if !spec_title_visible(title) {
        Err(NotesError::TitleEmpty)
    } else if content.len() == 0 {
        Err(NotesError::ContentEmpty)
    } else {
        Ok(())
    }
}

/// The record that a successful creation produces: every field taken from the
/// inputs, both timestamps set to the clock reading.
pub open spec fn spec_new_note(author: u64, title: Seq<char>, content: Seq<u8>, now: int) -> NoteView {
    NoteView { author: author, title: title, content: content, created_at: now, last_updated: now }
}

/// The outcome of creation: the validated inputs turned into a record, or the
/// first validation failure.
pub open spec fn spec_create_note(
    author: u64,
    title: Seq<char>,
    content: Seq<u8>,
    now: int,
) -> Result<NoteView, NotesError> {
    match spec_check_create(title, content) {
        Ok(_) => Ok(spec_new_note(author, title, content, now)),
        Err(e) => Err(e),
    }
}

/// The outcome of updating record `n` as `signer`: content replaced and the
/// update stamp advanced to `now`, or the first violated check. The title,
/// owner and creation stamp are never touched.
pub open spec fn spec_update_note(
    n: NoteView,
    signer: u64,
    content: Seq<u8>,
    now: int,
) -> Result<NoteView, NotesError> {
    if n.author != signer {
        Err(NotesError::Unauthorized)
    } else if content.len() > MAX_CONTENT_BYTES {
        Err(NotesError::ContentTooLong)
    } else if content.len() == 0 {
        Err(NotesError::ContentEmpty)
    } else {
        Ok(NoteView { content: content, last_updated: now, ..n })
    }
}

/// The outcome of the deletion check on record `n` as `signer`: only the
/// recorded owner may delete.
pub open spec fn spec_delete_note(n: NoteView, signer: u64) -> Result<(), NotesError> {
    if n.author != signer {
        Err(NotesError::Unauthorized)
    } else {
        Ok(())
    }
}

impl Note {
    /// Validates the inputs and builds the record of a new note, with both
    /// timestamps set to `now`, the trusted clock's reading.
    pub fn create(author: AuthorId, title: String, content: Vec<u8>, now: i64) -> (r: Result<
        Note,
        NotesError,
    >)
        ensures
            match spec_create_note(author.key, title@, content@, now as int) {
                Ok(v) => r matches Ok(n) && n@ == v,
                Err(e) => r == Err::<Note, NotesError>(e),
            },
    {
        if title.as_str().unicode_len() > MAX_TITLE_CHARS {
            return Err(NotesError::TitleTooLong);
        }
        if content.len() > MAX_CONTENT_BYTES {
            return Err(NotesError::ContentTooLong);
        }
        if !has_visible_char(title.as_str()) {
            return Err(NotesError::TitleEmpty);
        }
        if content.len() == 0 {
            return Err(NotesError::ContentEmpty);
        }
        Ok(Note { author, title, content, created_at: now, last_updated: now })
    }

    /// Replaces the content and advances the update stamp to `now` when
    /// `signer` is the recorded owner and the new content is valid; otherwise
    /// reports the first violated check and leaves the record untouched.
    pub fn update(&mut self, signer: AuthorId, content: Vec<u8>, now: i64) -> (r: Result<
        (),
        NotesError,
    >)
        ensures
            match spec_update_note(old(self)@, signer.key, content@, now as int) {
                Ok(v) => r matches Ok(u) && final(self)@ == v,
                Err(e) => r == Err::<(), NotesError>(e) && final(self)@ == old(self)@,
            },
    {
        if self.author.key != signer.key {
            return Err(NotesError::Unauthorized);
        }
        if content.len() > MAX_CONTENT_BYTES {
            return Err(NotesError::ContentTooLong);
        }
        if content.len() == 0 {
            return Err(NotesError::ContentEmpty);
        }
        self.content = content;
        self.last_updated = now;
        Ok(())
    }

    /// Decides whether `signer` may delete this record: only the recorded
    /// owner may.
    pub fn authorize_delete(&self, signer: AuthorId) -> (r: Result<(), NotesError>)
        ensures
            r == spec_delete_note(self@, signer.key),
    {
        if self.author.key != signer.key {
            return Err(NotesError::Unauthorized);
        }
        Ok(())
    }
}

} // verus!
