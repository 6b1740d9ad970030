use vstd::prelude::*;
use vstd::map::*;
use std::collections::HashMap;
use crate::addressing::AuthorId;
use crate::addressing::derive_address;
use crate::addressing::spec_derive_address;
use crate::errors::NotesError;
use crate::errors::StoreError;
use crate::note::MAX_CONTENT_BYTES;
use crate::note::Note;
use crate::note::NoteView;
use crate::note::spec_create_note;
use crate::note::spec_delete_note;
use crate::note::spec_update_note;

verus! {

broadcast use vstd::std_specs::hash::group_hash_axioms;

/// The storage reserved for one record, sized to the schema's fixed maximum:
/// a record header, the owner identity, the length-prefixed title and content
/// at their caps, and the two timestamps. Creation must be funded with at
/// least this much; deletion refunds exactly this much to the owner.
pub const NOTE_SPACE: u64 = 8 + 8 + 4 + 100 + 4 + 1000 + 8 + 8;

/// Well-formedness of the whole store: every record passed validation, its
/// update stamp never precedes its creation stamp, and it sits at the address
/// derived from its own owner — so each owner holds at most one record.
pub open spec fn store_wf(m: Map<u64, NoteView>) -> bool {
    forall|a: u64|
        #[trigger] m.contains_key(a) ==> m[a].wf() && spec_derive_address(m[a].author) == a
}

/// Whether `now` is no earlier than any clock reading already recorded in the
/// store. The host's trusted clock is monotonically non-decreasing, so every
/// reading it hands to an operation satisfies this.
pub open spec fn clock_in_order(m: Map<u64, NoteView>, now: int) -> bool {
    forall|a: u64| #[trigger] m.contains_key(a) ==> m[a].last_updated <= now
}

/// The creation transition on the store's content. The host-level checks come
/// first — the derived address must be free and the allocation funded — then
/// the lifecycle validation; on success the new record is written at the
/// address derived from its owner.
pub open spec fn spec_create(
    m: Map<u64, NoteView>,
    author: u64,
    title: Seq<char>,
    content: Seq<u8>,
    now: int,
    funds: u64,
) -> Result<Map<u64, NoteView>, StoreError> {
    let addr = spec_derive_address(author);
    if m.contains_key(addr) {
        Err(StoreError::AlreadyExists)
    } else if funds < NOTE_SPACE {
        Err(StoreError::InsufficientFunds)
    } else {
        match spec_create_note(author, title, content, now) {
            Ok(v) => Ok(m.insert(addr, v)),
            Err(e) => Err(StoreError::Rejected(e)),
        }
    }
}

/// The update transition on the store's content. A record must exist at the
/// given address and — re-deriving from its stored owner — must really belong
/// there; then the lifecycle validation decides, and on success the record is
/// replaced in place.
pub open spec fn spec_update(
    m: Map<u64, NoteView>,
    address: u64,
    signer: u64,
    content: Seq<u8>,
    now: int,
) -> Result<Map<u64, NoteView>, StoreError> {
    if !m.contains_key(address) {
        Err(StoreError::NoSuchNote)
    } else if spec_derive_address(m[address].author) != address {
        Err(StoreError::NoSuchNote)
    } else {
        match spec_update_note(m[address], signer, content, now) {
            Ok(v) => Ok(m.insert(address, v)),
            Err(e) => Err(StoreError::Rejected(e)),
        }
    }
}

/// The deletion transition on the store's content. A record must exist at the
/// given address and belong there; only its owner may remove it.
pub open spec fn spec_delete(
    m: Map<u64, NoteView>,
    address: u64,
    signer: u64,
) -> Result<Map<u64, NoteView>, StoreError> {
    if !m.contains_key(address) {
        Err(StoreError::NoSuchNote)
    } else if spec_derive_address(m[address].author) != address {
        Err(StoreError::NoSuchNote)
    } else {
        match spec_delete_note(m[address], signer) {
            Ok(u) => Ok(m.remove(address)),
            Err(e) => Err(StoreError::Rejected(e)),
        }
    }
}

/// The accounts taking part in a creation: the authenticated signer, who
/// becomes the record's owner, and the funding supplied to pay for the
/// record's storage.
pub struct CreateNote {
    pub author: AuthorId,
    pub funds: u64,
}

/// The accounts taking part in an update: the address of the targeted record
/// and the authenticated signer.
pub struct UpdateNote {
    pub note: u64,
    pub author: AuthorId,
}

/// The accounts taking part in a deletion: the address of the targeted record
/// and the authenticated signer, to whom the storage deposit is refunded.
pub struct DeleteNote {
    pub note: u64,
    pub author: AuthorId,
}

/// The abstraction of the store's backing table.
pub open spec fn store_view(m: Map<u64, Note>) -> Map<u64, NoteView> {
    m.map_values(|n: Note| n@)
}

proof fn lemma_store_view_at(m: Map<u64, Note>, a: u64)
    ensures
        store_view(m).contains_key(a) == m.contains_key(a),
        m.contains_key(a) ==> store_view(m)[a] == m[a]@,
{
}

proof fn lemma_store_view_insert(m: Map<u64, Note>, a: u64, n: Note)
    ensures
        store_view(m.insert(a, n)) == store_view(m).insert(a, n@),
{
    assert_maps_equal!(store_view(m.insert(a, n)), store_view(m).insert(a, n@));
}

proof fn lemma_store_view_remove(m: Map<u64, Note>, a: u64)
    ensures
        store_view(m.remove(a)) == store_view(m).remove(a),
{
    assert_maps_equal!(store_view(m.remove(a)), store_view(m).remove(a));
}

/// The transactional record store: records keyed by their derived addresses,
/// each operation applied atomically — fully applied on success, no partial
/// write on rejection.
pub struct NoteStore {
    notes: HashMap<u64, Note>,
}

impl View for NoteStore {
    type V = Map<u64, NoteView>;

    closed spec fn view(&self) -> Map<u64, NoteView> {
        store_view(self.notes@)
    }
}

impl NoteStore {
    /// An empty store: no owner holds a record yet.
    pub fn new() -> (s: NoteStore)
        ensures
            s@ == Map::<u64, NoteView>::empty(),
    {
        let s = NoteStore { notes: HashMap::new() };
        proof {
            assert_maps_equal!(store_view(s.notes@), Map::<u64, NoteView>::empty());
        }
        s
    }

    /// Creates `accounts.author`'s note, writing the validated record at the
    /// owner's derived address with both timestamps set to `now`, or rejects
    /// the operation and leaves the store untouched.
    pub fn create_note(
        &mut self,
        accounts: CreateNote,
        title: String,
        content: Vec<u8>,
        now: i64,
    ) -> (r: Result<(), StoreError>)
        ensures
            match spec_create(
                old(self)@,
                accounts.author.key,
                title@,
                content@,
                now as int,
                accounts.funds,
            ) {
                Ok(m) => r matches Ok(u) && final(self)@ == m,
                Err(e) => r == Err::<(), StoreError>(e) && final(self)@ == old(self)@,
            },
            store_wf(old(self)@) ==> store_wf(final(self)@),
    {
        let addr = derive_address(accounts.author);
        if self.notes.contains_key(&addr) {
            proof {
                lemma_store_view_at(self.notes@, addr);
            }
            return Err(StoreError::AlreadyExists);
        }
        if accounts.funds < NOTE_SPACE {
            proof {
                lemma_store_view_at(self.notes@, addr);
            }
            return Err(StoreError::InsufficientFunds);
        }
        match Note::create(accounts.author, title, content, now) {
            Ok(n) => {
                proof {
                    lemma_store_view_at(self.notes@, addr);
                    lemma_store_view_insert(self.notes@, addr, n);
                }
                self.notes.insert(addr, n);
                proof {
                    if store_wf(old(self)@) {
                        assert forall|a: u64| #[trigger] self@.contains_key(a) implies self@[a].wf()
                            && spec_derive_address(self@[a].author) == a by {
                            if a != addr {
                                assert(old(self)@.contains_key(a));
                            }
                        }
                    }
                }
                Ok(())
            },
            Err(e) => {
                proof {
                    lemma_store_view_at(self.notes@, addr);
                }
                Err(StoreError::Rejected(e))
            },
        }
    }

    /// Updates the record at `accounts.note` as the signer `accounts.author`:
    /// on success the content is replaced and the update stamp advanced to
    /// `now`, with the title, owner and creation stamp untouched; otherwise
    /// the store is left untouched.
    pub fn update_note(&mut self, accounts: UpdateNote, content: Vec<u8>, now: i64) -> (r: Result<
        (),
        StoreError,
    >)
        ensures
            match spec_update(old(self)@, accounts.note, accounts.author.key, content@, now as int) {
                Ok(m) => r matches Ok(u) && final(self)@ == m,
                Err(e) => r == Err::<(), StoreError>(e) && final(self)@ == old(self)@,
            },
            store_wf(old(self)@) && clock_in_order(old(self)@, now as int) ==> store_wf(
                final(self)@,
            ),
    {
        proof {
            lemma_store_view_at(self.notes@, accounts.note);
        }
        let (author, title, created_at) = match self.notes.get(&accounts.note) {
            None => {
                return Err(StoreError::NoSuchNote);
            },
            Some(n) => (n.author, n.title.clone(), n.created_at),
        };
        let stored_addr = derive_address(author);
        if stored_addr != accounts.note {
            return Err(StoreError::NoSuchNote);
        }
        if author.key != accounts.author.key {
            return Err(StoreError::Rejected(NotesError::Unauthorized));
        }
        if content.len() > MAX_CONTENT_BYTES {
            return Err(StoreError::Rejected(NotesError::ContentTooLong));
        }
        if content.len() == 0 {
            return Err(StoreError::Rejected(NotesError::ContentEmpty));
        }
        let replacement = Note { author, title, content, created_at, last_updated: now };
        proof {
            lemma_store_view_insert(self.notes@, accounts.note, replacement);
        }
        self.notes.insert(accounts.note, replacement);
        proof {
            if store_wf(old(self)@) && clock_in_order(old(self)@, now as int) {
                assert forall|a: u64| #[trigger] self@.contains_key(a) implies self@[a].wf()
                    && spec_derive_address(self@[a].author) == a by {
                    if a != accounts.note {
                        assert(old(self)@.contains_key(a));
                    }
                }
            }
        }
        Ok(())
    }

    /// Deletes the record at `accounts.note` as the signer `accounts.author`:
    /// on success the record is removed and the storage deposit handed back,
    /// so the deleted owner's address is free again; otherwise the store is
    /// left untouched.
    pub fn delete_note(&mut self, accounts: DeleteNote) -> (r: Result<u64, StoreError>)
        ensures
            match spec_delete(old(self)@, accounts.note, accounts.author.key) {
                Ok(m) => r == Ok::<u64, StoreError>(NOTE_SPACE) && final(self)@ == m,
                Err(e) => r == Err::<u64, StoreError>(e) && final(self)@ == old(self)@,
            },
            store_wf(old(self)@) ==> store_wf(final(self)@),
    {
        proof {
            lemma_store_view_at(self.notes@, accounts.note);
        }
        let author = match self.notes.get(&accounts.note) {
            None => {
                return Err(StoreError::NoSuchNote);
            },
            Some(n) => n.author,
        };
        let stored_addr = derive_address(author);
        if stored_addr != accounts.note {
            return Err(StoreError::NoSuchNote);
        }
        if author.key != accounts.author.key {
            return Err(StoreError::Rejected(NotesError::Unauthorized));
        }
        proof {
            lemma_store_view_remove(self.notes@, accounts.note);
        }
        self.notes.remove(&accounts.note);
        proof {
            if store_wf(old(self)@) {
                assert forall|a: u64| #[trigger] self@.contains_key(a) implies self@[a].wf()
                    && spec_derive_address(self@[a].author) == a by {
                    assert(old(self)@.contains_key(a));
                }
            }
        }
        Ok(NOTE_SPACE)
    }

    /// Reads the record at `address`, if one exists.
    pub fn get_note(&self, address: u64) -> (r: Option<&Note>)
        ensures
            match r {
                Some(n) => self@.contains_key(address) && n@ == self@[address],
                None => !self@.contains_key(address),
            },
    {
        proof {
            lemma_store_view_at(self.notes@, address);
        }
        self.notes.get(&address)
    }

    /// The number of records the store holds.
    pub fn len(&self) -> (n: usize)
        ensures
            n == self@.dom().len(),
    {
        proof {
            assert(self@.dom() =~= self.notes@.dom());
        }
        self.notes.len()
    }
}

} // verus!
