use vstd::prelude::*;
use crate::addressing::lemma_derive_address_injective;
use crate::addressing::spec_derive_address;
use crate::errors::NotesError;
use crate::errors::StoreError;
use crate::note::MAX_CONTENT_BYTES;
use crate::note::MAX_TITLE_CHARS;
use crate::note::NoteView;
use crate::note::spec_new_note;
use crate::note::spec_title_visible;
use crate::store::NOTE_SPACE;
use crate::store::clock_in_order;
use crate::store::spec_create;
use crate::store::spec_delete;
use crate::store::spec_update;
use crate::store::store_wf;

verus! {

/// Law: a creation whose inputs are all valid — a title within the cap and
/// non-empty after trimming, content within its caps — succeeds whenever the
/// owner's address is free and the allocation is funded, and the new record
/// carries exactly the inputs, with its creation and update stamps equal.
pub proof fn lemma_create_succeeds(
    m: Map<u64, NoteView>,
    author: u64,
    title: Seq<char>,
    content: Seq<u8>,
    now: int,
    funds: u64,
)
    requires
        !m.contains_key(spec_derive_address(author)),
        funds >= NOTE_SPACE,
        title.len() <= MAX_TITLE_CHARS,
        spec_title_visible(title),
        1 <= content.len() <= MAX_CONTENT_BYTES,
    ensures
        spec_create(m, author, title, content, now, funds) matches Ok(m2) && ({
            let a = spec_derive_address(author);
            &&& m2 == m.insert(a, spec_new_note(author, title, content, now))
            &&& m2.contains_key(a)
            &&& m2[a].author == author
            &&& m2[a].title == title
            &&& m2[a].content == content
            &&& m2[a].created_at == now
            &&& m2[a].last_updated == now
            &&& m2[a].created_at == m2[a].last_updated
        }),
{
}

/// Law: an invalid creation is rejected with the first violated check — an
/// over-long title, then over-long content, then a title that trims to
/// nothing, then empty content — stated here with the owner's address free
/// and the allocation funded, so that the validation is what decides.
pub proof fn lemma_create_rejects(
    m: Map<u64, NoteView>,
    author: u64,
    title: Seq<char>,
    content: Seq<u8>,
    now: int,
    funds: u64,
)
    requires
        !m.contains_key(spec_derive_address(author)),
        funds >= NOTE_SPACE,
    ensures
        title.len() > MAX_TITLE_CHARS ==> spec_create(m, author, title, content, now, funds)
            == Err::<Map<u64, NoteView>, StoreError>(StoreError::Rejected(NotesError::TitleTooLong)),
        title.len() <= MAX_TITLE_CHARS && content.len() > MAX_CONTENT_BYTES ==> spec_create(
            m,
            author,
            title,
            content,
            now,
            funds,
        ) == Err::<Map<u64, NoteView>, StoreError>(StoreError::Rejected(NotesError::ContentTooLong)),
        title.len() <= MAX_TITLE_CHARS && content.len() <= MAX_CONTENT_BYTES
            && !spec_title_visible(title) ==> spec_create(m, author, title, content, now, funds)
            == Err::<Map<u64, NoteView>, StoreError>(StoreError::Rejected(NotesError::TitleEmpty)),
        title.len() <= MAX_TITLE_CHARS && spec_title_visible(title) && content.len() == 0
            ==> spec_create(m, author, title, content, now, funds) == Err::<
            Map<u64, NoteView>,
            StoreError,
        >(StoreError::Rejected(NotesError::ContentEmpty)),
{
}

/// Law: once an owner's record exists, a second creation for the same owner
/// is rejected because the derived address is already occupied — whatever
/// title, content, clock reading or funding the second call brings — and the
/// first record still sits there unmodified.
pub proof fn lemma_create_collision(
    m: Map<u64, NoteView>,
    author: u64,
    title: Seq<char>,
    content: Seq<u8>,
    now: int,
    funds: u64,
    title2: Seq<char>,
    content2: Seq<u8>,
    now2: int,
    funds2: u64,
)
    requires
        spec_create(m, author, title, content, now, funds) is Ok,
    ensures
        ({
            let m2 = spec_create(m, author, title, content, now, funds)->Ok_0;
            let a = spec_derive_address(author);
            &&& spec_create(m2, author, title2, content2, now2, funds2) == Err::<
                Map<u64, NoteView>,
                StoreError,
            >(StoreError::AlreadyExists)
            &&& m2.contains_key(a)
            &&& m2[a] == spec_new_note(author, title, content, now)
        }),
{
}

/// Law: an update by the record's owner with valid content replaces the
/// content and moves the update stamp to the clock reading — never backwards,
/// since the trusted clock never runs behind the stamps it produced — while
/// the title, the owner, the creation stamp and every other record are left
/// exactly as they were.
pub proof fn lemma_update_by_owner(
    m: Map<u64, NoteView>,
    address: u64,
    signer: u64,
    content: Seq<u8>,
    now: int,
)
    requires
        store_wf(m),
        m.contains_key(address),
        signer == m[address].author,
        1 <= content.len() <= MAX_CONTENT_BYTES,
    ensures
        spec_update(m, address, signer, content, now) matches Ok(m2) && {
            &&& m2.dom() == m.dom()
            &&& m2[address].content == content
            &&& m2[address].last_updated == now
            &&& m2[address].title == m[address].title
            &&& m2[address].author == m[address].author
            &&& m2[address].created_at == m[address].created_at
            &&& (clock_in_order(m, now) ==> m[address].last_updated <= m2[address].last_updated)
            &&& forall|k: u64|
                k != address && #[trigger] m.contains_key(k) ==> m2.contains_key(k) && m2[k] == m[k]
        },
{
    let r = spec_update(m, address, signer, content, now);
    assert(r is Ok);
    assert(r->Ok_0.dom() =~= m.dom());
}

/// Law: an update signed by anyone but the record's owner is rejected as
/// unauthorized, whatever content or clock reading it brings; and since the
/// store leaves its content untouched on every rejection, the record stays
/// unchanged.
pub proof fn lemma_update_unauthorized(
    m: Map<u64, NoteView>,
    address: u64,
    signer: u64,
    content: Seq<u8>,
    now: int,
)
    requires
        m.contains_key(address),
        spec_derive_address(m[address].author) == address,
        signer != m[address].author,
    ensures
        spec_update(m, address, signer, content, now) == Err::<Map<u64, NoteView>, StoreError>(
            StoreError::Rejected(NotesError::Unauthorized),
        ),
{
}

/// Law: after a successful deletion the record is gone from its address, any
/// further update or deletion aimed at that address is rejected because no
/// record exists there, and every other record is left exactly as it was.
pub proof fn lemma_delete_then_gone(
    m: Map<u64, NoteView>,
    address: u64,
    signer: u64,
    signer2: u64,
    content: Seq<u8>,
    now: int,
)
    requires
        spec_delete(m, address, signer) is Ok,
    ensures
        ({
            let m2 = spec_delete(m, address, signer)->Ok_0;
            &&& !m2.contains_key(address)
            &&& spec_update(m2, address, signer2, content, now) == Err::<
                Map<u64, NoteView>,
                StoreError,
            >(StoreError::NoSuchNote)
            &&& spec_delete(m2, address, signer2) == Err::<Map<u64, NoteView>, StoreError>(
                StoreError::NoSuchNote,
            )
            &&& forall|k: u64|
                k != address && #[trigger] m.contains_key(k) ==> m2.contains_key(k) && m2[k] == m[k]
        }),
{
}

/// Law: a deletion signed by anyone but the record's owner is rejected as
/// unauthorized; and since the store leaves its content untouched on every
/// rejection, the record still exists, unchanged.
pub proof fn lemma_delete_unauthorized(m: Map<u64, NoteView>, address: u64, signer: u64)
    requires
        m.contains_key(address),
        spec_derive_address(m[address].author) == address,
        signer != m[address].author,
    ensures
        spec_delete(m, address, signer) == Err::<Map<u64, NoteView>, StoreError>(
            StoreError::Rejected(NotesError::Unauthorized),
        ),
{
}

/// Law: a rejected operation can be replayed verbatim. Every rejected store
/// operation leaves the store's content as it was (the store methods ensure
/// it), so here `m2`, the content after the first rejection, equals `m`; the
/// transitions decide on the content and the inputs alone, so the replay is
/// rejected with the identical error and, again, mutates nothing.
pub proof fn lemma_rejection_repeats(
    m: Map<u64, NoteView>,
    m2: Map<u64, NoteView>,
    author: u64,
    title: Seq<char>,
    content: Seq<u8>,
    now: int,
    funds: u64,
    address: u64,
    signer: u64,
    e: StoreError,
)
    requires
        m2 == m,
    ensures
        spec_create(m, author, title, content, now, funds) == Err::<Map<u64, NoteView>, StoreError>(
            e,
        ) ==> spec_create(m2, author, title, content, now, funds) == Err::<
            Map<u64, NoteView>,
            StoreError,
        >(e),
        spec_update(m, address, signer, content, now) == Err::<Map<u64, NoteView>, StoreError>(e)
            ==> spec_update(m2, address, signer, content, now) == Err::<
            Map<u64, NoteView>,
            StoreError,
        >(e),
        spec_delete(m, address, signer) == Err::<Map<u64, NoteView>, StoreError>(e) ==> spec_delete(
            m2,
            address,
            signer,
        ) == Err::<Map<u64, NoteView>, StoreError>(e),
{
}

/// Law: a well-formed store holds at most one record per owner — every record
/// sits at its owner's derived address, and derivation never collides, so two
/// records with the same owner are the same record.
pub proof fn lemma_one_record_per_owner(m: Map<u64, NoteView>, a1: u64, a2: u64)
    requires
        store_wf(m),
        m.contains_key(a1),
        m.contains_key(a2),
        m[a1].author == m[a2].author,
    ensures
        a1 == a2,
{
    lemma_derive_address_injective(m[a1].author, m[a2].author);
}

/// Law: every successful transition preserves the store's well-formedness —
/// each record valid, its stamps in order, and each sitting at its owner's
/// derived address. An update also needs the clock reading to be no earlier
/// than the stamps already stored, which the host's monotonic clock
/// guarantees.
pub proof fn lemma_transitions_preserve_wf(
    m: Map<u64, NoteView>,
    author: u64,
    title: Seq<char>,
    content: Seq<u8>,
    now: int,
    funds: u64,
    address: u64,
    signer: u64,
)
    requires
        store_wf(m),
    ensures
        spec_create(m, author, title, content, now, funds) matches Ok(m2) ==> store_wf(m2),
        clock_in_order(m, now) && spec_update(m, address, signer, content, now) is Ok
            ==> store_wf(spec_update(m, address, signer, content, now)->Ok_0),
        spec_delete(m, address, signer) matches Ok(m2) ==> store_wf(m2),
{
    let rc = spec_create(m, author, title, content, now, funds);
    if rc is Ok {
        let m2 = rc->Ok_0;
        assert forall|a: u64| #[trigger] m2.contains_key(a) implies m2[a].wf()
            && spec_derive_address(m2[a].author) == a by {
            if a != spec_derive_address(author) {
                assert(m.contains_key(a));
            }
        }
    }
    let ru = spec_update(m, address, signer, content, now);
    if clock_in_order(m, now) && ru is Ok {
        let m2 = ru->Ok_0;
        assert forall|a: u64| #[trigger] m2.contains_key(a) implies m2[a].wf()
            && spec_derive_address(m2[a].author) == a by {
            if a != address {
                assert(m.contains_key(a));
            }
        }
    }
    let rd = spec_delete(m, address, signer);
    if rd is Ok {
        let m2 = rd->Ok_0;
        assert forall|a: u64| #[trigger] m2.contains_key(a) implies m2[a].wf()
            && spec_derive_address(m2[a].author) == a by {
            assert(m.contains_key(a));
        }
    }
}

} // verus!
