use vstd::prelude::*;

verus! {

/// The identity of a principal, as the host's signer verification hands it
/// over. The host authenticates the caller before the lifecycle logic runs;
/// the logic itself only ever compares identities.
#[derive(Clone, Copy, Debug, PartialEq, Eq, Hash, Structural)]
pub struct AuthorId {
    pub key: u64,
}

/// The namespace tag that keeps note addresses apart from any other kind of
/// record a host might store.
pub const NOTE_NAMESPACE: u64 = 0x6e6f_7465;

/// The derived storage address of an owner's note: a pure combination of the
/// namespace tag and the owner's identity. The same owner always yields the
/// same address, and distinct owners never collide
/// (see [`lemma_derive_address_injective`]).
pub open spec fn spec_derive_address(author: u64) -> u64 {
    NOTE_NAMESPACE ^ author
}

/// Computes the storage address of `author`'s note.
pub fn derive_address(author: AuthorId) -> (addr: u64)
    ensures
        addr == spec_derive_address(author.key),
{
    NOTE_NAMESPACE ^ author.key
}

proof fn lemma_xor_left_cancel(t: u64, a: u64, b: u64)
    ensures
        (t ^ a) == (t ^ b) ==> a == b,
{
    assert((t ^ a) == (t ^ b) ==> a == b) by (bit_vector);
}

/// Law: address derivation never collides — two owners that derive the same
/// address are the same owner, so no owner can ever reach another owner's
/// record, and no owner can hold two records at once.
pub proof fn lemma_derive_address_injective(a: u64, b: u64)
    ensures
        spec_derive_address(a) == spec_derive_address(b) ==> a == b,
{
    lemma_xor_left_cancel(NOTE_NAMESPACE, a, b);
}

} // verus!
