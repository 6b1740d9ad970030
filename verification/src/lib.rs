//! An owner-addressed note store.
//!
//! Each principal can hold at most one note record, stored at an address
//! derived deterministically from a namespace tag and the owner's identity.
//! The record lifecycle — create, update, delete — is guarded by field
//! validation and by an authorization check against the record's owner.

pub mod addressing;
pub mod errors;
pub mod laws;
pub mod note;
pub mod store;
