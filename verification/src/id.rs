//! Window identifiers.
//!
//! A window is named by one of three identifier forms: a plain integer, an
//! opaque pointer value, or a byte string. The identifier is used once, at
//! commit time, to derive a stable numeric window ID through the frame
//! context's hashing facility: the integer and pointer forms hash their raw
//! value through the pointer facility, the string form hashes exactly its
//! byte range.

use vstd::prelude::*;

verus! {

/// One of the three identifier forms of a child window.
#[derive(Clone, Debug)]
pub enum Id {
    /// An integer identifier, reinterpreted as an address-sized value.
    Int(u64),
    /// An opaque pointer value, carried as its address.
    Ptr(u64),
    /// A string identifier, carried as its byte range.
    Str(Vec<u8>),
}

} // verus!
