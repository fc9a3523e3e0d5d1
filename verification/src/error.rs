//! Why a registry reply could not be turned into a record.

use vstd::prelude::*;

verus! {

/// The two ways in which decoding a reply fails.
#[derive(Debug, Clone, Copy, PartialEq, Eq, Structural)]
pub enum DecodeError {
    /// The bytes are not a JSON text.
    InvalidJson,
    /// The JSON is well formed but is not the document of a record: a
    /// required member is missing, a member has the wrong type, or a member
    /// is given twice.
    UnexpectedShape,
}

} // verus!
