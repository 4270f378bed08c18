//! The loader's error values.
//!
//! A failed load is one of three kinds, so that a caller can tell a missing
//! source from malformed content: the byte source could not be supplied at
//! all, the document does not parse or does not have the expected shape, or
//! an embedded binary field does not decode.

use vstd::prelude::*;

verus! {

/// Why a load failed.
#[derive(Debug, PartialEq)]
pub enum LoadError {
    /// The byte source could not be opened or read.  The loader itself
    /// never produces this; a caller that resolves a path or a stream to
    /// bytes reports its failure through this variant.
    SourceUnavailable {
        /// The underlying cause, as text.
        detail: String,
    },
    /// The document is not well-formed JSON, or does not match the
    /// expected shape (a missing required member, a wrong type, a wrong
    /// arity).
    StructuralError {
        /// True when the text itself is not valid JSON; false when the
        /// JSON is valid but its shape is wrong.
        syntax: bool,
        /// An account of the mismatch.
        detail: String,
    },
    /// A data-URI field is shorter than its fixed header, or its payload
    /// is not valid base64.
    DecodeError {
        /// An account of the failure.
        detail: String,
    },
}

/// The kind of a mapping failure, as the mapping specification states it.
pub enum MapFault {
    /// The document's shape does not match: surfaced as a non-syntax
    /// [`LoadError::StructuralError`].
    Shape,
    /// A binary field does not decode: surfaced as a
    /// [`LoadError::DecodeError`].
    Decode,
}

/// Whether the error `e` surfaces the mapping failure `f`.
pub open spec fn fault_matches(e: LoadError, f: MapFault) -> bool {
    match f {
        MapFault::Shape => e matches LoadError::StructuralError { syntax: false, .. },
        MapFault::Decode => e matches LoadError::DecodeError { .. },
    }
}

/// A shape mismatch, with `detail` as its account.
pub fn shape_error(detail: &str) -> (e: LoadError)
    ensures
        fault_matches(e, MapFault::Shape),
{
    LoadError::StructuralError { syntax: false, detail: detail.to_owned() }
}

/// A binary field decoding failure, with `detail` as its account.
pub fn decode_error(detail: &str) -> (e: LoadError)
    ensures
        fault_matches(e, MapFault::Decode),
{
    LoadError::DecodeError { detail: detail.to_owned() }
}

impl LoadError {
    /// The error's account of itself, whichever kind it is.
    pub open spec fn spec_detail(&self) -> Seq<char> {
        match self {
            LoadError::SourceUnavailable { detail } => detail@,
            LoadError::StructuralError { detail, .. } => detail@,
            LoadError::DecodeError { detail } => detail@,
        }
    }

    /// The error's account of itself, for callers that report it.
    pub fn detail_text(&self) -> (r: &String)
        ensures
            r@ == self.spec_detail(),
    {
        match self {
            LoadError::SourceUnavailable { detail } => detail,
            LoadError::StructuralError { detail, .. } => detail,
            LoadError::DecodeError { detail } => detail,
        }
    }
}

} // verus!
