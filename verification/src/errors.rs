//! Error taxonomy of the decode and encode paths.
use vstd::prelude::*;

verus! {

/// Errors that can arise while decoding wire text into typed values.
#[derive(Debug, Clone, PartialEq, Eq)]
pub enum DecodeError {
    /// The wire text is not valid JSON, or the mandatory `@type` field is missing.
    Malformed,
    /// The `@type` tag matches no known concrete type of the variant being decoded;
    /// carries the offending tag.
    UnrecognizedVariant(String),
    /// A recognized type's field failed to decode; carries the type tag and the
    /// field name for debugging.
    FieldShapeMismatch(String, String),
}

/// Errors that can arise while serializing a typed value to wire text.
#[derive(Debug, Clone, PartialEq, Eq)]
pub enum EncodeError {
    /// The value cannot be expressed in the wire format; in practice only the
    /// reserved default alternative of a variant reaches this.
    Unrepresentable,
}

/// The mathematical counterpart of `DecodeError`: strings by their contents.
pub enum SpecDecodeError {
    Malformed,
    UnrecognizedVariant(Seq<char>),
    FieldShapeMismatch(Seq<char>, Seq<char>),
}

/// How an executable decode error realizes its mathematical description.
pub open spec fn err_matches(e: DecodeError, s: SpecDecodeError) -> bool {
    match (e, s) {
        (DecodeError::Malformed, SpecDecodeError::Malformed) => true,
        (DecodeError::UnrecognizedVariant(t), SpecDecodeError::UnrecognizedVariant(u)) => t@ == u,
        (
            DecodeError::FieldShapeMismatch(t, f),
            SpecDecodeError::FieldShapeMismatch(u, g),
        ) => t@ == u && f@ == g,
        _ => false,
    }
}

/// How an executable decode result realizes a mathematical outcome: a success
/// is checked by the given predicate elsewhere, an error by its description.
pub open spec fn result_is_err<T>(r: Result<T, DecodeError>, s: SpecDecodeError) -> bool {
    match r {
        Result::Ok(_) => false,
        Result::Err(e) => err_matches(e, s),
    }
}

} // verus!
