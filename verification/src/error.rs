//! Error vocabulary of the codec.
//!
//! Every failure carries one of a small set of kinds so that callers can
//! tell a damaged buffer from an unsupported operator, plus a human-readable
//! message.  The spec-level parsers speak of kinds only; messages are for
//! diagnosis and never drive control flow.

use vstd::prelude::*;
use vstd::string::StringExecFns;

verus! {

/// Classification of a codec failure.
///
/// - `Malformed`: the buffer violates the wire grammar — a missing or
///   multi-valued envelope, an enum integer out of range, a parallel-array
///   length mismatch, a single-byte field longer than one byte, or an empty
///   required sub-message.
/// - `Unsupported`: no built-in handler matches and the extension stack
///   refuses the node, or a function name resolves nowhere.
/// - `SchemaMismatch`: an expression references a column absent from its
///   resolved schema, or a carried schema contradicts the derived one.
/// - `Internal`: a failure of the underlying framing, such as a truncated
///   buffer or a length overflow.
/// - `NotImplemented`: an extension hook was asked to do work it does not
///   provide, such as encoding through an empty codec stack.
#[derive(Clone, Copy, Debug, PartialEq, Eq, Structural)]
pub enum ErrorKind {
    Malformed,
    Unsupported,
    SchemaMismatch,
    Internal,
    NotImplemented,
}

/// A codec failure: a kind plus a diagnostic message.
#[derive(Debug)]
pub struct CodecError {
    pub kind: ErrorKind,
    pub message: String,
}

impl CodecError {
    /// Builds an error of the given kind with the given message.
    pub fn new(kind: ErrorKind, msg: &str) -> (e: CodecError)
        ensures
            e.kind == kind,
            e.message@ == msg@,
    {
        CodecError { kind, message: String::from_str(msg) }
    }

    /// Builds a `Malformed` error.
    pub fn malformed(msg: &str) -> (e: CodecError)
        ensures
            e.kind == ErrorKind::Malformed,
            e.message@ == msg@,
    {
        CodecError::new(ErrorKind::Malformed, msg)
    }

    /// Builds an `Unsupported` error.
    pub fn unsupported(msg: &str) -> (e: CodecError)
        ensures
            e.kind == ErrorKind::Unsupported,
            e.message@ == msg@,
    {
        CodecError::new(ErrorKind::Unsupported, msg)
    }

    /// Builds a `SchemaMismatch` error.
    pub fn schema_mismatch(msg: &str) -> (e: CodecError)
        ensures
            e.kind == ErrorKind::SchemaMismatch,
            e.message@ == msg@,
    {
        CodecError::new(ErrorKind::SchemaMismatch, msg)
    }

    /// Builds an `Internal` error.
    pub fn internal(msg: &str) -> (e: CodecError)
        ensures
            e.kind == ErrorKind::Internal,
            e.message@ == msg@,
    {
        CodecError::new(ErrorKind::Internal, msg)
    }

    /// Builds a `NotImplemented` error.
    pub fn not_implemented(msg: &str) -> (e: CodecError)
        ensures
            e.kind == ErrorKind::NotImplemented,
            e.message@ == msg@,
    {
        CodecError::new(ErrorKind::NotImplemented, msg)
    }

    /// The kind of this error.
    pub fn kind(&self) -> (k: ErrorKind)
        ensures
            k == self.kind,
    {
        self.kind
    }

    /// The diagnostic message of this error.
    pub fn message(&self) -> (m: &String)
        ensures
            m@ == self.message@,
    {
        &self.message
    }
}

} // verus!
