//! The column side of the codec: the database's runtime cell representation
//! and the errors a failed decode reports.

use vstd::prelude::*;

verus! {

/// One stored cell, as the database hands it to the codec at runtime.
///
/// The encoder only ever produces `Text`; the decoder reads `Text` and
/// `Blob` and rejects the rest. The other variants exist so that a cell of
/// the wrong kind can be recognised and refused.
#[derive(Debug, PartialEq, Eq)]
pub enum ColumnValue {
    /// The column's own null marker, distinct from an encoded JSON null.
    Null,
    /// A signed integer cell.
    Integer(i64),
    /// A floating-point cell, carried as its bit pattern; the codec never
    /// inspects it.
    Real(u64),
    /// A textual cell, as its raw bytes.
    Text(Vec<u8>),
    /// A binary cell, as its raw bytes.
    Blob(Vec<u8>),
}

/// Why decoding a column into a JSON value failed.
#[derive(Debug)]
pub enum DecodeError {
    /// The cell holds neither text nor a blob; decoding is defined only for
    /// those two kinds.
    TypeMismatch,
    /// The cell's bytes are not valid JSON text; carries the parser's
    /// diagnostic.
    ParseFailure(serde_json::Error),
}

} // verus!
