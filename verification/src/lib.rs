//! A codec that stores a JSON value in a single relational database column.
//!
//! The encoder serializes a [`serde_json::Value`] to its canonical text and
//! then rewrites every occurrence of the four bytes `null` to `NULL` before
//! the text is stored. The decoder accepts a textual or binary column,
//! parses its raw bytes as JSON text, and rejects every other column kind.

pub mod codec;
pub mod column;
pub mod json_text;

pub use codec::column_result;
pub use codec::replace_null;
pub use codec::to_sql;
pub use column::ColumnValue;
pub use column::DecodeError;
