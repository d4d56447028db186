//! Scalar coercion for a typed query language, with an adapter that lets
//! `serde_json::Value` stand as a leaf scalar carried over the wire as JSON text.
//!
//! - [`value`]: the output tree and the input tree that scalars live in.
//! - [`token`]: lexical scalar tokens, the decoding of string literal escapes,
//!   and the coercion error taxonomy.
//! - [`json`]: the JSON adapter, with its three conversions and their laws.

pub mod json;
pub mod token;
pub mod value;
