//! Verified query building and record decoding for Spanner change streams.
//!
//! - [`identifier`] checks and quotes the names of change streams;
//! - [`query`] builds the statement that reads a change stream;
//! - [`stream`] turns the rows of the result set into records;
//! - [`parse`] and [`decode`] read records from the JSON of a row, over [`json`] and [`fields`];
//! - [`record`] holds the records themselves;
//! - [`wire`] writes integer parameters;
//! - [`error`] holds the errors, [`text`] a format of their messages.
//!
//! [`record_laws`] says which record a JSON value describes, [`fault_laws`] what is wrong with one that
//! describes none, [`view_laws`] what the views of values hold, and [`operation_laws`] how the
//! operations work together.
//!
//! The library does no I/O: it decides what is to be sent, and says what an answer means.

pub mod decode;
pub mod error;
pub mod fault_laws;
pub mod fields;
pub mod identifier;
pub mod json;
pub mod operation_laws;
pub mod parse;
pub mod query;
pub mod record;
pub mod record_laws;
pub mod stream;
pub mod text;
pub mod view_laws;
pub mod wire;
