//! A line-oriented request/response front end for an embedded SQL engine.
//!
//! Each request is one JSON object: a method tag selects whether to execute a
//! statement, run a query and return all rows at once, or open a server-side
//! cursor and fetch from it incrementally through a small integer handle.
//! Each response is one JSON object carrying either a success payload or an
//! error message.

pub mod cursor;
pub mod error;
pub mod input;
pub mod jsontext;
pub mod number;
pub mod output;
pub mod session;
pub mod table;
pub mod value;
pub mod wire;

pub use error::err;
pub use error::Error;
