//! The logic of a small command-line client for a block explorer.
//!
//! The client takes a command and an identifier, sends one GET request,
//! reads the JSON answer into a [`record::Block`] and shows its fields line
//! by line. This library holds everything of that but the sending and the
//! printing:
//!
//! - [`command`] decides what to do for a command line;
//! - [`request`] and [`url`] make the request for a block;
//! - [`fetch`] turns the server's answer into a block or an error, and
//!   either into the lines to show;
//! - [`parse`], [`json`], [`shape`] and [`decode`] read the JSON text;
//! - [`report`] lays a block out in lines;
//! - [`laws`] states what holds of reading blocks for every input.
//!
//! Every function is verified against its contract with Verus. What is
//! taken on trust is named as such where it stands: the JSON parser of
//! `serde_json`, and one function of the standard library.

pub mod command;
pub mod decode;
pub mod fetch;
pub mod json;
pub mod laws;
pub mod parse;
pub mod record;
pub mod report;
pub mod request;
pub mod shape;
pub mod status;
pub mod text;
pub mod url;
