//! A typed client layer for the HTTP API of a federated link aggregator.
//!
//! A caller builds a request record, `url` writes it into the URL of its
//! endpoint, the caller sends the request, and `transport` makes the
//! response record, or a typed error, of what came back. Requests are not
//! sent from here: this crate takes texts and gives texts and records.
//!
//! - `endpoints`: the paths of the API, by operation.
//! - `enums`, `records`, `ids`: the values that cross the wire.
//! - `json`, `json_text`: the trees that records are written to and read
//!   from, and the reading of a tree from a text.
//! - `payload`: the one policy for mandatory and optional fields.
//! - `policy`: defaults for mandatory fields that a server leaves out.
//! - `query`, `url`: from a request record to a query string and a URL.
//! - `transport`, `operations`: from a reply to a response record.
//! - `feed`, `pages`, `actors`, `instance`: what the pages of an interface
//!   ask for, and how they address what they show.
//! - `error`, `text`: the errors, and small operations on text.

pub mod error;
pub mod text;
pub mod endpoints;
pub mod ids;
pub mod json;
pub mod json_text;
pub mod payload;
pub mod policy;
pub mod enums;
pub mod records;
pub mod query;
pub mod instance;
pub mod url;
pub mod transport;
pub mod operations;
pub mod feed;
pub mod actors;
pub mod pages;
