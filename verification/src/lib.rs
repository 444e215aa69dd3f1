//! Protocol parsers described declaratively: a protocol is a tree of specs,
//! built with a DSL, that both reads (deserializes) and writes (serializes)
//! the protocol's text, keeping what it reads in a mapper by spec path.
use vstd::prelude::*;

pub mod text;
pub mod error;
pub mod value;
pub mod names;
pub mod context;
pub mod mapper;
pub mod reader;
pub mod writer;
pub mod info;
pub mod spec;
pub mod deser;
pub mod ser;
pub mod traverse;
pub mod builders;
pub mod server;
pub mod http;
pub mod utils;
pub mod test_utils;
pub mod common;
pub mod laws;
