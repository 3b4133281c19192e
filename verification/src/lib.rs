//! Streaming ingestion bridge: a connection-lifecycle state machine for a
//! persistent socket subscription, and a producer/consumer ingestion pipeline
//! that converts structured frames into store documents through a bounded
//! queue.
//!
//! The crate is organised around three components: the connection manager
//! (module `websocket`), the document sink with its bounded queue and
//! credential resolver (module `mongodb`), and the shared frame and document
//! model (modules `frame` and `json`), all constructed from one resolved
//! configuration value (module `config`).

use vstd::prelude::*;

pub mod config;
pub mod frame;
pub mod json;
pub mod mongodb;
pub mod websocket;

verus! {

use vstd::string::StringExecFns;

/// Compares two string slices by content.
pub fn str_eq(a: &str, b: &str) -> (r: bool)
    ensures
        r == (a@ == b@),
{
    let owned_a: String = a.to_owned();
    let owned_b: String = b.to_owned();
    owned_a == owned_b
}

} // verus!
