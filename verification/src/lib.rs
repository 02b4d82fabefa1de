//! A Network Block Device (NBD) server and client core.
//!
//! The crate implements the fixed-newstyle NBD wire protocol: the handshake,
//! option negotiation (`LIST`, `INFO`, `GO`, `EXPORT_NAME`, `ABORT`), and the
//! transmission-phase request/reply framing, together with a byte-addressable
//! backing-store abstraction and an in-memory backing store.
//!
//! Every protocol decision is a function from plain values (bytes, integers)
//! to plain values, so the whole state machine is verified; the surrounding
//! socket plumbing performs the reads and writes and feeds the results back.

pub mod blocks;
pub mod client;
pub mod frames;
pub mod proto;
pub mod server;
pub mod wire;

pub use vstd::prelude::Seq;

use vstd::prelude::*;

verus! {

} // verus!
