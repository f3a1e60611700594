//! Synchronising a working directory with one revision of a remote git
//! repository: the decisions of both retrieval strategies, with their
//! contracts. The crate decides; its caller touches the disk, the network
//! and other processes, and reports back what happened.

pub mod checkout;
pub mod cli;
pub mod destination;
pub mod edits;
pub mod error;
pub mod head;
pub mod names;
pub mod plumbing;
pub mod refs;
pub mod revision;
pub mod text;
