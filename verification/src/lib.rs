//! Verified core of a small personal file-sharing utility.
//!
//! The library uploads decisions, not bytes: it fingerprints local files by
//! sampling their head and tail, classifies what a remote object store
//! reported about an object, decides whether an upload is needed at all,
//! plans single-shot or multi-part transfers, and assembles a catalog of the
//! objects the tool manages. All I/O (file reads, network calls, clocks)
//! stays outside; callers hand in plain values and receive plain values back.

pub mod catalog;
pub mod config;
pub mod decision;
pub mod errors;
pub mod hashing;
pub mod keys;
pub mod remote;
pub mod render;
pub mod tags;
pub mod transfer;

pub use hashing::PartialFileHash;
