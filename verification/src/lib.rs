//! Corpus-iteration and crash-triage engine for a crash-hunting harness.
//!
//! The library holds the verified core: parsing package identifiers out of
//! archive filenames, building a deterministically ordered corpus,
//! classifying captured tool output as clean or crashed, naming the durable
//! crash artifacts, and governing periodic disk reclamation. All file,
//! process and network work lives outside the library and hands it plain
//! values.

pub mod archive;
pub mod corpus;
pub mod detect;
pub mod governor;
pub mod ident;
pub mod runner;
pub mod text;
pub mod workspace;
