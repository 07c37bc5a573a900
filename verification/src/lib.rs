//! Copies the unconfirmed-transaction pool of one node onto another, parents
//! before children, while a live feed records what arrives during the copy.
//!
//! Everything here works on plain values: the caller talks to the nodes and to
//! the feed, and hands their answers to the functions of this crate.

pub mod config;
pub mod hex;
pub mod layers;
pub mod mirror;
pub mod report;
pub mod retransmit;
pub mod text;
pub mod txid;
pub mod zmqseq;
