//! Storage lifecycle of a small pastebin: paste records, identifier and clock
//! sources, the atomic write batches that persist and refresh a paste, and a
//! model of the key-value store under which the lifecycle laws are proved.

pub mod time;
pub mod models;
pub mod storage;
pub mod lifecycle;
