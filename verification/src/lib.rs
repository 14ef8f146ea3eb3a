//! Search-index synchronization for a catalog of user-published mods.
//!
//! The primary store (a relational database) holds the authoritative state of
//! every mod; a separate full-text search engine holds one document per
//! searchable mod.  This crate is the verified core that keeps the two in
//! sync: the deduplicating creation queue of pending upserts, the document
//! mapper, the bulk importer that snapshots the store into a full document
//! set, the synchronization protocol tying status transitions to index
//! operations, and an in-memory model of the engine's document collection
//! against which the protocol's guarantees are stated and proved.
//!
//! Network access to the real engine and database is left to the surrounding
//! process, which feeds plain rows and events into this crate and carries its
//! decisions (batches to upsert, ids to delete) back out.

pub mod auth;
pub mod config;
pub mod db_ids;
pub mod digits;
pub mod document;
pub mod ids;
pub mod importer;
pub mod index;
pub mod mapper;
pub mod mod_item;
pub mod mods;
pub mod protocol;
pub mod queue;
pub mod scheduler;
pub mod status;
pub mod users;
pub mod versions;
