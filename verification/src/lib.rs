//! Metadata resolution and output-naming engine for a music library
//! organizer.
//!
//! Source music files live in group directories (albums and compilations)
//! described by user-authored descriptor files. The engine merges native
//! file tags, externally derived identifiers and user overrides into one
//! resolved metadata record per song, derives disc/track indices for album
//! songs, orders the songs of a group, and plans collision-free relative
//! output paths.
//!
//! Directory walking, descriptor parsing and tag decoding are I/O concerns
//! that live outside this crate; the engine consumes their outputs as plain
//! values (path bytes, strings, optional numbers).

pub mod assembler;
pub mod data_model;
pub mod deriver;
pub mod errors;
pub mod order;
pub mod planner;
pub mod resolve;
pub mod track_index;
