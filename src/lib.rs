//! Configuration core of a music-theory toolkit: a typed, strictly checked
//! configuration document, a file-backed configuration that reloads all or
//! nothing, and a shared handle through which domain types read snapshots.
pub mod capability;
pub mod config;
pub mod lazy;
pub mod tonality;
