//! Filesystem handlers: per-family capabilities behind one dispatch point.

pub mod common;
pub mod generic;
pub mod ntfs;
pub mod refs;
pub mod handler;
