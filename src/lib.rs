//! Volume identity, classification and filesystem capabilities.

pub mod text;
pub mod path;
pub mod types;
pub mod fingerprint;
pub mod classify;
pub mod fs;
pub mod platform;
pub mod manager;
pub mod action;
pub mod sync;
