//! Capabilities an entity implementation offers to the support library.

pub mod handler;
