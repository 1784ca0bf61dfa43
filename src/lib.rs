//! Per-executable security policies for kernel security hooks: the records
//! shared with the in-kernel programs, the decision each hook takes, and the
//! encoding of high-level policies as table entries.
pub mod alerts;
pub mod controller;
pub mod engine;
pub mod error;
pub mod events;
pub mod hooks;
pub mod inode;
pub mod lsm;
pub mod policy;
pub mod properties;
pub mod records;
pub mod tables;
