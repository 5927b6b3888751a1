//! Resolve declared dependencies to their source repositories on the code forge
//! and drive the per-item pipeline that stars each of them.
pub mod path;
pub mod metadata;
pub mod pipeline;
pub mod setup;
