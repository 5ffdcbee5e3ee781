//! The eieio daemon's node logic: what a node's files say, how a block reference names a cache
//! entry, how the management API judges a request, and what the observation bus counts.
pub mod text;
pub mod api;
pub mod paths;
pub mod blocks;
pub mod bridge;
pub mod engine;
pub mod node;
pub mod names;
pub mod boot;
pub mod observe;
pub mod core_fns;
pub mod cli;
pub mod json_batch;
pub mod instance;
