//! Mirrors the host's currently playing media session into a small snapshot
//! that passive viewers can read.
//!
//! The crate holds the decisions of the live synchronisation path: how a raw
//! sample of the media session becomes a [`snapshot::Snapshot`], when a new
//! snapshot supersedes the published one, and what the holder of the published
//! snapshot hands to its readers. Everything here is proved with Verus; talking
//! to the operating system, the network and the file system is left to the
//! program built around the crate.

pub mod admission;
pub mod artwork;
pub mod assets;
pub mod config;
pub mod sampler;
pub mod session;
pub mod snapshot;
pub mod store;
pub mod text;
pub mod tray;
