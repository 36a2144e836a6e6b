//! The decisions behind the sync commands of an application on a document store: cloud sync,
//! the policies of its groups, and mesh sync on the local network.
//!
//! The commands do no input or output of their own. Each hands out one action at a time (read
//! or write a document, make, start or stop a syncer, tell of an event) and goes on with the reply;
//! see [`host`]. What a command does over its whole course, on a store that does not fail, is
//! stated and proved beside it.
pub mod cloud_sync;
pub mod document;
pub mod host;
pub mod net_sync;
pub mod text;
