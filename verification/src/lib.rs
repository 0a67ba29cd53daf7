//! An asynchronous NFS client on top of libnfs: its rules and its data.
//!
//! Everything here computes on plain values. Where the client has to wait for
//! something, or has libnfs or the operating system do something, it says so in
//! a value, and is told in another what came of it. Who performs these steps is
//! free to do so on any runtime.
//!
//! - `client` and `file`: what each operation asks of libnfs and what it makes
//!   of the answer; how an export is mounted, and how a client ends.
//! - `channel`: the channels that commands and answers go through.
//! - `bridge`: from a callback of libnfs to the one who waits for its answer.
//! - `event_loop` and `driver`: the thread that alone uses a context.
//! - `dir`, `readdir`, `walk` and `walk_laws`: directories, how one is listed,
//!   and the walk of a tree.
//! - `tools`: what the tools `cat` and `ls` compute.

#![allow(unused_imports)]

pub mod bridge;
pub mod channel;
pub mod client;
pub mod dir;
pub mod driver;
pub mod error;
pub mod event_loop;
pub mod file;
pub mod poll;
pub mod readdir;
pub mod stat;
pub mod sys;
pub mod text;
pub mod tools;
pub mod walk;
pub mod walk_laws;

pub use crate::client::{NfsClient, NfsVersion};
pub use crate::error::Error;
pub use crate::file::NfsFile;
pub use crate::stat::FileStat;
