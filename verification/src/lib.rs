//! Decision logic of the `bevy` command line tool and of its duplicate-dependency
//! lint: what the file watcher reacts to, which directories it watches, when a
//! tool must be installed and with which arguments, and which dependents of
//! `bevy` disagree with the version the workspace asks for.
//!
//! Everything here computes on plain values. Running processes, watching the
//! file system, serving the web build and talking to the compiler happen in the
//! surrounding application, which hands the results to these functions.

pub mod text;
pub mod version;
pub mod paths;
pub mod files;
pub mod message;
pub mod watch;
pub mod web;
pub mod install;
pub mod lint;
pub mod zst;
pub mod builder;
