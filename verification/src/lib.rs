//! Installation state and cluster configuration of a dedicated game server.
//!
//! A server instance is a directory with two binaries and a version marker;
//! a cluster is a directory with access lists and a mod override file. This
//! crate classifies what is found on disk and reads those files' texts. It
//! opens no file itself: callers probe and read, and hand in what they found.

pub mod cluster;
pub mod dstserver;
pub mod error;
pub mod files;
pub mod modoverrides;
pub mod text;
