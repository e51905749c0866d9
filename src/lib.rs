//! Watches a directory for new images and publishes each one with a fixed
//! caption. The library holds the decisions: which file events are handed to
//! the uploader, how credentials become a session, and how the steps of the
//! authorization handshake and of a post follow one another. The calls that
//! touch the file system or the network are made by the caller, which feeds
//! their outcomes back in.

pub mod auth;
pub mod config;
pub mod errors;
pub mod social;
pub mod text;
pub mod upload;
pub mod watch;
