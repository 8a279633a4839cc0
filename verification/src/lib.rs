//! Core of a desktop client that synchronizes a creator account's follower
//! and subscriber lists from a remote social platform and persists a
//! schema-versioned local configuration.
//!
//! The crate holds the verified logic only: the pagination / rate-limit /
//! publish decisions of a sync run (`engine`), the versioned configuration
//! document with its forward migration (`config`), the fixed remote API
//! surface (`client`), and the data model shared by all of them
//! (`records`). All network and file I/O lives outside, driven by the
//! actions these types hand out.

pub mod client;
pub mod config;
pub mod engine;
pub mod json_probe;
pub mod records;
