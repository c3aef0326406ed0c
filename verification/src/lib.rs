//! Credential lifecycle of the `nxthdr` command-line client.
//!
//! The crate holds the decisions of the client and none of its input or
//! output: the OAuth2 device authorization exchange, the single-slot
//! credential store, the token guard in front of every authenticated call, and
//! the classification of what the remote API answers. A host program reads
//! the clock, the disk and the network, hands what it found to the functions
//! here, and carries out what they return.
pub mod error;
pub mod http;
pub mod config;
pub mod auth;
pub mod poll;
pub mod api;
pub mod routes;
pub mod status;
