//! A small pipeline that cleans text taken from a document and asks a remote
//! chat-completion service for a summary and a quiz of it.
//!
//! The decisions of the pipeline live here; reading files, the terminal menu
//! and the network stay with the program that drives it.
pub mod sanitize;
pub mod error;
pub mod request;
pub mod json;
pub mod response;
pub mod menu;
pub mod session;
