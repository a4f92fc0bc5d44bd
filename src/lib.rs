//! A client for a remote store of JSON documents, each kept under a path of
//! the token holder's namespace.
//!
//! The library prepares each request and decides what each response means;
//! sending a request is left to the caller.
pub mod client;
pub mod codec;
pub mod error;
pub mod request;

pub use client::{Bin, JSONBin};
pub use error::Error;
