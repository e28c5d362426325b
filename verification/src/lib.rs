//! A typed, transport-free core for the FACEIT Data API.
//!
//! The crate builds the request of every Data API v4 operation and classifies
//! what came back; sending the request over the network is left to the caller.

pub mod error;
pub mod http;
pub mod text;
pub mod types;

pub use http::{Client as HttpClient, ClientBuilder as HttpClientBuilder};
