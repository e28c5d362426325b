//! Requests, responses and the client configuration that ties them together.

pub mod client;
pub mod ergonomic;
pub mod request;
pub mod response;

pub use client::{Client, ClientBuilder};
pub use request::{Param, Params, Request};
pub use response::Response;
