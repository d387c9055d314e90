//! Session and request orchestration core of a client for the Venmo web API.
//!
//! The crate holds no network or disk access of its own. Every remote
//! operation is split into a function that describes the request to send and a
//! function that interprets what came back, so that the caller performs the
//! exchange and the rules stay here, where they are verified.

pub mod answers;
pub mod api;
pub mod error;
pub mod feed;
pub mod json;
pub mod pages;
pub mod pattern;
pub mod payment;
pub mod request;
pub mod scan;
pub mod store;
pub mod text;
pub mod token;
pub mod types;
