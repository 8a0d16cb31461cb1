//! Client library for the r6stats web API.
//!
//! The verified core is the client-side request-rate governor: a fixed-window
//! quota over the account-wide request budget, shared by all sub-clients of
//! one [`Client`], which decides per request whether to admit, delay, or
//! reject a call before it reaches the network. The network call itself, and
//! the deserialization of response bodies, are performed by the application
//! around this library.

pub mod http;
pub mod internals;
pub mod leaderboard;
pub mod stats;

mod client;
mod error;
mod outside;
mod platform;
mod region;

pub use crate::client::Client;
pub use crate::error::Error;
pub use crate::platform::Platform;
pub use crate::region::Region;
