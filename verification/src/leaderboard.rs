//! The leaderboard endpoint: route building and its client.

pub mod client;
pub mod http;

pub use self::client::Client;
