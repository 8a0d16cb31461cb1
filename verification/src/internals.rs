//! Internal helpers shared by the endpoint clients.

pub mod utils;
