//! A line-delimited JSON-RPC server core that exposes tools and resources
//! backed by one upstream repository.

pub mod constants;
pub mod github;
pub mod handlers;
pub mod json;
pub mod mcp;
pub mod server;
pub mod utils;
