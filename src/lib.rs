//! TLS client configuration for an RPC transport: a builder-style value that
//! holds the server identity, trust anchor and client identity to use, and the
//! resolution of that configuration plus a connection target into a connector.

pub mod error;
pub mod server_name;
pub mod material;
pub mod connector;
pub mod config;
