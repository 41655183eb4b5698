//! Support library for a stateful-serverless user function: the discovery
//! handshake it offers to the sidecar proxy, and the router that dispatches
//! every inbound call by the service named in its path.

pub mod handlers;
pub mod protocol;
pub mod serveless;
pub mod text;
