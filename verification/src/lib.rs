//! Building blocks for bringing up a small JSON-RPC service: discovery of
//! interface-definition schema files ahead of code generation, and the pieces
//! of the server itself — host access policy, CORS middleware, a method
//! registry with a dispatcher, response rendering, and the server lifecycle.

pub mod http;
pub mod policy;
pub mod render;
pub mod rpc;
pub mod schema;
pub mod server;
