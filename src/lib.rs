//! An echo service: the message shapes of its one remote call, the handler
//! that answers a request with its own payload, and the decisions of the
//! command-line client and server around it (which address to use, what to
//! print, how to exit).

pub mod api;
pub mod client;
pub mod endpoint;
pub mod server;

pub use api::{EchoRequest, EchoResponse};
pub use server::Echo;
