//! Agent-to-agent messaging over JSON-RPC 2.0: message shapes, the client's
//! call sequences and the failures they can end in, with the network left to
//! the caller.

pub mod agent;
pub mod call;
pub mod codec;
pub mod dispatch;
pub mod envelope;
pub mod error;
pub mod json;
pub mod laws;
pub mod records;
pub mod server;
pub mod text;
pub mod token;
pub mod transport;

pub use agent::A2AAgent;
pub use dispatch::{Dispatch, DispatchStep};
pub use error::A2AError;
pub use json::Json;
pub use records::{AgentInfo, TaskParams, TaskResult};
pub use server::A2AServer;
pub use transport::{HttpMethod, HttpReply, HttpRequest};
