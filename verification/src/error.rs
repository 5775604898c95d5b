//! The ways in which a call can fail.

use crate::text::{decimal, decimal_text};
use vstd::prelude::*;

verus! {

/// Why a call failed. Each variant names the layer that failed, and no
/// failure is passed over or tried again.
#[derive(Debug, Clone, PartialEq, Eq)]
pub enum A2AError {
    /// The request did not reach the other side, or its answer did not come
    /// back. Holds what the network layer said.
    Transport(String),
    /// The other side answered with a status outside 200 to 299.
    HttpStatus(u16),
    /// The answer was not JSON, or not JSON of the expected shape.
    Decode,
    /// The other side reported an error of its own.
    Rpc { code: i32, message: String },
    /// The answer held neither a result nor an error.
    MissingResult,
    /// The directory has no record of the agent with this id.
    AgentNotFound(String),
}

/// The model of an [`A2AError`].
pub enum A2AErrorView {
    Transport(Seq<char>),
    HttpStatus(u16),
    Decode,
    Rpc { code: i32, message: Seq<char> },
    MissingResult,
    AgentNotFound(Seq<char>),
}

impl View for A2AError {
    type V = A2AErrorView;

    open spec fn view(&self) -> A2AErrorView {
        match self {
            A2AError::Transport(reason) => A2AErrorView::Transport(reason@),
            A2AError::HttpStatus(status) => A2AErrorView::HttpStatus(*status),
            A2AError::Decode => A2AErrorView::Decode,
            A2AError::Rpc { code, message } => A2AErrorView::Rpc { code: *code, message: message@ },
            A2AError::MissingResult => A2AErrorView::MissingResult,
            A2AError::AgentNotFound(id) => A2AErrorView::AgentNotFound(id@),
        }
    }
}

impl A2AErrorView {
    /// The failure in words.
    pub open spec fn description(self) -> Seq<char> {
        match self {
            A2AErrorView::Transport(reason) => reason,
            A2AErrorView::HttpStatus(status) => "HTTP error: "@ + decimal_text(status as int),
            A2AErrorView::Decode => "Decode error"@,
            A2AErrorView::Rpc { code, message } => "RPC error "@ + decimal_text(code as int) + ": "@
                + message,
            A2AErrorView::MissingResult => "No result"@,
            A2AErrorView::AgentNotFound(id) => "Agent not found: "@ + id,
        }
    }
}

impl A2AError {
    /// The failure in words.
    pub fn describe(&self) -> (r: String)
        ensures
            r@ == self@.description(),
    {
        match self {
            A2AError::Transport(reason) => reason.clone(),
            A2AError::HttpStatus(status) => {
                let number = decimal(*status as i64);
                "HTTP error: ".to_owned().concat(number.as_str())
            },
            A2AError::Decode => "Decode error".to_owned(),
            A2AError::Rpc { code, message } => {
                let number = decimal(*code as i64);
                "RPC error ".to_owned().concat(number.as_str()).concat(": ").concat(message.as_str())
            },
            A2AError::MissingResult => "No result".to_owned(),
            A2AError::AgentNotFound(id) => "Agent not found: ".to_owned().concat(id.as_str()),
        }
    }
}

/// The model of the outcome of a call.
pub open spec fn outcome_view<T: View>(outcome: Result<T, A2AError>) -> Result<T::V, A2AErrorView> {
    match outcome {
        Ok(value) => Ok(value@),
        Err(e) => Err(e@),
    }
}

} // verus!
