//! The failures that the router itself reports: a code and a message.

use vstd::prelude::*;
use vstd::string::StringExecFns;

verus! {

/// The class of a failure that the router reports on its own account.
#[derive(Clone, Copy, Debug, PartialEq, Eq, Structural)]
pub enum Code {
    /// The inbound call is not acceptable as it stands.
    InvalidArgument,
    /// No node can take the call at present.
    Unavailable,
    /// The router could not prepare or open the outbound call.
    Internal,
}

/// A failure reported by the router: its class and the message for the caller.
#[derive(Clone, Debug)]
pub struct Status {
    pub code: Code,
    pub message: String,
}

/// A `Status` as contracts see it.
pub struct StatusView {
    pub code: Code,
    pub message: Seq<char>,
}

impl View for Status {
    type V = StatusView;

    open spec fn view(&self) -> StatusView {
        StatusView { code: self.code, message: self.message@ }
    }
}

/// The message sent back when the organization header is missing: it names
/// the header key that the caller has to set.
pub open spec fn missing_organization_message(key: Seq<char>) -> Seq<char> {
    "Please specify organization id with header key '"@ + key + "' "@
}

/// The message sent back when the internal token is no metadata value.
pub open spec fn invalid_token_message() -> Seq<char> {
    "invalid token"@
}

/// The message sent back when the connection to the node cannot be opened.
pub open spec fn connect_error_message() -> Seq<char> {
    "connect querier error"@
}

/// The message sent back when no node is eligible.
pub open spec fn no_eligible_node_message() -> Seq<char> {
    "no eligible node"@
}

/// The line written to the error log when the connection to `addr` fails;
/// `cause` is the transport's account of the failure.
pub open spec fn connect_log_line(addr: Seq<char>, cause: Seq<char>) -> Seq<char> {
    "[ROUTER] grpc->ingest->logs: node: "@ + addr + ", connect err: "@ + cause
}

impl Status {
    /// `InvalidArgument`, naming the header `key` that the call lacks.
    pub fn missing_organization(key: &str) -> (status: Status)
        ensures
            status@ == (StatusView {
                code: Code::InvalidArgument,
                message: missing_organization_message(key@),
            }),
    {
        let mut message = String::from_str("Please specify organization id with header key '");
        message.append(key);
        message.append("' ");
        Status { code: Code::InvalidArgument, message }
    }

    /// `Internal`, for a token that is no metadata value.
    pub fn invalid_token() -> (status: Status)
        ensures
            status@ == (StatusView { code: Code::Internal, message: invalid_token_message() }),
    {
        Status { code: Code::Internal, message: String::from_str("invalid token") }
    }

    /// `Internal`, for a node that cannot be connected to.
    pub fn connect_error() -> (status: Status)
        ensures
            status@ == (StatusView { code: Code::Internal, message: connect_error_message() }),
    {
        Status { code: Code::Internal, message: String::from_str("connect querier error") }
    }

    /// `Unavailable`, for a cluster without an eligible node.
    pub fn no_eligible_node() -> (status: Status)
        ensures
            status@ == (StatusView {
                code: Code::Unavailable,
                message: no_eligible_node_message(),
            }),
    {
        Status { code: Code::Unavailable, message: String::from_str("no eligible node") }
    }
}

/// Builds the error-log line for a failed connection to `addr`.
pub fn connect_log(addr: &str, cause: &str) -> (line: String)
    ensures
        line@ == connect_log_line(addr@, cause@),
{
    let mut line = String::from_str("[ROUTER] grpc->ingest->logs: node: ");
    line.append(addr);
    line.append(", connect err: ");
    line.append(cause);
    line
}

} // verus!
