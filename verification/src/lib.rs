//! A router for log-export calls (the logs service of the OpenTelemetry
//! collector protocol). An inbound call must name its organization in its
//! metadata; the router then has an ingester node selected, writes the trace
//! context and the internal token into the metadata of the outbound call,
//! has the call forwarded to that node and relays what the node answers.
//!
//! - `config`: the header key under which the organization is expected.
//! - `metadata`: what a metadata map holds, and which names and values it takes.
//! - `propagation`: the trace context written into the outbound metadata.
//! - `selector`: the choice of an eligible node.
//! - `status`: the failures that the router itself reports.
//! - `logs`: the handler, as steps from a state and an event to the next state
//!   and the action to perform.
//! - `theorems`: what holds of every call.

pub mod config;
pub mod logs;
pub mod metadata;
pub mod propagation;
pub mod selector;
pub mod status;
pub mod theorems;
