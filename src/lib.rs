//! The transport and dispatch core of a stdio JSON-RPC server for the Model
//! Context Protocol: line classification, tool-call rewriting, response
//! framing and the shutdown coordinator.

use vstd::prelude::*;

pub mod args;
pub mod json;
pub mod message;
pub mod reply;
pub mod session;
pub mod shutdown;

verus! {

} // verus!
