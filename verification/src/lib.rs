//! Core of an observability pipeline agent's data plane: the event model with
//! its acknowledgement finalizers, bounded and durable buffers, fanout to named
//! outputs, size/time batching, and the retry/backoff dispatch policy, together
//! with the sink configuration types built on top of them.

use vstd::prelude::*;

pub mod batch;
pub mod config;
pub mod buffer;
pub mod dispatch;
pub mod durable;
pub mod event;
pub mod fanout;
pub mod internal_events;
pub mod finalizer;
pub mod sinks;
pub mod status;
pub mod vrl_functions;

verus! {

#[verifier::external_type_specification]
#[verifier::external_body]
pub struct ExPathBuf(std::path::PathBuf);

/// Relies on std's `PathBuf::from`, building the agent's data directory
/// path from a literal.
#[verifier::external_body]
fn vector_data_dir_path() -> (r: std::path::PathBuf) {
    std::path::PathBuf::from("/var/lib/vector/")
}

/// The default directory where the agent keeps durable state, such as the
/// on-disk segments of durable buffers.
pub fn default_data_dir() -> (r: Option<std::path::PathBuf>)
    ensures
        r is Some,
{
    Some(vector_data_dir_path())
}

} // verus!
