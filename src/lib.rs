//! The request/response rendezvous between a task that issues control
//! requests to a wireless chip's firmware and the task that drives the bus.

mod status;
mod state;
mod wake;

pub use status::{
    error_of, lemma_code_determines_error, lemma_error_round_trip,
    lemma_status_round_trip, status_or_max, IoctlError, StatusCode,
};
pub use state::{
    copied_len, filled, lemma_cancel_clears_request, lemma_complete_long_response,
    lemma_complete_short_response, lemma_no_request_appears, lemma_stray_completion, IoctlState, IoctlType, PendingIoctl,
    Phase,
};
