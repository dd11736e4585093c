//! A circuit breaker: a guard for a call site that tracks recent outcomes and
//! decides, call by call, whether the protected operation should be attempted.
//!
//! The breaker is a passive state machine. The host asks [`allow_request`]
//! before each attempt and reports the outcome with [`record_success`] or
//! [`record_failure`]. Time is supplied by the caller, in milliseconds.

pub mod breaker;
pub mod guarantees;
pub mod model;
pub mod state;
pub mod status;
pub mod trace;

pub use breaker::{
    allow_request, force_open, init_breaker, record_failure, record_success, reset_breaker,
    CircuitBreakerState,
};
pub use model::BreakerModel;
pub use state::BreakerState;
pub use status::get_status;
