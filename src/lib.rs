//! Decisions of a short diagnostic that records the monitor of one audio sink.
//!
//! The audio server is driven from outside this library: each step here takes
//! what the server reported and says what to do next.
mod frames;
mod sink;
mod session;
mod settings;

pub use frames::{all_zero, is_silent};
pub use sink::{contains_bytes, lookup_spec, name_contains, occurs_at, SinkSearch};
pub use settings::{
    run_limit_nanos, APPLICATION_NAME, CHANNELS, CONTEXT_NAME, RUN_SECONDS, SAMPLE_RATE,
    SINK_NAME_PART, STREAM_NAME,
};

pub use session::{
    connect_step, on_peek, peek_spec, run_spec, run_step, stream_step, wait_spec, Abort,
    Iteration, Lookup, LinkState, PeekAction, Peeked, RunNext, RunStep, Wait,
};
