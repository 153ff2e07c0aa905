use vstd::prelude::*;

verus! {

/// The sink to record is the first whose name holds this text.
pub const SINK_NAME_PART: &'static str = "FiiO";

/// The name under which the client presents itself to the server.
pub const APPLICATION_NAME: &'static str = "PulseVisualizer";

/// The name of the connection to the server.
pub const CONTEXT_NAME: &'static str = "PulseVisualizerContext";

/// The name of the recording stream.
pub const STREAM_NAME: &'static str = "PulseVisualizer";

/// Samples are recorded as signed 16-bit little-endian integers, in this many
/// channels, at this rate per second.
pub const CHANNELS: u8 = 2;

pub const SAMPLE_RATE: u32 = 44100;

/// How long the recording runs, in seconds.
pub const RUN_SECONDS: u64 = 10;

/// How long the recording runs, in nanoseconds.
pub fn run_limit_nanos() -> (r: u128)
    ensures
        r == RUN_SECONDS * 1_000_000_000,
{
    RUN_SECONDS as u128 * 1_000_000_000
}

} // verus!
