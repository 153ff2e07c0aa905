use vstd::prelude::*;
use crate::frames::{all_zero, is_silent};

verus! {

/// What one non-blocking pump of the server's event loop reported.
#[derive(Clone, Copy, Debug, PartialEq, Eq, Structural)]
pub enum Iteration {
    Success,
    Quit,
    Failed,
}

/// The state that the server reports for the connection or for the stream,
/// with the states on the way to `Ready` taken together.
#[derive(Clone, Copy, Debug, PartialEq, Eq, Structural)]
pub enum LinkState {
    Pending,
    Ready,
    Failed,
    Terminated,
}

/// Why the session gives up.
#[derive(Clone, Copy, Debug, PartialEq, Eq, Structural)]
pub enum Abort {
    /// The event loop quit or failed.
    Iteration,
    /// The connection to the server failed or was terminated.
    Connection,
    /// The recording stream failed or was terminated.
    Stream,
    /// The list of sinks ended with no sink whose name matched.
    NoSink,
}

/// What to do after a pump while waiting for something to become ready.
#[derive(Clone, Copy, Debug, PartialEq, Eq, Structural)]
pub enum Wait {
    /// Pump again.
    Again,
    /// It is ready: go on to the next stage.
    Proceed,
    Abort(Abort),
}

/// What to do after a pump while looking up the sink.
#[derive(Clone, Copy, Debug, PartialEq, Eq, Structural)]
pub enum Lookup {
    Again,
    /// Record the monitor of the sink with this index.
    Use(u32),
    Abort(Abort),
}

/// What to do after a pump while recording.
#[derive(Clone, Copy, Debug, PartialEq, Eq, Structural)]
pub enum RunNext {
    /// Read what the stream holds.
    Peek,
    /// The run has lasted long enough: shut down.
    Stop,
    Abort(Abort),
}

/// The decision after a pump while recording: whether to uncork the stream
/// first, and what comes next.
#[derive(Clone, Copy, Debug, PartialEq, Eq, Structural)]
pub struct RunStep {
    pub uncork: bool,
    pub next: RunNext,
}

/// What a read of the stream found.
#[derive(Clone, Copy, Debug)]
pub enum Peeked<'a> {
    Empty,
    /// A gap in the recording, of no data.
    Hole,
    Data(&'a [u8]),
    /// The read itself failed.
    Error,
}

/// What to do with what a read of the stream found.
#[derive(Clone, Copy, Debug, PartialEq, Eq, Structural)]
pub enum PeekAction {
    Nothing,
    /// Drop the hole from the stream.
    Discard,
    /// Show the chunk: it is not silent.
    Report,
    /// Tell that the read failed, and go on.
    ReportError,
}

/// The decision of one pump of a wait for readiness; `failure` names what failed
/// when the state is failed or terminated.
pub open spec fn wait_spec(it: Iteration, state: LinkState, failure: Abort) -> Wait {
    if it != Iteration::Success {
        Wait::Abort(Abort::Iteration)
    } else {
        match state {
            LinkState::Ready => Wait::Proceed,
            LinkState::Failed | LinkState::Terminated => Wait::Abort(failure),
            LinkState::Pending => Wait::Again,
        }
    }
}

fn wait_step(it: Iteration, state: LinkState, failure: Abort) -> (r: Wait)
    ensures
        r == wait_spec(it, state, failure),
{
    match it {
        Iteration::Success => {},
        _ => return Wait::Abort(Abort::Iteration),
    }
    match state {
        LinkState::Ready => Wait::Proceed,
        LinkState::Failed | LinkState::Terminated => Wait::Abort(failure),
        LinkState::Pending => Wait::Again,
    }
}

/// Decides after a pump while the connection to the server is being made.
pub fn connect_step(it: Iteration, context: LinkState) -> (r: Wait)
    ensures
        r == wait_spec(it, context, Abort::Connection),
{
    wait_step(it, context, Abort::Connection)
}

/// Decides after a pump while the recording stream is being set up.
pub fn stream_step(it: Iteration, stream: LinkState) -> (r: Wait)
    ensures
        r == wait_spec(it, stream, Abort::Stream),
{
    wait_step(it, stream, Abort::Stream)
}

/// The decision of one pump while recording, after `elapsed` of `limit`
/// nanoseconds.
pub open spec fn run_spec(it: Iteration, corked: bool, elapsed: u128, limit: u128) -> RunStep {
    if it != Iteration::Success {
        RunStep { uncork: false, next: RunNext::Abort(Abort::Iteration) }
    } else if elapsed > limit {
        RunStep { uncork: corked, next: RunNext::Stop }
    } else {
        RunStep { uncork: corked, next: RunNext::Peek }
    }
}

/// Decides after a pump while recording: a corked stream is uncorked, and the
/// run stops once more than `limit` nanoseconds have passed.
pub fn run_step(it: Iteration, corked: bool, elapsed: u128, limit: u128) -> (r: RunStep)
    ensures
        r == run_spec(it, corked, elapsed, limit),
{
    match it {
        Iteration::Success => {},
        _ => return RunStep { uncork: false, next: RunNext::Abort(Abort::Iteration) },
    }
    let next = if elapsed > limit {
        RunNext::Stop
    } else {
        RunNext::Peek
    };
    RunStep { uncork: corked, next }
}

/// What is done with each kind of read.
pub open spec fn peek_spec(p: Peeked) -> PeekAction {
    match p {
        Peeked::Empty => PeekAction::Nothing,
        Peeked::Hole => PeekAction::Discard,
        Peeked::Data(d) => if all_zero(d@) {
            PeekAction::Nothing
        } else {
            PeekAction::Report
        },
        Peeked::Error => PeekAction::ReportError,
    }
}

/// Decides what to do with a read of the stream: holes are discarded, and only
/// chunks that are not silent are shown.
pub fn on_peek(p: Peeked) -> (r: PeekAction)
    ensures
        r == peek_spec(p),
{
    match p {
        Peeked::Empty => PeekAction::Nothing,
        Peeked::Hole => PeekAction::Discard,
        Peeked::Data(d) => if is_silent(d) {
            PeekAction::Nothing
        } else {
            PeekAction::Report
        },
        Peeked::Error => PeekAction::ReportError,
    }
}

} // verus!
