use pulse_visualizer::{
    connect_step, is_silent, name_contains, on_peek, run_limit_nanos, run_step, stream_step,
    Abort, Iteration, LinkState, Lookup, PeekAction, Peeked, RunNext, RunStep, SinkSearch, Wait,
    SINK_NAME_PART,
};

#[test]
fn silent_chunks() {
    assert!(is_silent(&[]));
    assert!(is_silent(&[0, 0, 0, 0]));
    assert!(!is_silent(&[0, 0, 1, 0]));
    assert!(!is_silent(&[255]));
    assert!(!is_silent(&[7, 0, 0, 0]));
    assert!(!is_silent(&[0, 0, 0, 9]));
}

#[test]
fn substring_match() {
    assert!(name_contains("alsa_output.usb-FiiO_K5_Pro-00.analog-stereo", "FiiO"));
    assert!(name_contains("FiiO", "FiiO"));
    assert!(name_contains("xFiiO", "FiiO"));
    assert!(name_contains("anything", ""));
    assert!(name_contains("", ""));
    assert!(!name_contains("", "FiiO"));
    assert!(!name_contains("Fii", "FiiO"));
    assert!(!name_contains("fiio speaker", "FiiO"));
    assert!(!name_contains("FiFiiiO", "FiiO"));
    assert!(name_contains("FiFiiO", "FiiO"));
    assert!(name_contains("héllo wörld", "ö"));
}

#[test]
fn connection_wait() {
    assert_eq!(connect_step(Iteration::Success, LinkState::Pending), Wait::Again);
    assert_eq!(connect_step(Iteration::Success, LinkState::Ready), Wait::Proceed);
    assert_eq!(
        connect_step(Iteration::Success, LinkState::Failed),
        Wait::Abort(Abort::Connection)
    );
    assert_eq!(
        connect_step(Iteration::Success, LinkState::Terminated),
        Wait::Abort(Abort::Connection)
    );
    assert_eq!(connect_step(Iteration::Quit, LinkState::Ready), Wait::Abort(Abort::Iteration));
    assert_eq!(
        connect_step(Iteration::Failed, LinkState::Pending),
        Wait::Abort(Abort::Iteration)
    );
}

#[test]
fn stream_wait() {
    assert_eq!(stream_step(Iteration::Success, LinkState::Pending), Wait::Again);
    assert_eq!(stream_step(Iteration::Success, LinkState::Ready), Wait::Proceed);
    assert_eq!(stream_step(Iteration::Success, LinkState::Failed), Wait::Abort(Abort::Stream));
    assert_eq!(
        stream_step(Iteration::Success, LinkState::Terminated),
        Wait::Abort(Abort::Stream)
    );
    assert_eq!(stream_step(Iteration::Failed, LinkState::Ready), Wait::Abort(Abort::Iteration));
}

#[test]
fn lookup_takes_first_match() {
    let mut s = SinkSearch::new();
    assert_eq!(s.step(Iteration::Success, LinkState::Ready), Lookup::Again);
    assert!(!s.on_sink(3, "alsa_output.pci-0000_00_1f.3.analog-stereo", SINK_NAME_PART));
    assert_eq!(s.step(Iteration::Success, LinkState::Ready), Lookup::Again);
    assert!(s.on_sink(7, "alsa_output.usb-FiiO_K5", SINK_NAME_PART));
    assert!(s.on_sink(9, "FiiO second", SINK_NAME_PART));
    assert_eq!(s.found, Some(7));
    assert_eq!(s.step(Iteration::Success, LinkState::Ready), Lookup::Use(7));
    s.on_list_end();
    assert_eq!(s.step(Iteration::Success, LinkState::Ready), Lookup::Use(7));
}

#[test]
fn lookup_gives_up() {
    let mut s = SinkSearch::new();
    assert!(!s.on_sink(1, "speakers", SINK_NAME_PART));
    s.on_list_end();
    assert_eq!(s.step(Iteration::Success, LinkState::Ready), Lookup::Abort(Abort::NoSink));

    let mut t = SinkSearch::new();
    t.on_sink(4, "FiiO", SINK_NAME_PART);
    assert_eq!(t.step(Iteration::Quit, LinkState::Ready), Lookup::Abort(Abort::Iteration));
    assert_eq!(
        t.step(Iteration::Success, LinkState::Terminated),
        Lookup::Abort(Abort::Connection)
    );
    assert_eq!(
        t.step(Iteration::Success, LinkState::Failed),
        Lookup::Abort(Abort::Connection)
    );
}

#[test]
fn recording_steps() {
    let limit = run_limit_nanos();
    assert_eq!(limit, 10_000_000_000);
    assert_eq!(
        run_step(Iteration::Success, true, 0, limit),
        RunStep { uncork: true, next: RunNext::Peek }
    );
    assert_eq!(
        run_step(Iteration::Success, false, limit, limit),
        RunStep { uncork: false, next: RunNext::Peek }
    );
    assert_eq!(
        run_step(Iteration::Success, false, limit + 1, limit),
        RunStep { uncork: false, next: RunNext::Stop }
    );
    assert_eq!(
        run_step(Iteration::Success, true, limit + 1, limit),
        RunStep { uncork: true, next: RunNext::Stop }
    );
    assert_eq!(
        run_step(Iteration::Quit, true, 0, limit),
        RunStep { uncork: false, next: RunNext::Abort(Abort::Iteration) }
    );
}

#[test]
fn reads_of_the_stream() {
    assert_eq!(on_peek(Peeked::Empty), PeekAction::Nothing);
    assert_eq!(on_peek(Peeked::Hole), PeekAction::Discard);
    assert_eq!(on_peek(Peeked::Error), PeekAction::ReportError);
    assert_eq!(on_peek(Peeked::Data(&[0, 0, 0, 0])), PeekAction::Nothing);
    assert_eq!(on_peek(Peeked::Data(&[])), PeekAction::Nothing);
    assert_eq!(on_peek(Peeked::Data(&[0, 3, 0, 0])), PeekAction::Report);
}
