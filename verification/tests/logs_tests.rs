use container_telemetry::logs::{
    decode_line, feed_options, observe, replay, step, stream_kind, CancellationToken,
    LogFeedOptions, LogLine, Origin, SessionEvent, SessionState, StepOutcome, StreamError,
    StreamKind,
};

fn chunk(origin: Origin, text: &[u8]) -> SessionEvent {
    SessionEvent::Chunk { origin, bytes: text.to_vec() }
}

fn line(stream_kind: StreamKind, text: &str) -> LogLine {
    LogLine { stream_kind, text: text.to_string() }
}

#[test]
fn cancellation_before_any_chunk_emits_nothing() {
    let transcript = replay(&vec![SessionEvent::Cancelled]);
    assert_eq!(transcript.lines, Vec::<LogLine>::new());
    assert_eq!(transcript.state, SessionState::Terminated);

    let followed = replay(&vec![
        SessionEvent::Cancelled,
        chunk(Origin::StdOut, b"late\n"),
        chunk(Origin::StdErr, b"later\n"),
    ]);
    assert_eq!(followed.lines, Vec::<LogLine>::new());
    assert_eq!(followed.state, SessionState::Terminated);
}

#[test]
fn chunks_then_cancellation_emit_the_chunks_in_order() {
    let transcript = replay(&vec![
        chunk(Origin::StdOut, b"a\n"),
        chunk(Origin::StdErr, b"b\n"),
        SessionEvent::Cancelled,
        chunk(Origin::StdOut, b"c\n"),
    ]);
    assert_eq!(transcript.lines, vec![line(StreamKind::StdOut, "a"), line(StreamKind::StdErr, "b")]);
    assert_eq!(transcript.state, SessionState::Terminated);
}

#[test]
fn a_feed_that_has_not_ended_leaves_the_session_active() {
    let transcript = replay(&vec![chunk(Origin::StdOut, b"one"), chunk(Origin::StdOut, b"two")]);
    assert_eq!(transcript.lines, vec![line(StreamKind::StdOut, "one"), line(StreamKind::StdOut, "two")]);
    assert_eq!(transcript.state, SessionState::Active);
    let nothing = replay(&Vec::new());
    assert_eq!(nothing.lines, Vec::<LogLine>::new());
    assert_eq!(nothing.state, SessionState::Active);
}

#[test]
fn end_of_feed_and_transport_error_end_the_session() {
    let ended = replay(&vec![
        chunk(Origin::StdOut, b"x"),
        SessionEvent::EndOfFeed,
        chunk(Origin::StdOut, b"y"),
    ]);
    assert_eq!(ended.lines, vec![line(StreamKind::StdOut, "x")]);
    assert_eq!(ended.state, SessionState::Terminated);
    let failed = replay(&vec![
        chunk(Origin::StdErr, b"x"),
        SessionEvent::TransportError,
        chunk(Origin::StdOut, b"y"),
    ]);
    assert_eq!(failed.lines, vec![line(StreamKind::StdErr, "x")]);
    assert_eq!(failed.state, SessionState::Terminated);
}

#[test]
fn chunks_of_other_origins_are_dropped() {
    let transcript = replay(&vec![
        chunk(Origin::StdIn, b"typed\n"),
        chunk(Origin::StdOut, b"shown\n"),
        chunk(Origin::Console, b"console\n"),
    ]);
    assert_eq!(transcript.lines, vec![line(StreamKind::StdOut, "shown")]);
    assert_eq!(transcript.state, SessionState::Active);
    assert_eq!(stream_kind(Origin::StdOut), Some(StreamKind::StdOut));
    assert_eq!(stream_kind(Origin::StdErr), Some(StreamKind::StdErr));
    assert_eq!(stream_kind(Origin::StdIn), None);
    assert_eq!(stream_kind(Origin::Console), None);
}

#[test]
fn step_emits_a_trimmed_line_for_a_chunk() {
    let outcome = step(SessionState::Active, &chunk(Origin::StdOut, b"  2024-01-01T00:00:00Z hello \r\n"));
    assert_eq!(
        outcome,
        StepOutcome {
            state: SessionState::Active,
            line: Some(line(StreamKind::StdOut, "2024-01-01T00:00:00Z hello")),
            notice: None,
        }
    );
}

#[test]
fn step_emits_an_empty_line_for_a_blank_chunk() {
    let outcome = step(SessionState::Active, &chunk(Origin::StdErr, b" \n\t "));
    assert_eq!(outcome.line, Some(line(StreamKind::StdErr, "")));
    assert_eq!(outcome.state, SessionState::Active);
    let empty = step(SessionState::Active, &chunk(Origin::StdErr, b""));
    assert_eq!(empty.line, Some(line(StreamKind::StdErr, "")));
    assert_eq!(empty.notice, None);
}

#[test]
fn step_repairs_malformed_bytes_and_says_so() {
    let outcome = step(SessionState::Active, &chunk(Origin::StdOut, b"ab\xffcd\n"));
    assert_eq!(
        outcome,
        StepOutcome {
            state: SessionState::Active,
            line: Some(line(StreamKind::StdOut, "ab\u{fffd}cd")),
            notice: Some(StreamError::DecodeAnomaly),
        }
    );
    // A chunk with nothing to show is dropped whatever its bytes are.
    let dropped = step(SessionState::Active, &chunk(Origin::StdIn, b"\xff"));
    assert_eq!(dropped, StepOutcome { state: SessionState::Active, line: None, notice: None });
}

#[test]
fn step_ends_the_session_on_everything_but_a_chunk() {
    assert_eq!(
        step(SessionState::Active, &SessionEvent::Cancelled),
        StepOutcome { state: SessionState::Terminated, line: None, notice: None }
    );
    assert_eq!(
        step(SessionState::Active, &SessionEvent::EndOfFeed),
        StepOutcome { state: SessionState::Terminated, line: None, notice: None }
    );
    assert_eq!(
        step(SessionState::Active, &SessionEvent::TransportError),
        StepOutcome {
            state: SessionState::Terminated,
            line: None,
            notice: Some(StreamError::TransportFailure),
        }
    );
}

#[test]
fn a_terminated_session_is_silent() {
    let silent = StepOutcome { state: SessionState::Terminated, line: None, notice: None };
    assert_eq!(step(SessionState::Terminated, &chunk(Origin::StdOut, b"a\n")), silent);
    assert_eq!(step(SessionState::Terminated, &chunk(Origin::StdOut, b"\xff")), silent);
    assert_eq!(step(SessionState::Terminated, &SessionEvent::TransportError), silent);
    assert_eq!(step(SessionState::Terminated, &SessionEvent::Cancelled), silent);
    assert_eq!(step(SessionState::Terminated, &SessionEvent::EndOfFeed), silent);
}

#[test]
fn decode_line_decodes_and_trims() {
    assert_eq!(decode_line(b"a\n"), "a");
    assert_eq!(decode_line(b"\n\n  two words\t\n"), "two words");
    assert_eq!(decode_line("  gr\u{fc}\u{df}e \u{2003}".as_bytes()), "gr\u{fc}\u{df}e");
    assert_eq!(decode_line(b"\xc3\x28"), "\u{fffd}(");
    assert_eq!(decode_line(b""), "");
    assert_eq!(decode_line(b"   "), "");
    assert_eq!(decode_line(b"x"), "x");
    assert_eq!(decode_line(b" inner  space kept "), "inner  space kept");
}

#[test]
fn the_token_fires_once() {
    let mut token = CancellationToken::new();
    assert!(!token.is_cancelled());
    assert!(token.fire());
    assert!(token.is_cancelled());
    assert!(!token.fire());
    assert!(token.is_cancelled());
    assert!(!token.fire());
    assert!(token.is_cancelled());
}

#[test]
fn observe_discards_what_arrives_after_the_signal() {
    let mut token = CancellationToken::new();
    let arrived = chunk(Origin::StdOut, b"a\n");
    assert_eq!(observe(&token, arrived.clone()), arrived);
    assert_eq!(observe(&token, SessionEvent::EndOfFeed), SessionEvent::EndOfFeed);
    token.fire();
    assert_eq!(observe(&token, arrived), SessionEvent::Cancelled);
    assert_eq!(observe(&token, SessionEvent::TransportError), SessionEvent::Cancelled);
    assert_eq!(observe(&token, SessionEvent::Cancelled), SessionEvent::Cancelled);
}

#[test]
fn a_session_driven_step_by_step_stops_at_the_signal() {
    let mut token = CancellationToken::new();
    let arrivals = vec![
        chunk(Origin::StdOut, b"a\n"),
        chunk(Origin::StdErr, b"b\n"),
        chunk(Origin::StdOut, b"in flight\n"),
    ];
    let mut state = SessionState::Active;
    let mut emitted = Vec::new();
    for (n, arrival) in arrivals.into_iter().enumerate() {
        if n == 2 {
            token.fire();
        }
        let outcome = step(state, &observe(&token, arrival));
        state = outcome.state;
        if let Some(l) = outcome.line {
            emitted.push(l);
        }
    }
    assert_eq!(emitted, vec![line(StreamKind::StdOut, "a"), line(StreamKind::StdErr, "b")]);
    assert_eq!(state, SessionState::Terminated);
}

#[test]
fn the_feed_is_opened_following_both_channels() {
    assert_eq!(
        feed_options(),
        LogFeedOptions {
            follow: true,
            include_stdout: true,
            include_stderr: true,
            include_timestamps: true,
            tail_lines: 100,
        }
    );
}
