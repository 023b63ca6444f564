//! The log stream session: a two-state machine that turns what the log feed
//! delivers into lines until the feed ends, fails, or the consumer goes away.
//!
//! The caller owns the waiting. Each time something happens it hands the
//! event to [`step`] and does what the outcome says.

use crate::sequences::{first_where, lemma_first_where, lemma_first_where_is};
use crate::text::{decode, lossy_text, trim, trimmed};
use vstd::prelude::*;
use vstd::utf8::valid_utf8;

verus! {

/// The output channel a line belongs to.
#[derive(Clone, Copy, Debug, PartialEq, Eq, Structural)]
pub enum StreamKind {
    StdOut,
    StdErr,
}

/// Where a chunk of the feed comes from.
#[derive(Clone, Copy, Debug, PartialEq, Eq, Structural)]
pub enum Origin {
    StdOut,
    StdErr,
    StdIn,
    Console,
}

/// One line handed to the consumer.
#[derive(Clone, Debug, PartialEq, Eq)]
pub struct LogLine {
    pub stream_kind: StreamKind,
    pub text: String,
}

/// What a `LogLine` holds.
pub struct LineView {
    pub stream_kind: StreamKind,
    pub text: Seq<char>,
}

impl View for LogLine {
    type V = LineView;

    open spec fn view(&self) -> LineView {
        LineView { stream_kind: self.stream_kind, text: self.text@ }
    }
}

/// What can go wrong while streaming. Neither is fatal to the caller: a
/// transport failure ends the session, a decode anomaly is repaired in place.
#[derive(Clone, Copy, Debug, PartialEq, Eq, Structural)]
pub enum StreamError {
    TransportFailure,
    DecodeAnomaly,
}

/// Whether the session still takes events.
#[derive(Clone, Copy, Debug, PartialEq, Eq, Structural)]
pub enum SessionState {
    Active,
    Terminated,
}

/// What the session is told: the feed delivered a chunk, the feed ended, the
/// feed failed, or the consumer went away.
#[derive(Clone, Debug, PartialEq, Eq)]
pub enum SessionEvent {
    Chunk { origin: Origin, bytes: Vec<u8> },
    EndOfFeed,
    TransportError,
    Cancelled,
}

/// What the session decided on one event.
#[derive(Clone, Debug, PartialEq, Eq)]
pub struct StepOutcome {
    /// The state after the event.
    pub state: SessionState,
    /// The line to hand to the consumer, if any.
    pub line: Option<LogLine>,
    /// What to report, if anything.
    pub notice: Option<StreamError>,
}

/// The "consumer is gone" signal: set once, and then set for good.
#[derive(Debug)]
pub struct CancellationToken {
    fired: bool,
}

/// The parameters a log feed is opened with.
#[derive(Clone, Copy, Debug, PartialEq, Eq, Structural)]
pub struct LogFeedOptions {
    pub follow: bool,
    pub include_stdout: bool,
    pub include_stderr: bool,
    pub include_timestamps: bool,
    pub tail_lines: u32,
}

/// The channel that chunks of a given origin are shown on; chunks of other
/// origins carry nothing to show.
pub open spec fn kind_of(origin: Origin) -> Option<StreamKind> {
    match origin {
        Origin::StdOut => Some(StreamKind::StdOut),
        Origin::StdErr => Some(StreamKind::StdErr),
        Origin::StdIn => None,
        Origin::Console => None,
    }
}

/// The text of a chunk: decoded leniently, then trimmed.
pub open spec fn line_text(bytes: Seq<u8>) -> Seq<char> {
    trimmed(lossy_text(bytes))
}

/// The line that an event gives rise to in an active session.
pub open spec fn line_of(event: SessionEvent) -> Option<LineView> {
    match event {
        SessionEvent::Chunk { origin, bytes } => match kind_of(origin) {
            Some(kind) => Some(LineView { stream_kind: kind, text: line_text(bytes@) }),
            None => None,
        },
        _ => None,
    }
}

/// What an event gives to report in an active session.
pub open spec fn notice_of(event: SessionEvent) -> Option<StreamError> {
    match event {
        SessionEvent::Chunk { origin, bytes } => if kind_of(origin) is Some && !valid_utf8(
            bytes@,
        ) {
            Some(StreamError::DecodeAnomaly)
        } else {
            None
        },
        SessionEvent::TransportError => Some(StreamError::TransportFailure),
        _ => None,
    }
}

/// Whether an event ends an active session: everything but a chunk does.
pub open spec fn ends_session(event: SessionEvent) -> bool {
    !(event is Chunk)
}

/// What a line holds, if there is one.
pub open spec fn line_view(line: Option<LogLine>) -> Option<LineView> {
    match line {
        Some(l) => Some(l@),
        None => None,
    }
}

impl StepOutcome {
    /// Whether this is what a session in `state` makes of `event`. A
    /// terminated session stays terminated and is silent.
    pub open spec fn follows(self, state: SessionState, event: SessionEvent) -> bool {
        match state {
            SessionState::Terminated => {
                &&& self.state == SessionState::Terminated
                &&& self.line is None
                &&& self.notice is None
            },
            SessionState::Active => {
                &&& self.state == if ends_session(event) {
                    SessionState::Terminated
                } else {
                    SessionState::Active
                }
                &&& line_view(self.line) == line_of(event)
                &&& self.notice == notice_of(event)
            },
        }
    }
}

impl CancellationToken {
    /// Whether the signal has been given.
    pub closed spec fn cancelled(&self) -> bool {
        self.fired
    }

    /// A token whose signal has not been given.
    pub fn new() -> (token: Self)
        ensures
            !token.cancelled(),
    {
        CancellationToken { fired: false }
    }

    /// Gives the signal. Says whether this call was the one that gave it:
    /// only the first call has an effect.
    pub fn fire(&mut self) -> (first: bool)
        ensures
            final(self).cancelled(),
            first == !old(self).cancelled(),
    {
        let first = !self.fired;
        self.fired = true;
        first
    }

    /// Whether the signal has been given.
    pub fn is_cancelled(&self) -> (b: bool)
        ensures
            b == self.cancelled(),
    {
        self.fired
    }
}

/// The options every session opens its feed with: follow the feed, both
/// channels, timestamps, starting from the last hundred lines.
pub fn feed_options() -> (options: LogFeedOptions)
    ensures
        options == (LogFeedOptions {
            follow: true,
            include_stdout: true,
            include_stderr: true,
            include_timestamps: true,
            tail_lines: 100,
        }),
{
    LogFeedOptions {
        follow: true,
        include_stdout: true,
        include_stderr: true,
        include_timestamps: true,
        tail_lines: 100,
    }
}

/// The channel that chunks of a given origin are shown on.
pub fn stream_kind(origin: Origin) -> (kind: Option<StreamKind>)
    ensures
        kind == kind_of(origin),
{
    match origin {
        Origin::StdOut => Some(StreamKind::StdOut),
        Origin::StdErr => Some(StreamKind::StdErr),
        Origin::StdIn => None,
        Origin::Console => None,
    }
}

/// Decodes a chunk: malformed sequences are replaced, and whitespace at
/// either end is dropped.
pub fn decode_line(bytes: &[u8]) -> (text: String)
    ensures
        text@ == line_text(bytes@),
{
    let decoded = decode(bytes);
    trim(decoded.0.as_str())
}

/// What the session is told when `event` arrives: once the signal has been
/// given, that the consumer went away, whatever arrived.
pub open spec fn observed(cancelled: bool, event: SessionEvent) -> SessionEvent {
    if cancelled {
        SessionEvent::Cancelled
    } else {
        event
    }
}

/// Settles the race between the feed and the cancellation signal: once the
/// signal has been given, whatever the feed delivered is discarded.
pub fn observe(token: &CancellationToken, event: SessionEvent) -> (seen: SessionEvent)
    ensures
        seen == observed(token.cancelled(), event),
{
    if token.is_cancelled() {
        SessionEvent::Cancelled
    } else {
        event
    }
}

/// One transition of the session.
pub fn step(state: SessionState, event: &SessionEvent) -> (outcome: StepOutcome)
    ensures
        outcome.follows(state, *event),
{
    match state {
        SessionState::Terminated => StepOutcome {
            state: SessionState::Terminated,
            line: None,
            notice: None,
        },
        SessionState::Active => match event {
            SessionEvent::Chunk { origin, bytes } => match stream_kind(*origin) {
                Some(kind) => {
                    let decoded = decode(bytes.as_slice());
                    let text = trim(decoded.0.as_str());
                    let notice = if decoded.1 {
                        None
                    } else {
                        Some(StreamError::DecodeAnomaly)
                    };
                    StepOutcome {
                        state: SessionState::Active,
                        line: Some(LogLine { stream_kind: kind, text }),
                        notice,
                    }
                },
                None => StepOutcome { state: SessionState::Active, line: None, notice: None },
            },
            SessionEvent::EndOfFeed => StepOutcome {
                state: SessionState::Terminated,
                line: None,
                notice: None,
            },
            SessionEvent::TransportError => StepOutcome {
                state: SessionState::Terminated,
                line: None,
                notice: Some(StreamError::TransportFailure),
            },
            SessionEvent::Cancelled => StepOutcome {
                state: SessionState::Terminated,
                line: None,
                notice: None,
            },
        },
    }
}

/// What a whole run of a session produced.
#[derive(Clone, Debug, PartialEq, Eq)]
pub struct Transcript {
    /// The lines handed to the consumer, in order.
    pub lines: Vec<LogLine>,
    /// The state the session was left in.
    pub state: SessionState,
}

/// What an event that ends the session satisfies.
pub open spec fn ending() -> spec_fn(SessionEvent) -> bool {
    |e: SessionEvent| ends_session(e)
}

/// How many events at the head of `events` an active session takes before
/// one ends it: the index of the first event that ends the session, or the
/// number of events if none does.
pub open spec fn live_len(events: Seq<SessionEvent>) -> int {
    first_where(events, ending())
}

/// The lines of a run of chunks, in arrival order: one line for each chunk
/// that has something to show.
pub open spec fn lines_of(chunks: Seq<SessionEvent>) -> Seq<LineView>
    decreases chunks.len(),
{
    if chunks.len() == 0 {
        Seq::empty()
    } else {
        match line_of(chunks.last()) {
            Some(line) => lines_of(chunks.drop_last()).push(line),
            None => lines_of(chunks.drop_last()),
        }
    }
}

/// The lines that a session started on `events` hands to its consumer: those
/// of the chunks that arrive before the session ends.
pub open spec fn emitted(events: Seq<SessionEvent>) -> Seq<LineView> {
    lines_of(events.take(live_len(events)))
}

/// The views of a sequence of lines.
pub open spec fn views(lines: Seq<LogLine>) -> Seq<LineView> {
    lines.map_values(|l: LogLine| l@)
}

/// Runs a session from its start over a recorded sequence of events.
pub fn replay(events: &Vec<SessionEvent>) -> (transcript: Transcript)
    ensures
        views(transcript.lines@) == emitted(events@),
        transcript.state == if live_len(events@) < events.len() {
            SessionState::Terminated
        } else {
            SessionState::Active
        },
{
    let mut lines: Vec<LogLine> = Vec::new();
    let mut state = SessionState::Active;
    let mut i: usize = 0;
    proof {
        lemma_live_len_bounds(events@);
    }
    while i < events.len() && state == SessionState::Active
        invariant
            i <= events.len(),
            state == SessionState::Active ==> live_len(events@) >= i && forall|k: int|
                0 <= k < i ==> !ends_session(#[trigger] events@[k]),
            state == SessionState::Active ==> views(lines@) == lines_of(events@.take(i as int)),
            state == SessionState::Terminated ==> i > 0 && live_len(events@) == i - 1 && views(
                lines@,
            ) == lines_of(events@.take(i - 1)),
        decreases events.len() - i,
    {
        let outcome = step(state, &events[i]);
        proof {
            let before = events@.take(i as int);
            let after = events@.take(i as int + 1);
            assert(after.drop_last() == before);
            assert(after.last() == events@[i as int]);
            if ends_session(events@[i as int]) {
                lemma_live_len(events@, i as int);
            } else {
                lemma_live_len_bounds(events@);
            }
        }
        match outcome.line {
            Some(line) => {
                proof {
                    assert(views(lines@.push(line)) == views(lines@).push(line@));
                }
                lines.push(line);
            },
            None => {},
        }
        state = outcome.state;
        i = i + 1;
    }
    proof {
        if state == SessionState::Active {
            assert(events@.take(i as int) == events@);
            lemma_live_len(events@, i as int);
        }
    }
    Transcript { lines, state }
}

/// No event among the first `live_len` ends the session, and the one that
/// follows them, if there is one, does.
pub proof fn lemma_live_len_bounds(events: Seq<SessionEvent>)
    ensures
        0 <= live_len(events) <= events.len(),
        forall|k: int| 0 <= k < live_len(events) ==> !ends_session(#[trigger] events[k]),
        live_len(events) < events.len() ==> ends_session(events[live_len(events)]),
{
    lemma_first_where(events, ending());
}

/// `live_len` is the only index with that property.
pub proof fn lemma_live_len(events: Seq<SessionEvent>, n: int)
    requires
        0 <= n <= events.len(),
        forall|k: int| 0 <= k < n ==> !ends_session(#[trigger] events[k]),
        n < events.len() ==> ends_session(events[n]),
    ensures
        live_len(events) == n,
{
    lemma_first_where_is(events, ending(), n);
}

/// A session that is cancelled before any chunk arrives hands nothing to its
/// consumer. The same holds when the feed ends or fails at once.
pub proof fn lemma_ended_at_once(events: Seq<SessionEvent>)
    requires
        events.len() > 0,
        ends_session(events[0]),
    ensures
        live_len(events) == 0,
        emitted(events) == Seq::<LineView>::empty(),
{
}

/// Nothing that arrives after the event that ended the session is handed to
/// the consumer: what follows that event changes nothing.
pub proof fn lemma_nothing_after_end(events: Seq<SessionEvent>, end: int, later: Seq<SessionEvent>)
    requires
        0 <= end < events.len(),
        ends_session(events[end]),
    ensures
        emitted(events + later) == emitted(events),
        emitted(events) == emitted(events.take(end)),
{
    lemma_live_len_bounds(events);
    let n = live_len(events);
    assert(n <= end) by {
        if n > end {
            assert(!ends_session(events[end]));
        }
    }
    let longer = events + later;
    assert forall|k: int| 0 <= k < n implies !ends_session(#[trigger] longer[k]) by {
        assert(longer[k] == events[k]);
    }
    assert(longer[n] == events[n]);
    lemma_live_len(longer, n);
    assert(longer.take(n) == events.take(n));
    let shorter = events.take(end);
    assert forall|k: int| 0 <= k < n implies !ends_session(#[trigger] shorter[k]) by {
        assert(shorter[k] == events[k]);
    }
    if n < end {
        assert(shorter[n] == events[n]);
    }
    lemma_live_len(shorter, n);
    assert(shorter.take(n) == events.take(n));
}

/// Lines come out in arrival order: the lines of chunks followed by further
/// events are the lines of the chunks followed by those of the further
/// events.
pub proof fn lemma_emitted_in_order(chunks: Seq<SessionEvent>, later: Seq<SessionEvent>)
    requires
        forall|k: int| 0 <= k < chunks.len() ==> !ends_session(#[trigger] chunks[k]),
    ensures
        emitted(chunks + later) == lines_of(chunks) + emitted(later),
{
    let all = chunks + later;
    lemma_live_len_bounds(later);
    let n = live_len(later);
    assert forall|k: int| 0 <= k < chunks.len() + n implies !ends_session(#[trigger] all[k]) by {
        if k < chunks.len() {
            assert(all[k] == chunks[k]);
        } else {
            assert(all[k] == later[k - chunks.len()]);
        }
    }
    if n < later.len() {
        assert(all[chunks.len() + n] == later[n]);
    }
    lemma_live_len(all, chunks.len() + n);
    assert(all.take(chunks.len() + n) == chunks + later.take(n));
    lemma_lines_of_concat(chunks, later.take(n));
}

/// The lines of two runs of chunks, one after the other.
pub proof fn lemma_lines_of_concat(a: Seq<SessionEvent>, b: Seq<SessionEvent>)
    ensures
        lines_of(a + b) == lines_of(a) + lines_of(b),
    decreases b.len(),
{
    if b.len() == 0 {
        assert(a + b == a);
    } else {
        lemma_lines_of_concat(a, b.drop_last());
        assert((a + b).drop_last() == a + b.drop_last());
        assert((a + b).last() == b.last());
    }
}

/// Each chunk gives at most one line.
pub proof fn lemma_at_most_one_line_per_chunk(events: Seq<SessionEvent>)
    ensures
        emitted(events).len() <= live_len(events) <= events.len(),
{
    lemma_live_len_bounds(events);
    lemma_lines_of_len(events.take(live_len(events)));
}

/// A run of chunks gives no more lines than it has chunks.
pub proof fn lemma_lines_of_len(chunks: Seq<SessionEvent>)
    ensures
        lines_of(chunks).len() <= chunks.len(),
    decreases chunks.len(),
{
    if chunks.len() > 0 {
        lemma_lines_of_len(chunks.drop_last());
    }
}

/// Once the signal has been given, the next step ends the session and
/// hands nothing to the consumer, whatever the feed delivered meanwhile.
pub proof fn lemma_nothing_once_cancelled(
    outcome: StepOutcome,
    state: SessionState,
    arrived: SessionEvent,
)
    requires
        outcome.follows(state, observed(true, arrived)),
    ensures
        outcome.state == SessionState::Terminated,
        outcome.line is None,
        outcome.notice is None,
{
}

/// A token is nothing but its signal: two tokens in the same state are the
/// same token, so giving the signal a second time changes nothing.
pub proof fn lemma_token_is_its_signal(a: CancellationToken, b: CancellationToken)
    requires
        a.cancelled() == b.cancelled(),
    ensures
        a == b,
{
}

} // verus!
