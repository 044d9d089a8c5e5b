//! The decisions of an interactive or command session: forwarding input to
//! the channel, output to the terminal, and the remote exit status.

use vstd::prelude::*;

verus! {

/// What happened on the local input or on the SSH channel.
#[derive(PartialEq, Eq, Structural, Clone, Copy)]
pub enum SessionEvent {
    /// A read from local input returned this many bytes; 0 is end of input.
    StdinRead(usize),
    /// The channel delivered data for standard output.
    Data,
    /// The channel delivered extended data (standard error).
    ExtendedData,
    /// The remote command exited with this status.
    ExitStatus(u32),
    /// The channel is closed: no more messages will come.
    Closed,
    /// Any other channel message.
    Other,
}

/// What the caller must do for an event.
#[derive(PartialEq, Eq, Structural, Clone, Copy)]
pub enum SessionAction {
    /// Tell the server that local input has ended.
    SendEof,
    /// Send the first this-many bytes that were read.
    SendData(usize),
    /// Write the data to standard output and flush it.
    WriteStdout,
    /// Write the data to standard error and flush it.
    WriteStderr,
    /// Nothing to do.
    Ignore,
    /// The session is over; its result is this exit status.
    Finish(u32),
}

/// The state of a running session.
#[derive(PartialEq, Eq, Structural, Clone, Copy)]
pub struct Session {
    pub exit_status: u32,
    pub stdin_open: bool,
    pub finished: bool,
}

/// A session that has just started: exit status 0 until the server sends
/// one, local input open.
pub open spec fn initial_session() -> Session {
    Session { exit_status: 0, stdin_open: true, finished: false }
}

/// Whether `e` can occur in state `s`: nothing after the end, and no read
/// from local input once it has ended.
pub open spec fn session_accepts(s: Session, e: SessionEvent) -> bool {
    !s.finished && (e matches SessionEvent::StdinRead(_) ==> s.stdin_open)
}

/// The next state and the action for one event.
pub open spec fn session_next(s: Session, e: SessionEvent) -> (Session, SessionAction) {
    match e {
        SessionEvent::StdinRead(n) => if n == 0 {
            (Session { stdin_open: false, ..s }, SessionAction::SendEof)
        } else {
            (s, SessionAction::SendData(n))
        },
        SessionEvent::Data => (s, SessionAction::WriteStdout),
        SessionEvent::ExtendedData => (s, SessionAction::WriteStderr),
        SessionEvent::ExitStatus(code) => (Session { exit_status: code, ..s }, SessionAction::Ignore),
        SessionEvent::Closed => (Session { finished: true, ..s }, SessionAction::Finish(s.exit_status)),
        SessionEvent::Other => (s, SessionAction::Ignore),
    }
}

impl Session {
    /// A new session.
    pub fn new() -> (s: Self)
        ensures
            s == initial_session(),
    {
        Session { exit_status: 0, stdin_open: true, finished: false }
    }

    /// Whether local input should still be read.
    pub fn reads_stdin(&self) -> (b: bool)
        ensures
            b == (self.stdin_open && !self.finished),
    {
        self.stdin_open && !self.finished
    }

    /// Advances the session by one event.
    pub fn step(&mut self, event: SessionEvent) -> (action: SessionAction)
        requires
            session_accepts(*old(self), event),
        ensures
            (*final(self), action) == session_next(*old(self), event),
    {
        match event {
            SessionEvent::StdinRead(n) => {
                if n == 0 {
                    self.stdin_open = false;
                    SessionAction::SendEof
                } else {
                    SessionAction::SendData(n)
                }
            },
            SessionEvent::Data => SessionAction::WriteStdout,
            SessionEvent::ExtendedData => SessionAction::WriteStderr,
            SessionEvent::ExitStatus(code) => {
                self.exit_status = code;
                SessionAction::Ignore
            },
            SessionEvent::Closed => {
                self.finished = true;
                SessionAction::Finish(self.exit_status)
            },
            SessionEvent::Other => SessionAction::Ignore,
        }
    }
}

/// The process exit code for a remote exit status: statuses above 255 are
/// reported as 255.
pub fn exit_code(status: u32) -> (code: u8)
    ensures
        code == if status <= 255 {
            status
        } else {
            255
        },
{
    if status <= 255 {
        status as u8
    } else {
        255
    }
}

/// The terminal size requested for a shell's pseudo-terminal: the local
/// terminal's columns and rows, or 80 by 24 when they cannot be read.
pub fn pty_size(size: Option<(u16, u16)>) -> (r: (u32, u32))
    ensures
        r == match size {
            Some((w, h)) => (w as u32, h as u32),
            None => (80u32, 24u32),
        },
{
    match size {
        Some((w, h)) => (w as u32, h as u32),
        None => (80, 24),
    }
}

/// The state after a sequence of events.
pub open spec fn run_session(s: Session, events: Seq<SessionEvent>) -> Session
    decreases events.len(),
{
    if events.len() == 0 {
        s
    } else {
        run_session(session_next(s, events[0]).0, events.drop_first())
    }
}

/// Whether every event of the sequence can occur where it occurs.
pub open spec fn valid_run(s: Session, events: Seq<SessionEvent>) -> bool
    decreases events.len(),
{
    events.len() == 0 || (session_accepts(s, events[0]) && valid_run(
        session_next(s, events[0]).0,
        events.drop_first(),
    ))
}

/// The status of the last `ExitStatus` event, or `default` if there is none.
pub open spec fn last_exit_status(events: Seq<SessionEvent>, default: u32) -> u32
    decreases events.len(),
{
    if events.len() == 0 {
        default
    } else {
        match events.last() {
            SessionEvent::ExitStatus(code) => code,
            _ => last_exit_status(events.drop_last(), default),
        }
    }
}

proof fn lemma_last_exit_status_front(e: SessionEvent, rest: Seq<SessionEvent>, default: u32)
    ensures
        last_exit_status(seq![e] + rest, default) == last_exit_status(
            rest,
            match e {
                SessionEvent::ExitStatus(code) => code,
                _ => default,
            },
        ),
    decreases rest.len(),
{
    let all = seq![e] + rest;
    let start = match e {
        SessionEvent::ExitStatus(code) => code,
        _ => default,
    };
    if rest.len() > 0 {
        assert(all.drop_last() =~= seq![e] + rest.drop_last());
        assert(all.last() == rest.last());
        lemma_last_exit_status_front(e, rest.drop_last(), default);
        match rest.last() {
            SessionEvent::ExitStatus(code) => {},
            _ => {
                assert(last_exit_status(all, default) == last_exit_status(all.drop_last(), default));
                assert(last_exit_status(rest, start) == last_exit_status(rest.drop_last(), start));
            },
        }
    } else {
        assert(all.drop_last() =~= Seq::<SessionEvent>::empty());
        assert(all.last() == e);
        assert(last_exit_status(rest, start) == start);
        assert(last_exit_status(all.drop_last(), default) == default);
    }
}

/// The session's exit status is always the status of the last `ExitStatus`
/// message received so far, or 0 before any: so the status a session
/// finishes with is the last one the server sent.
pub proof fn lemma_exit_status_is_last_reported(events: Seq<SessionEvent>)
    ensures
        run_session(initial_session(), events).exit_status == last_exit_status(events, 0),
{
    lemma_exit_status_tracks(initial_session(), events);
}

proof fn lemma_exit_status_tracks(s: Session, events: Seq<SessionEvent>)
    ensures
        run_session(s, events).exit_status == last_exit_status(events, s.exit_status),
    decreases events.len(),
{
    if events.len() > 0 {
        let e = events[0];
        let rest = events.drop_first();
        assert(events =~= seq![e] + rest);
        lemma_last_exit_status_front(e, rest, s.exit_status);
        lemma_exit_status_tracks(session_next(s, e).0, rest);
    }
}

/// Once local input has ended it is never read again, and a finished
/// session accepts no further event.
pub proof fn lemma_input_closed_stays_closed(s: Session, events: Seq<SessionEvent>)
    requires
        !s.stdin_open,
        valid_run(s, events),
    ensures
        !run_session(s, events).stdin_open,
        forall|i: int| 0 <= i < events.len() ==> !(#[trigger] events[i] matches SessionEvent::StdinRead(_)),
    decreases events.len(),
{
    if events.len() > 0 {
        lemma_input_closed_stays_closed(session_next(s, events[0]).0, events.drop_first());
        assert forall|i: int| 0 <= i < events.len() implies !(#[trigger] events[i] matches SessionEvent::StdinRead(_)) by {
            if i > 0 {
                assert(events[i] == events.drop_first()[i - 1]);
            }
        }
    }
}

/// A finished session accepts no event.
pub proof fn lemma_finished_is_final(s: Session, e: SessionEvent)
    requires
        s.finished,
    ensures
        !session_accepts(s, e),
{
}

/// Whatever happened on local input, a session that closes after a
/// sequence of events finishes with the status of the last `ExitStatus`
/// message in it, or 0 when the server sent none.
pub proof fn lemma_finish_reports_last_status(events: Seq<SessionEvent>)
    ensures
        session_next(run_session(initial_session(), events), SessionEvent::Closed).1
            == SessionAction::Finish(last_exit_status(events, 0)),
{
    lemma_exit_status_is_last_reported(events);
}

/// A session that closes right after the server reported status `code`
/// finishes with `code`, in any state where the close can occur.
pub proof fn lemma_reported_status_survives_close(s: Session, code: u32)
    requires
        session_accepts(s, SessionEvent::ExitStatus(code)),
    ensures
        session_next(session_next(s, SessionEvent::ExitStatus(code)).0, SessionEvent::Closed).1
            == SessionAction::Finish(code),
{
}

/// Local input is forwarded as read: a read of `n > 0` bytes sends those
/// `n` bytes and keeps input open; a read of 0 sends end-of-input and
/// closes it. Channel data goes to standard output, extended data to
/// standard error, and none of these ends the session.
pub proof fn lemma_forwarding(s: Session, e: SessionEvent)
    requires
        session_accepts(s, e),
    ensures
        e matches SessionEvent::StdinRead(n) ==> (if n > 0 {
            session_next(s, e).1 == SessionAction::SendData(n) && session_next(s, e).0.stdin_open
        } else {
            session_next(s, e).1 == SessionAction::SendEof && !session_next(s, e).0.stdin_open
        }),
        e is Data ==> session_next(s, e).1 == SessionAction::WriteStdout,
        e is ExtendedData ==> session_next(s, e).1 == SessionAction::WriteStderr,
        !(e is Closed) ==> !session_next(s, e).0.finished && !(session_next(s, e).1 is Finish),
        e is Closed ==> session_next(s, e).0.finished,
{
}

} // verus!
