//! The agent side of one remote execution: a state machine that is told what
//! happened (a request came in, the child wrote something, a write finished)
//! and answers with the reply to send and the thing to do next.
//!
//! The machine itself touches neither the child nor the connection. Whoever
//! drives it performs what `Next` asks for and reports the outcome as the
//! next `SessionEvent`.

use crate::buffer::bytes_view;
use crate::rpc::{event_bytes, parse_request, Event, EventView, Request, RequestView};
use crate::ssh_agent::{
    extension_failure_view, failure_view, success_view, Message, MessageView, SSH_AGENT_SUCCESS,
};
use bytes::Bytes;
use vstd::prelude::*;

pub mod laws;

verus! {

/// The most that one read from the child's standard output or standard
/// error takes, and so the most that one `Stdout` or `Stderr` event carries.
pub const OUTPUT_CHUNK_SIZE: usize = 4096;

/// Where a session stands.
#[derive(Debug, Clone, Copy, PartialEq, Eq, Structural)]
pub enum Phase {
    /// No child yet: only `Exec` is accepted.
    Idle,
    /// The child runs: `Stdin` and `Watch` are accepted.
    Running,
    /// The exit of the child was reported, or no more requests can come.
    Finished,
    /// The session broke down; the connection is to be torn down.
    Failed,
}

/// The request that is being served, by the ticket of its reply.
#[derive(Debug, Clone, Copy, PartialEq, Eq, Structural)]
pub enum Pending {
    Nothing,
    Spawn(u64),
    WriteStdin(u64),
    CloseStdin(u64),
    Watch(u64),
}

/// How the attempt to start the child ended.
#[derive(Debug, Clone, Copy, PartialEq, Eq, Structural)]
pub enum SpawnOutcome {
    /// The child runs, with its three standard streams piped.
    Started,
    /// The descriptor was no well-formed command descriptor.
    Malformed,
    /// The command could not be started.
    Failed,
}

/// What the driver reports to the session.
#[derive(Debug)]
pub enum SessionEvent {
    /// The next request came in: the contents of its extension envelope, and
    /// the ticket under which its reply is owed.
    Request { payload: Bytes, ticket: u64 },
    /// The request held in the peek slot is to be served now.
    Resume,
    /// No more requests will come.
    InboxClosed,
    /// The attempt to start the child has ended.
    Spawned(SpawnOutcome),
    /// The write to the child's standard input, or its closing, has ended.
    StdinDone { ok: bool },
    /// While watching: the child has ended. The code is missing when the
    /// child was ended by a signal.
    ChildExited { code: Option<i32> },
    /// While watching: a read from the child's standard output returned.
    StdoutRead(Bytes),
    /// While watching: a read from the child's standard error returned.
    StderrRead(Bytes),
    /// While watching: waiting for the child, or reading from it, failed.
    WatchFailed,
    /// While watching: another request came in before the child did anything.
    Interrupted { payload: Bytes, ticket: u64 },
}

/// What a `SessionEvent` is, as plain values.
pub enum SessionEventView {
    Request { payload: Seq<u8>, ticket: u64 },
    Resume,
    InboxClosed,
    Spawned(SpawnOutcome),
    StdinDone { ok: bool },
    ChildExited { code: Option<i32> },
    StdoutRead(Seq<u8>),
    StderrRead(Seq<u8>),
    WatchFailed,
    Interrupted { payload: Seq<u8>, ticket: u64 },
}

impl View for SessionEvent {
    type V = SessionEventView;

    open spec fn view(&self) -> SessionEventView {
        match self {
            SessionEvent::Request { payload, ticket } => SessionEventView::Request {
                payload: bytes_view(*payload),
                ticket: *ticket,
            },
            SessionEvent::Resume => SessionEventView::Resume,
            SessionEvent::InboxClosed => SessionEventView::InboxClosed,
            SessionEvent::Spawned(outcome) => SessionEventView::Spawned(*outcome),
            SessionEvent::StdinDone { ok } => SessionEventView::StdinDone { ok: *ok },
            SessionEvent::ChildExited { code } => SessionEventView::ChildExited { code: *code },
            SessionEvent::StdoutRead(data) => SessionEventView::StdoutRead(bytes_view(*data)),
            SessionEvent::StderrRead(data) => SessionEventView::StderrRead(bytes_view(*data)),
            SessionEvent::WatchFailed => SessionEventView::WatchFailed,
            SessionEvent::Interrupted { payload, ticket } => SessionEventView::Interrupted {
                payload: bytes_view(*payload),
                ticket: *ticket,
            },
        }
    }
}

/// A reply, and the ticket of the request that it answers.
#[derive(Debug)]
pub struct Reply {
    pub ticket: u64,
    pub message: Message,
}

/// What a `Reply` is, as plain values.
pub struct ReplyView {
    pub ticket: u64,
    pub message: MessageView,
}

impl View for Reply {
    type V = ReplyView;

    open spec fn view(&self) -> ReplyView {
        ReplyView { ticket: self.ticket, message: self.message@ }
    }
}

/// What the driver is to do next.
#[derive(Debug)]
pub enum Next {
    /// Wait for the next request and report it as `Request`, or report
    /// `InboxClosed`.
    Receive,
    /// Report `Resume`: a request waits in the peek slot.
    Resume,
    /// Start the child that the descriptor names, with its three standard
    /// streams piped and so that it is killed when the session is dropped;
    /// report `Spawned`.
    Spawn(Bytes),
    /// Write all of these bytes to the child's standard input; report
    /// `StdinDone`.
    WriteStdin(Bytes),
    /// Shut the child's standard input down and drop it; report `StdinDone`.
    CloseStdin,
    /// Wait for whichever comes first: a read of at most
    /// `OUTPUT_CHUNK_SIZE` bytes from the child's standard output (if
    /// `stdout`), one from its standard error (if `stderr`), the exit of the
    /// child, or the next request. Where several have come, take them in
    /// this order, so that no output is lost behind the exit. Report it as
    /// `StdoutRead`, `StderrRead`, `ChildExited`, `WatchFailed`,
    /// `Interrupted` or `InboxClosed`.
    Watch { stdout: bool, stderr: bool },
    /// The session is over: drop the child. The connection stays.
    Stop,
    /// The session broke down: drop the child and tear the connection down.
    Fail,
}

/// What a `Next` is, as plain values.
pub enum NextView {
    Receive,
    Resume,
    Spawn(Seq<u8>),
    WriteStdin(Seq<u8>),
    CloseStdin,
    Watch { stdout: bool, stderr: bool },
    Stop,
    Fail,
}

impl View for Next {
    type V = NextView;

    open spec fn view(&self) -> NextView {
        match self {
            Next::Receive => NextView::Receive,
            Next::Resume => NextView::Resume,
            Next::Spawn(descriptor) => NextView::Spawn(bytes_view(*descriptor)),
            Next::WriteStdin(data) => NextView::WriteStdin(bytes_view(*data)),
            Next::CloseStdin => NextView::CloseStdin,
            Next::Watch { stdout, stderr } => NextView::Watch { stdout: *stdout, stderr: *stderr },
            Next::Stop => NextView::Stop,
            Next::Fail => NextView::Fail,
        }
    }
}

/// The answer of the session to one event.
#[derive(Debug)]
pub struct Step {
    /// The reply to send now, if any.
    pub reply: Option<Reply>,
    pub next: Next,
}

/// What a `Step` is, as plain values.
pub struct StepView {
    pub reply: Option<ReplyView>,
    pub next: NextView,
}

impl View for Step {
    type V = StepView;

    open spec fn view(&self) -> StepView {
        StepView {
            reply: match self.reply {
                Some(reply) => Some(reply@),
                None => None,
            },
            next: self.next@,
        }
    }
}

/// The state of a session, as plain values.
pub struct SessionState {
    pub phase: Phase,
    pub pending: Pending,
    /// Whether the child's standard input can still be written to.
    pub stdin_open: bool,
    /// Whether the child's standard output has not yet reported its end.
    pub stdout_open: bool,
    /// Whether the child's standard error has not yet reported its end.
    pub stderr_open: bool,
    /// The peek slot: the request that interrupted a `Watch`, until it is
    /// served.
    pub peeked: Option<(Seq<u8>, u64)>,
}

/// A state and the step that led to it.
pub struct Outcome {
    pub state: SessionState,
    pub step: StepView,
}

/// The state of a session before anything happened.
pub open spec fn initial_state() -> SessionState {
    SessionState {
        phase: Phase::Idle,
        pending: Pending::Nothing,
        stdin_open: false,
        stdout_open: false,
        stderr_open: false,
        peeked: None,
    }
}

/// The state of a session that has ended in `phase`: nothing is open and
/// nothing is owed.
pub open spec fn ended_state(phase: Phase) -> SessionState {
    SessionState {
        phase,
        pending: Pending::Nothing,
        stdin_open: false,
        stdout_open: false,
        stderr_open: false,
        peeked: None,
    }
}

/// The session answers a request at once and waits for the next.
pub open spec fn answer(s: SessionState, ticket: u64, message: MessageView) -> Outcome {
    Outcome {
        state: SessionState { pending: Pending::Nothing, ..s },
        step: StepView { reply: Some(ReplyView { ticket, message }), next: NextView::Receive },
    }
}

/// The session breaks down. A request that was being served is answered
/// with a plain failure.
pub open spec fn break_down(pending: Option<u64>) -> Outcome {
    Outcome {
        state: ended_state(Phase::Failed),
        step: StepView {
            reply: match pending {
                Some(ticket) => Some(ReplyView { ticket, message: failure_view() }),
                None => None,
            },
            next: NextView::Fail,
        },
    }
}

/// The session takes up a request. It is free to do so: nothing is pending.
pub open spec fn take_up(s: SessionState, payload: Seq<u8>, ticket: u64) -> Outcome {
    match s.phase {
        Phase::Idle => match parse_request(payload) {
            Ok(RequestView::Exec(descriptor)) => Outcome {
                state: SessionState { pending: Pending::Spawn(ticket), ..s },
                step: StepView { reply: None, next: NextView::Spawn(descriptor) },
            },
            _ => answer(s, ticket, extension_failure_view()),
        },
        Phase::Running => match parse_request(payload) {
            Ok(RequestView::Stdin(data)) => if !s.stdin_open {
                answer(s, ticket, extension_failure_view())
            } else if data.len() == 0 {
                Outcome {
                    state: SessionState { pending: Pending::CloseStdin(ticket), ..s },
                    step: StepView { reply: None, next: NextView::CloseStdin },
                }
            } else {
                Outcome {
                    state: SessionState { pending: Pending::WriteStdin(ticket), ..s },
                    step: StepView { reply: None, next: NextView::WriteStdin(data) },
                }
            },
            Ok(RequestView::Watch) => Outcome {
                state: SessionState { pending: Pending::Watch(ticket), ..s },
                step: StepView {
                    reply: None,
                    next: NextView::Watch { stdout: s.stdout_open, stderr: s.stderr_open },
                },
            },
            _ => answer(s, ticket, extension_failure_view()),
        },
        Phase::Finished => Outcome {
            state: s,
            step: StepView {
                reply: Some(ReplyView { ticket, message: failure_view() }),
                next: NextView::Stop,
            },
        },
        Phase::Failed => Outcome {
            state: s,
            step: StepView {
                reply: Some(ReplyView { ticket, message: failure_view() }),
                next: NextView::Fail,
            },
        },
    }
}

/// The reply that carries an event.
pub open spec fn event_reply(e: EventView) -> MessageView {
    success_view(event_bytes(e))
}

/// The session's answer to an event, and the state it is in afterwards.
///
/// An event that the session did not ask for (the outcome of a write while
/// nothing is being written, a second request while one is being served)
/// breaks the session down.
pub open spec fn session_step(s: SessionState, e: SessionEventView) -> Outcome {
    match e {
        SessionEventView::Request { payload, ticket } => if s.pending == Pending::Nothing
            && s.peeked is None {
            take_up(s, payload, ticket)
        } else {
            break_down(None)
        },
        SessionEventView::Resume => match s.peeked {
            Some((payload, ticket)) => if s.pending == Pending::Nothing {
                take_up(SessionState { peeked: None, ..s }, payload, ticket)
            } else {
                break_down(None)
            },
            None => break_down(None),
        },
        SessionEventView::InboxClosed => match s.pending {
            Pending::Nothing => if s.peeked is None && s.phase != Phase::Failed {
                Outcome {
                    state: ended_state(Phase::Finished),
                    step: StepView { reply: None, next: NextView::Stop },
                }
            } else {
                break_down(None)
            },
            Pending::Watch(ticket) => Outcome {
                state: ended_state(Phase::Finished),
                step: StepView {
                    reply: Some(
                        ReplyView { ticket, message: event_reply(EventView::Cancelled) },
                    ),
                    next: NextView::Stop,
                },
            },
            _ => break_down(None),
        },
        SessionEventView::Spawned(outcome) => match s.pending {
            Pending::Spawn(ticket) => match outcome {
                SpawnOutcome::Started => answer(
                    SessionState {
                        phase: Phase::Running,
                        stdin_open: true,
                        stdout_open: true,
                        stderr_open: true,
                        ..s
                    },
                    ticket,
                    success_view(Seq::empty()),
                ),
                SpawnOutcome::Malformed => answer(s, ticket, extension_failure_view()),
                SpawnOutcome::Failed => break_down(Some(ticket)),
            },
            _ => break_down(None),
        },
        SessionEventView::StdinDone { ok } => match s.pending {
            Pending::WriteStdin(ticket) => if ok {
                answer(s, ticket, success_view(Seq::empty()))
            } else {
                break_down(Some(ticket))
            },
            Pending::CloseStdin(ticket) => if ok {
                answer(SessionState { stdin_open: false, ..s }, ticket, success_view(Seq::empty()))
            } else {
                break_down(Some(ticket))
            },
            _ => break_down(None),
        },
        SessionEventView::ChildExited { code } => match s.pending {
            Pending::Watch(ticket) => Outcome {
                state: ended_state(Phase::Finished),
                step: StepView {
                    reply: Some(
                        ReplyView {
                            ticket,
                            message: event_reply(
                                EventView::Exited(
                                    match code {
                                        Some(code) => code,
                                        None => 0,
                                    },
                                ),
                            ),
                        },
                    ),
                    next: NextView::Stop,
                },
            },
            _ => break_down(None),
        },
        SessionEventView::StdoutRead(data) => match s.pending {
            Pending::Watch(ticket) => if s.stdout_open {
                answer(
                    SessionState { stdout_open: data.len() != 0, ..s },
                    ticket,
                    event_reply(EventView::Stdout(data)),
                )
            } else {
                break_down(None)
            },
            _ => break_down(None),
        },
        SessionEventView::StderrRead(data) => match s.pending {
            Pending::Watch(ticket) => if s.stderr_open {
                answer(
                    SessionState { stderr_open: data.len() != 0, ..s },
                    ticket,
                    event_reply(EventView::Stderr(data)),
                )
            } else {
                break_down(None)
            },
            _ => break_down(None),
        },
        SessionEventView::WatchFailed => match s.pending {
            Pending::Watch(ticket) => answer(s, ticket, extension_failure_view()),
            _ => break_down(None),
        },
        SessionEventView::Interrupted { payload, ticket: next_ticket } => match s.pending {
            Pending::Watch(ticket) => Outcome {
                state: SessionState {
                    pending: Pending::Nothing,
                    peeked: Some((payload, next_ticket)),
                    ..s
                },
                step: StepView {
                    reply: Some(
                        ReplyView { ticket, message: event_reply(EventView::Cancelled) },
                    ),
                    next: NextView::Resume,
                },
            },
            _ => break_down(None),
        },
    }
}

/// The agent side of one remote execution.
#[derive(Debug)]
pub struct Session {
    phase: Phase,
    pending: Pending,
    stdin_open: bool,
    stdout_open: bool,
    stderr_open: bool,
    peeked: Option<(Bytes, u64)>,
}

impl View for Session {
    type V = SessionState;

    closed spec fn view(&self) -> SessionState {
        SessionState {
            phase: self.phase,
            pending: self.pending,
            stdin_open: self.stdin_open,
            stdout_open: self.stdout_open,
            stderr_open: self.stderr_open,
            peeked: match self.peeked {
                Some((payload, ticket)) => Some((bytes_view(payload), ticket)),
                None => None,
            },
        }
    }
}

impl Session {
    /// A session that has not yet been asked for anything.
    pub fn new() -> (s: Self)
        ensures
            s@ == initial_state(),
            s@.wf(),
    {
        Session {
            phase: Phase::Idle,
            pending: Pending::Nothing,
            stdin_open: false,
            stdout_open: false,
            stderr_open: false,
            peeked: None,
        }
    }

    /// Where the session stands.
    pub fn phase(&self) -> (p: Phase)
        ensures
            p == self@.phase,
    {
        self.phase
    }

    /// Tells the session what happened, and learns what to reply and what to
    /// do next.
    pub fn step(&mut self, event: SessionEvent) -> (r: Step)
        requires
            event@ matches SessionEventView::StdoutRead(d) ==> 1 + d.len() <= isize::MAX,
            event@ matches SessionEventView::StderrRead(d) ==> 1 + d.len() <= isize::MAX,
        ensures
            final(self)@ == session_step(old(self)@, event@).state,
            r@ == session_step(old(self)@, event@).step,
            old(self)@.wf() ==> final(self)@.wf(),
    {
        proof {
            if old(self)@.wf() {
                laws::lemma_step_keeps_wf(old(self)@, event@);
            }
        }
        match event {
            SessionEvent::Request { payload, ticket } => {
                if self.is_free() && self.peeked.is_none() {
                    self.take_up(payload, ticket)
                } else {
                    self.break_down(None)
                }
            },
            SessionEvent::Resume => {
                if !self.is_free() {
                    return self.break_down(None);
                }
                match self.peeked.take() {
                    Some((payload, ticket)) => self.take_up(payload, ticket),
                    None => self.break_down(None),
                }
            },
            SessionEvent::InboxClosed => {
                match self.pending {
                    Pending::Nothing => {
                        if self.peeked.is_none() && !matches!(self.phase, Phase::Failed) {
                            self.end(Phase::Finished);
                            Step { reply: None, next: Next::Stop }
                        } else {
                            self.break_down(None)
                        }
                    },
                    Pending::Watch(ticket) => {
                        self.end(Phase::Finished);
                        Step { reply: Some(event_message(ticket, Event::Cancelled)), next: Next::Stop }
                    },
                    _ => self.break_down(None),
                }
            },
            SessionEvent::Spawned(outcome) => self.handle_exec(outcome),
            SessionEvent::StdinDone { ok } => self.handle_stdin(ok),
            event => self.watch(event),
        }
    }

    /// Whether no request is being served.
    fn is_free(&self) -> (free: bool)
        ensures
            free == (self@.pending == Pending::Nothing),
    {
        matches!(self.pending, Pending::Nothing)
    }

    /// Ends the session in `phase`.
    fn end(&mut self, phase: Phase)
        ensures
            final(self)@ == ended_state(phase),
    {
        self.phase = phase;
        self.pending = Pending::Nothing;
        self.stdin_open = false;
        self.stdout_open = false;
        self.stderr_open = false;
        self.peeked = None;
    }

    /// Answers the request that is being served and waits for the next.
    fn answer(&mut self, ticket: u64, message: Message) -> (r: Step)
        ensures
            final(self)@ == answer(old(self)@, ticket, message@).state,
            r@ == answer(old(self)@, ticket, message@).step,
    {
        self.pending = Pending::Nothing;
        Step { reply: Some(Reply { ticket, message }), next: Next::Receive }
    }

    /// Gives the session up.
    fn break_down(&mut self, pending: Option<u64>) -> (r: Step)
        ensures
            final(self)@ == break_down(pending).state,
            r@ == break_down(pending).step,
    {
        self.end(Phase::Failed);
        let reply = match pending {
            Some(ticket) => Some(Reply { ticket, message: Message::failure() }),
            None => None,
        };
        Step { reply, next: Next::Fail }
    }

    /// Takes up a request while nothing else is being served.
    fn take_up(&mut self, payload: Bytes, ticket: u64) -> (r: Step)
        requires
            old(self)@.pending == Pending::Nothing,
        ensures
            final(self)@ == take_up(old(self)@, bytes_view(payload), ticket).state,
            r@ == take_up(old(self)@, bytes_view(payload), ticket).step,
    {
        let request = Request::try_from(payload);
        match self.phase {
            Phase::Idle => match request {
                Ok(Request::Exec(descriptor)) => {
                    self.pending = Pending::Spawn(ticket);
                    Step { reply: None, next: Next::Spawn(descriptor) }
                },
                _ => self.answer(ticket, Message::extension_failure()),
            },
            Phase::Running => match request {
                Ok(Request::Stdin(data)) => {
                    if !self.stdin_open {
                        self.answer(ticket, Message::extension_failure())
                    } else if data.is_empty() {
                        self.pending = Pending::CloseStdin(ticket);
                        Step { reply: None, next: Next::CloseStdin }
                    } else {
                        self.pending = Pending::WriteStdin(ticket);
                        Step { reply: None, next: Next::WriteStdin(data) }
                    }
                },
                Ok(Request::Watch) => {
                    self.pending = Pending::Watch(ticket);
                    Step {
                        reply: None,
                        next: Next::Watch { stdout: self.stdout_open, stderr: self.stderr_open },
                    }
                },
                _ => self.answer(ticket, Message::extension_failure()),
            },
            Phase::Finished => Step {
                reply: Some(Reply { ticket, message: Message::failure() }),
                next: Next::Stop,
            },
            Phase::Failed => Step {
                reply: Some(Reply { ticket, message: Message::failure() }),
                next: Next::Fail,
            },
        }
    }

    /// Learns how the attempt to start the child ended.
    fn handle_exec(&mut self, outcome: SpawnOutcome) -> (r: Step)
        ensures
            final(self)@ == session_step(old(self)@, SessionEventView::Spawned(outcome)).state,
            r@ == session_step(old(self)@, SessionEventView::Spawned(outcome)).step,
    {
        match self.pending {
            Pending::Spawn(ticket) => match outcome {
                SpawnOutcome::Started => {
                    self.phase = Phase::Running;
                    self.stdin_open = true;
                    self.stdout_open = true;
                    self.stderr_open = true;
                    self.answer(ticket, success(Bytes::new()))
                },
                SpawnOutcome::Malformed => self.answer(ticket, Message::extension_failure()),
                SpawnOutcome::Failed => self.break_down(Some(ticket)),
            },
            _ => self.break_down(None),
        }
    }

    /// Learns how the write to the child's standard input, or its closing,
    /// ended.
    fn handle_stdin(&mut self, ok: bool) -> (r: Step)
        ensures
            final(self)@ == session_step(old(self)@, SessionEventView::StdinDone { ok }).state,
            r@ == session_step(old(self)@, SessionEventView::StdinDone { ok }).step,
    {
        match self.pending {
            Pending::WriteStdin(ticket) => {
                if ok {
                    self.answer(ticket, success(Bytes::new()))
                } else {
                    self.break_down(Some(ticket))
                }
            },
            Pending::CloseStdin(ticket) => {
                if ok {
                    self.stdin_open = false;
                    self.answer(ticket, success(Bytes::new()))
                } else {
                    self.break_down(Some(ticket))
                }
            },
            _ => self.break_down(None),
        }
    }

    /// Learns what ended a `Watch`.
    fn watch(&mut self, event: SessionEvent) -> (r: Step)
        requires
            event@ matches SessionEventView::StdoutRead(d) ==> 1 + d.len() <= isize::MAX,
            event@ matches SessionEventView::StderrRead(d) ==> 1 + d.len() <= isize::MAX,
            event@ is ChildExited || event@ is StdoutRead || event@ is StderrRead
                || event@ is WatchFailed || event@ is Interrupted,
        ensures
            final(self)@ == session_step(old(self)@, event@).state,
            r@ == session_step(old(self)@, event@).step,
    {
        let ticket = match self.pending {
            Pending::Watch(ticket) => ticket,
            _ => {
                return self.break_down(None);
            },
        };
        match event {
            SessionEvent::ChildExited { code } => {
                let code = match code {
                    Some(code) => code,
                    None => 0,
                };
                self.end(Phase::Finished);
                Step { reply: Some(event_message(ticket, Event::Exited(code))), next: Next::Stop }
            },
            SessionEvent::StdoutRead(data) => {
                if !self.stdout_open {
                    return self.break_down(None);
                }
                if data.is_empty() {
                    self.stdout_open = false;
                }
                let reply = event_message(ticket, Event::Stdout(data));
                self.answer(reply.ticket, reply.message)
            },
            SessionEvent::StderrRead(data) => {
                if !self.stderr_open {
                    return self.break_down(None);
                }
                if data.is_empty() {
                    self.stderr_open = false;
                }
                let reply = event_message(ticket, Event::Stderr(data));
                self.answer(reply.ticket, reply.message)
            },
            SessionEvent::Interrupted { payload, ticket: next_ticket } => {
                self.pending = Pending::Nothing;
                self.peeked = Some((payload, next_ticket));
                Step { reply: Some(event_message(ticket, Event::Cancelled)), next: Next::Resume }
            },
            _ => self.answer(ticket, Message::extension_failure()),
        }
    }
}

/// A successful reply with the given contents.
fn success(contents: Bytes) -> (m: Message)
    ensures
        m@ == success_view(bytes_view(contents)),
{
    Message { message_type: SSH_AGENT_SUCCESS, contents }
}

/// The reply that carries `event` to the request with `ticket`.
fn event_message(ticket: u64, event: Event) -> (r: Reply)
    requires
        event@ matches EventView::Stdout(d) ==> 1 + d.len() <= isize::MAX,
        event@ matches EventView::Stderr(d) ==> 1 + d.len() <= isize::MAX,
    ensures
        r@ == (ReplyView { ticket, message: event_reply(event@) }),
{
    Reply { ticket, message: success(event.into_bytes()) }
}

} // verus!
