//! The client side of one remote execution: it asks the agent to run a
//! command, keeps a `Watch` outstanding, hands on what the child writes,
//! feeds it the local standard input, and ends with the child's exit code.
//!
//! Like the session, the driver only decides. Whoever runs it sends the
//! messages, writes the output and reads the input.

use crate::buffer::bytes_view;
use crate::rpc::{
    build_request_message, parse_event, request_message, Event, EventError, EventView, Request,
    RequestView, REQUEST_OVERHEAD,
};
use crate::ssh_agent::{
    Message, MessageView, SSH_AGENT_EXTENSION_FAILURE, SSH_AGENT_FAILURE, SSH_AGENT_SUCCESS,
};
use bytes::Bytes;
use vstd::prelude::*;

verus! {

/// The most that one read from the local standard input takes, and so the
/// most that one `Stdin` request carries.
pub const STDIN_CHUNK_SIZE: usize = 256;

/// Why a reply ends the execution.
#[derive(Debug, Clone, Copy, PartialEq, Eq, Structural)]
pub enum ReplyError {
    /// The agent answered `SSH_AGENT_FAILURE`.
    AgentFailure,
    /// The agent answered `SSH_AGENT_EXTENSION_FAILURE`.
    ExtensionFailure,
    /// The agent answered with a message of a type that is no reply to us.
    UnknownMessageType(u8),
    /// The reply was a success, but what it carried is no event.
    Malformed(EventError),
    /// The reply carried an event where a bare acknowledgement was due.
    UnexpectedEvent,
}

/// What a reply says: an acknowledgement (`None`), an event, or why it is
/// neither.
pub open spec fn read_reply(reply: MessageView) -> Result<Option<EventView>, ReplyError> {
    if reply.message_type == SSH_AGENT_FAILURE {
        Err(ReplyError::AgentFailure)
    } else if reply.message_type == SSH_AGENT_EXTENSION_FAILURE {
        Err(ReplyError::ExtensionFailure)
    } else if reply.message_type == SSH_AGENT_SUCCESS {
        if reply.contents.len() == 0 {
            Ok(None)
        } else {
            match parse_event(reply.contents) {
                Ok(event) => Ok(Some(event)),
                Err(err) => Err(ReplyError::Malformed(err)),
            }
        }
    } else {
        Err(ReplyError::UnknownMessageType(reply.message_type))
    }
}

/// Reads a reply of the agent.
pub fn recv(reply: Message) -> (r: Result<Option<Event>, ReplyError>)
    ensures
        match read_reply(reply@) {
            Ok(None) => r matches Ok(None),
            Ok(Some(event)) => r matches Ok(Some(got)) && got@ == event,
            Err(err) => r matches Err(got) && got == err,
        },
{
    if reply.message_type == SSH_AGENT_FAILURE {
        Err(ReplyError::AgentFailure)
    } else if reply.message_type == SSH_AGENT_EXTENSION_FAILURE {
        Err(ReplyError::ExtensionFailure)
    } else if reply.message_type == SSH_AGENT_SUCCESS {
        if reply.contents.is_empty() {
            Ok(None)
        } else {
            match Event::try_from(reply.contents) {
                Ok(event) => Ok(Some(event)),
                Err(err) => Err(ReplyError::Malformed(err)),
            }
        }
    } else {
        Err(ReplyError::UnknownMessageType(reply.message_type))
    }
}

/// Where the driver stands.
#[derive(Debug, Clone, Copy, PartialEq, Eq, Structural)]
pub enum DriverPhase {
    /// `Exec` was sent; its acknowledgement is awaited.
    Starting,
    /// The child runs and a `Watch` is outstanding.
    Running,
    /// The child has ended with this exit code.
    Exited(i32),
    /// A reply ended the execution.
    Failed(ReplyError),
}

/// The state of a driver, as plain values.
pub struct DriverState {
    pub phase: DriverPhase,
    /// Whether the end of the local standard input has been passed on.
    pub stdin_done: bool,
}

/// What the driver wants done after a reply.
#[derive(Debug)]
pub enum DriverAction {
    /// Nothing: await the next reply.
    Wait,
    /// Send this message (a `Watch`), then await the next reply.
    Send(Message),
    /// Write these bytes to the local standard output, then send the
    /// message (a `Watch`).
    Stdout { data: Bytes, then: Message },
    /// Write these bytes to the local standard error, then send the message
    /// (a `Watch`).
    Stderr { data: Bytes, then: Message },
    /// The child has ended: end with its exit code.
    Exit(i32),
    /// The execution has failed.
    Fail(ReplyError),
}

/// What a `DriverAction` is, as plain values.
pub enum DriverActionView {
    Wait,
    Send(MessageView),
    Stdout { data: Seq<u8>, then: MessageView },
    Stderr { data: Seq<u8>, then: MessageView },
    Exit(i32),
    Fail(ReplyError),
}

impl View for DriverAction {
    type V = DriverActionView;

    open spec fn view(&self) -> DriverActionView {
        match self {
            DriverAction::Wait => DriverActionView::Wait,
            DriverAction::Send(message) => DriverActionView::Send(message@),
            DriverAction::Stdout { data, then } => DriverActionView::Stdout {
                data: bytes_view(*data),
                then: then@,
            },
            DriverAction::Stderr { data, then } => DriverActionView::Stderr {
                data: bytes_view(*data),
                then: then@,
            },
            DriverAction::Exit(code) => DriverActionView::Exit(*code),
            DriverAction::Fail(err) => DriverActionView::Fail(*err),
        }
    }
}

/// The message that asks for the next event.
pub open spec fn watch_message() -> MessageView {
    request_message(RequestView::Watch)
}

/// The phase of a driver after a reply.
pub open spec fn phase_after(phase: DriverPhase, reply: MessageView) -> DriverPhase {
    match phase {
        DriverPhase::Starting => match read_reply(reply) {
            Ok(None) => DriverPhase::Running,
            Ok(Some(_)) => DriverPhase::Failed(ReplyError::UnexpectedEvent),
            Err(err) => DriverPhase::Failed(err),
        },
        DriverPhase::Running => match read_reply(reply) {
            Ok(Some(EventView::Exited(code))) => DriverPhase::Exited(code),
            Ok(_) => DriverPhase::Running,
            Err(err) => DriverPhase::Failed(err),
        },
        ended => ended,
    }
}

/// What the driver wants done after a reply.
///
/// While starting, only a bare acknowledgement will do: it is answered with
/// the first `Watch`. While running, an acknowledgement (of a `Stdin`) asks
/// for nothing; output is written and `Cancelled` is passed over, each
/// followed by the next `Watch`; `Exited` ends the execution with the
/// child's code. Any other reply is fatal. Once ended, the driver keeps
/// saying how it ended.
pub open spec fn action_after(phase: DriverPhase, reply: MessageView) -> DriverActionView {
    match phase {
        DriverPhase::Starting => match read_reply(reply) {
            Ok(None) => DriverActionView::Send(watch_message()),
            Ok(Some(_)) => DriverActionView::Fail(ReplyError::UnexpectedEvent),
            Err(err) => DriverActionView::Fail(err),
        },
        DriverPhase::Running => match read_reply(reply) {
            Ok(None) => DriverActionView::Wait,
            Ok(Some(EventView::Cancelled)) => DriverActionView::Send(watch_message()),
            Ok(Some(EventView::Stdout(data))) => DriverActionView::Stdout {
                data,
                then: watch_message(),
            },
            Ok(Some(EventView::Stderr(data))) => DriverActionView::Stderr {
                data,
                then: watch_message(),
            },
            Ok(Some(EventView::Exited(code))) => DriverActionView::Exit(code),
            Err(err) => DriverActionView::Fail(err),
        },
        DriverPhase::Exited(code) => DriverActionView::Exit(code),
        DriverPhase::Failed(err) => DriverActionView::Fail(err),
    }
}

/// The client side of one remote execution.
#[derive(Debug)]
pub struct ExecDriver {
    phase: DriverPhase,
    stdin_done: bool,
}

impl View for ExecDriver {
    type V = DriverState;

    closed spec fn view(&self) -> DriverState {
        DriverState { phase: self.phase, stdin_done: self.stdin_done }
    }
}

impl ExecDriver {
    /// Starts an execution: returns the driver and the `Exec` request to
    /// send, for the command whose descriptor, as JSON text, is
    /// `descriptor`.
    pub fn exec(descriptor: Bytes) -> (r: (Self, Message))
        requires
            REQUEST_OVERHEAD + bytes_view(descriptor).len() <= isize::MAX,
        ensures
            r.0@ == (DriverState { phase: DriverPhase::Starting, stdin_done: false }),
            r.1@ == request_message(RequestView::Exec(bytes_view(descriptor))),
    {
        let request = build_request_message(Request::Exec(descriptor));
        (ExecDriver { phase: DriverPhase::Starting, stdin_done: false }, request)
    }

    /// Where the driver stands.
    pub fn phase(&self) -> (p: DriverPhase)
        ensures
            p == self@.phase,
    {
        self.phase
    }

    /// Takes a reply of the agent and says what to do about it.
    pub fn on_reply(&mut self, reply: Message) -> (action: DriverAction)
        ensures
            action@ == action_after(old(self)@.phase, reply@),
            final(self)@ == (DriverState {
                phase: phase_after(old(self)@.phase, reply@),
                ..old(self)@
            }),
    {
        match self.phase {
            DriverPhase::Starting => match recv(reply) {
                Ok(None) => {
                    self.phase = DriverPhase::Running;
                    DriverAction::Send(build_request_message(Request::Watch))
                },
                Ok(Some(_)) => self.fail(ReplyError::UnexpectedEvent),
                Err(err) => self.fail(err),
            },
            DriverPhase::Running => match recv(reply) {
                Ok(None) => DriverAction::Wait,
                Ok(Some(Event::Cancelled)) => DriverAction::Send(
                    build_request_message(Request::Watch),
                ),
                Ok(Some(Event::Stdout(data))) => DriverAction::Stdout {
                    data,
                    then: build_request_message(Request::Watch),
                },
                Ok(Some(Event::Stderr(data))) => DriverAction::Stderr {
                    data,
                    then: build_request_message(Request::Watch),
                },
                Ok(Some(Event::Exited(code))) => {
                    self.phase = DriverPhase::Exited(code);
                    DriverAction::Exit(code)
                },
                Err(err) => self.fail(err),
            },
            DriverPhase::Exited(code) => DriverAction::Exit(code),
            DriverPhase::Failed(err) => DriverAction::Fail(err),
        }
    }

    fn fail(&mut self, err: ReplyError) -> (action: DriverAction)
        ensures
            action@ == DriverActionView::Fail(err),
            final(self)@ == (DriverState { phase: DriverPhase::Failed(err), ..old(self)@ }),
    {
        self.phase = DriverPhase::Failed(err);
        DriverAction::Fail(err)
    }

    /// Takes what a read of the local standard input returned and gives the
    /// `Stdin` request that passes it on. An empty read is the end of the
    /// input: it is passed on as well, once, and nothing after it. Nothing
    /// is passed on either unless the child runs.
    pub fn on_stdin(&mut self, chunk: Bytes) -> (request: Option<Message>)
        requires
            REQUEST_OVERHEAD + bytes_view(chunk).len() <= isize::MAX,
        ensures
            old(self)@.phase == DriverPhase::Running && !old(self)@.stdin_done ==> {
                &&& request matches Some(m)
                &&& m@ == request_message(RequestView::Stdin(bytes_view(chunk)))
                &&& final(self)@ == (DriverState {
                    stdin_done: bytes_view(chunk).len() == 0,
                    ..old(self)@
                })
            },
            !(old(self)@.phase == DriverPhase::Running && !old(self)@.stdin_done) ==> {
                &&& request is None
                &&& final(self)@ == old(self)@
            },
    {
        if !matches!(self.phase, DriverPhase::Running) || self.stdin_done {
            return None;
        }
        if chunk.is_empty() {
            self.stdin_done = true;
        }
        Some(build_request_message(Request::Stdin(chunk)))
    }
}

} // verus!
