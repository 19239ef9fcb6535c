//! The vocabulary of the remote-execution extension: the requests that a
//! client sends inside the extension envelope, and the events that come back
//! inside successful replies.

use crate::buffer::{
    be32, be32_value, bits_i32, bytes_view, get_i32, i32_bits, put_bytes, put_i32,
};
use crate::ssh_agent::{
    extension_bytes, Extension, ExtensionView, Message, MessageView, SSH_AGENTC_EXTENSION,
};
use bytes::BufMut;
use bytes::Bytes;
use bytes::BytesMut;
use std::ops::Deref;
use vstd::prelude::*;

verus! {

/// The name of the one extension that this library answers:
/// `ssh-rev-exec.1@koba789.com`, in ASCII.
pub const EXTENSION_TYPE: [u8; 26] = [
    115, 115, 104, 45, 114, 101, 118, 45, 101, 120, 101, 99, 46, 49, 64, 107, 111, 98, 97, 55, 56,
    57, 46, 99, 111, 109,
];

/// The bytes that a request message holds besides the payload of the
/// request: the length field of the envelope, the extension name, and the
/// code byte.
pub const REQUEST_OVERHEAD: usize = 31;

/// A code byte that names no variant.
#[derive(Debug, Clone, Copy, PartialEq, Eq, Structural)]
pub struct UnknownCode {
    pub number: u8,
}

/// The first byte of a request.
#[derive(Debug, Clone, Copy, PartialEq, Eq, Structural)]
pub enum OpCode {
    Exec,
    Stdin,
    Watch,
}

impl OpCode {
    /// The byte that stands for this code on the wire.
    pub open spec fn spec_code(self) -> u8 {
        match self {
            OpCode::Exec => 0,
            OpCode::Stdin => 1,
            OpCode::Watch => 2,
        }
    }

    /// The code that a byte stands for, if any.
    pub open spec fn of(number: u8) -> Option<OpCode> {
        if number == 0 {
            Some(OpCode::Exec)
        } else if number == 1 {
            Some(OpCode::Stdin)
        } else if number == 2 {
            Some(OpCode::Watch)
        } else {
            None
        }
    }

    /// The byte that stands for this code on the wire.
    #[verifier::when_used_as_spec(spec_code)]
    pub fn code(self) -> (c: u8)
        ensures
            c == self.spec_code(),
    {
        match self {
            OpCode::Exec => 0,
            OpCode::Stdin => 1,
            OpCode::Watch => 2,
        }
    }

    /// The code that a byte stands for.
    pub fn try_from(number: u8) -> (r: Result<OpCode, UnknownCode>)
        ensures
            match OpCode::of(number) {
                Some(op) => r == Ok::<OpCode, UnknownCode>(op),
                None => r == Err::<OpCode, UnknownCode>(UnknownCode { number }),
            },
    {
        match number {
            0 => Ok(OpCode::Exec),
            1 => Ok(OpCode::Stdin),
            2 => Ok(OpCode::Watch),
            _ => Err(UnknownCode { number }),
        }
    }
}

/// What a client asks of the session.
#[derive(Debug)]
pub enum Request {
    /// Start the child. The payload is the descriptor of the command, as the
    /// JSON text that travels on the wire.
    Exec(Bytes),
    /// Bytes for the child's standard input; none means end of input.
    Stdin(Bytes),
    /// Wait for the next event of the child.
    Watch,
}

/// What a `Request` is, as plain values.
pub enum RequestView {
    Exec(Seq<u8>),
    Stdin(Seq<u8>),
    Watch,
}

impl View for Request {
    type V = RequestView;

    open spec fn view(&self) -> RequestView {
        match self {
            Request::Exec(descriptor) => RequestView::Exec(bytes_view(*descriptor)),
            Request::Stdin(data) => RequestView::Stdin(bytes_view(*data)),
            Request::Watch => RequestView::Watch,
        }
    }
}

/// Why a payload is no request.
#[derive(Debug, Clone, Copy, PartialEq, Eq, Structural)]
pub enum RequestError {
    /// Not even a code byte.
    Empty,
    /// The code byte names no request.
    UnknownOpCode(u8),
}

/// A request on the wire: its code byte, then its payload.
pub open spec fn request_bytes(r: RequestView) -> Seq<u8> {
    match r {
        RequestView::Exec(descriptor) => seq![OpCode::Exec.code()] + descriptor,
        RequestView::Stdin(data) => seq![OpCode::Stdin.code()] + data,
        RequestView::Watch => seq![OpCode::Watch.code()],
    }
}

/// The request that a payload holds, or why it holds none. What follows the
/// code byte of a `Watch` is ignored.
pub open spec fn parse_request(s: Seq<u8>) -> Result<RequestView, RequestError> {
    if s.len() == 0 {
        Err(RequestError::Empty)
    } else {
        match OpCode::of(s[0]) {
            None => Err(RequestError::UnknownOpCode(s[0])),
            Some(OpCode::Exec) => Ok(RequestView::Exec(s.skip(1))),
            Some(OpCode::Stdin) => Ok(RequestView::Stdin(s.skip(1))),
            Some(OpCode::Watch) => Ok(RequestView::Watch),
        }
    }
}

/// A request that is parsed gives back the request that was written.
pub proof fn lemma_request_round_trip(r: RequestView)
    ensures
        parse_request(request_bytes(r)) == Ok::<RequestView, RequestError>(r),
{
    match r {
        RequestView::Exec(descriptor) => {
            assert(request_bytes(r).skip(1) =~= descriptor);
        },
        RequestView::Stdin(data) => {
            assert(request_bytes(r).skip(1) =~= data);
        },
        RequestView::Watch => {},
    }
}

impl Request {
    /// The request as it travels inside the extension envelope.
    pub fn into_bytes(self) -> (b: Bytes)
        requires
            self@ matches RequestView::Exec(d) ==> 1 + d.len() <= isize::MAX,
            self@ matches RequestView::Stdin(d) ==> 1 + d.len() <= isize::MAX,
        ensures
            bytes_view(b) == request_bytes(self@),
    {
        match self {
            Request::Exec(descriptor) => Self::exec(descriptor.deref()),
            Request::Stdin(stdin) => Self::stdin(stdin),
            Request::Watch => Self::watch(),
        }
    }

    /// The payload of an `Exec` request for a command whose descriptor, as
    /// JSON text, is `descriptor`.
    pub fn exec(descriptor: &[u8]) -> (b: Bytes)
        requires
            1 + descriptor@.len() <= isize::MAX,
        ensures
            bytes_view(b) == request_bytes(RequestView::Exec(descriptor@)),
    {
        let code = [OpCode::Exec.code()];
        let mut bytes = BytesMut::from(code.as_slice());
        bytes.put_slice(descriptor);
        bytes.freeze()
    }

    /// The payload of a `Stdin` request that carries `stdin`.
    pub fn stdin(stdin: Bytes) -> (b: Bytes)
        requires
            1 + bytes_view(stdin).len() <= isize::MAX,
        ensures
            bytes_view(b) == request_bytes(RequestView::Stdin(bytes_view(stdin))),
    {
        let code = [OpCode::Stdin.code()];
        let mut bytes = BytesMut::from(code.as_slice());
        put_bytes(&mut bytes, stdin);
        bytes.freeze()
    }

    /// The payload of a `Watch` request.
    pub fn watch() -> (b: Bytes)
        ensures
            bytes_view(b) == request_bytes(RequestView::Watch),
    {
        let code = [OpCode::Watch.code()];
        BytesMut::from(code.as_slice()).freeze()
    }

    /// Reads a request from the contents of an extension envelope.
    pub fn try_from(bytes: Bytes) -> (r: Result<Self, RequestError>)
        ensures
            match parse_request(bytes_view(bytes)) {
                Ok(request) => r matches Ok(got) && got@ == request,
                Err(err) => r matches Err(got) && got == err,
            },
    {
        let mut bytes = bytes;
        if bytes.is_empty() {
            return Err(RequestError::Empty);
        }
        let code = bytes.split_to(1);
        match OpCode::try_from(code[0]) {
            Err(unknown) => Err(RequestError::UnknownOpCode(unknown.number)),
            Ok(OpCode::Exec) => Ok(Request::Exec(bytes)),
            Ok(OpCode::Stdin) => Ok(Request::Stdin(bytes)),
            Ok(OpCode::Watch) => Ok(Request::Watch),
        }
    }
}

/// Wraps a request into the agent message that carries it: an extension
/// request addressed to `EXTENSION_TYPE`.
pub fn build_request_message(req: Request) -> (m: Message)
    requires
        req@ matches RequestView::Exec(d) ==> REQUEST_OVERHEAD + d.len() <= isize::MAX,
        req@ matches RequestView::Stdin(d) ==> REQUEST_OVERHEAD + d.len() <= isize::MAX,
    ensures
        m@ == request_message(req@),
{
    let req_bytes = req.into_bytes();
    let ext = Extension {
        extension_type: BytesMut::from(EXTENSION_TYPE.as_slice()).freeze(),
        contents: req_bytes,
    };
    Message { message_type: SSH_AGENTC_EXTENSION, contents: ext.into_bytes() }
}

/// The agent message that carries a request.
pub open spec fn request_message(r: RequestView) -> MessageView {
    MessageView {
        message_type: SSH_AGENTC_EXTENSION,
        contents: extension_bytes(
            ExtensionView { extension_type: EXTENSION_TYPE@, contents: request_bytes(r) },
        ),
    }
}

/// The first byte of an event.
#[derive(Debug, Clone, Copy, PartialEq, Eq, Structural)]
pub enum EventCode {
    Cancelled,
    Stdout,
    Stderr,
    Exited,
}

impl EventCode {
    /// The byte that stands for this code on the wire.
    pub open spec fn spec_code(self) -> u8 {
        match self {
            EventCode::Cancelled => 0,
            EventCode::Stdout => 1,
            EventCode::Stderr => 2,
            EventCode::Exited => 3,
        }
    }

    /// The code that a byte stands for, if any.
    pub open spec fn of(number: u8) -> Option<EventCode> {
        if number == 0 {
            Some(EventCode::Cancelled)
        } else if number == 1 {
            Some(EventCode::Stdout)
        } else if number == 2 {
            Some(EventCode::Stderr)
        } else if number == 3 {
            Some(EventCode::Exited)
        } else {
            None
        }
    }

    /// The byte that stands for this code on the wire.
    #[verifier::when_used_as_spec(spec_code)]
    pub fn code(self) -> (c: u8)
        ensures
            c == self.spec_code(),
    {
        match self {
            EventCode::Cancelled => 0,
            EventCode::Stdout => 1,
            EventCode::Stderr => 2,
            EventCode::Exited => 3,
        }
    }

    /// The code that a byte stands for.
    pub fn try_from(number: u8) -> (r: Result<EventCode, UnknownCode>)
        ensures
            match EventCode::of(number) {
                Some(code) => r == Ok::<EventCode, UnknownCode>(code),
                None => r == Err::<EventCode, UnknownCode>(UnknownCode { number }),
            },
    {
        match number {
            0 => Ok(EventCode::Cancelled),
            1 => Ok(EventCode::Stdout),
            2 => Ok(EventCode::Stderr),
            3 => Ok(EventCode::Exited),
            _ => Err(UnknownCode { number }),
        }
    }
}

/// What the session reports in answer to a `Watch`.
#[derive(Debug)]
pub enum Event {
    /// Another request came in before the child did anything: watch again.
    Cancelled,
    /// What the child wrote to its standard output; nothing means that it
    /// closed it.
    Stdout(Bytes),
    /// What the child wrote to its standard error; nothing means that it
    /// closed it.
    Stderr(Bytes),
    /// The child has ended, with this exit code.
    Exited(i32),
}

/// What an `Event` is, as plain values.
pub enum EventView {
    Cancelled,
    Stdout(Seq<u8>),
    Stderr(Seq<u8>),
    Exited(i32),
}

impl View for Event {
    type V = EventView;

    open spec fn view(&self) -> EventView {
        match self {
            Event::Cancelled => EventView::Cancelled,
            Event::Stdout(data) => EventView::Stdout(bytes_view(*data)),
            Event::Stderr(data) => EventView::Stderr(bytes_view(*data)),
            Event::Exited(status) => EventView::Exited(*status),
        }
    }
}

/// Why a payload is no event.
#[derive(Debug, Clone, Copy, PartialEq, Eq, Structural)]
pub enum EventError {
    /// Not even a code byte.
    Empty,
    /// The code byte names no event.
    UnknownEventCode(u8),
    /// An `Exited` event with fewer than four bytes of exit code.
    MalformedExited,
}

/// An event on the wire: its code byte, then its payload. The exit code
/// travels as four big-endian bytes in two's complement.
pub open spec fn event_bytes(e: EventView) -> Seq<u8> {
    match e {
        EventView::Cancelled => seq![EventCode::Cancelled.code()],
        EventView::Stdout(data) => seq![EventCode::Stdout.code()] + data,
        EventView::Stderr(data) => seq![EventCode::Stderr.code()] + data,
        EventView::Exited(status) => seq![EventCode::Exited.code()] + be32(i32_bits(status)),
    }
}

/// The event that a payload holds, or why it holds none. What follows the
/// code byte of a `Cancelled`, or the exit code of an `Exited`, is ignored.
pub open spec fn parse_event(s: Seq<u8>) -> Result<EventView, EventError> {
    if s.len() == 0 {
        Err(EventError::Empty)
    } else {
        match EventCode::of(s[0]) {
            None => Err(EventError::UnknownEventCode(s[0])),
            Some(EventCode::Cancelled) => Ok(EventView::Cancelled),
            Some(EventCode::Stdout) => Ok(EventView::Stdout(s.skip(1))),
            Some(EventCode::Stderr) => Ok(EventView::Stderr(s.skip(1))),
            Some(EventCode::Exited) => if s.len() < 5 {
                Err(EventError::MalformedExited)
            } else {
                Ok(EventView::Exited(bits_i32(be32_value(s.skip(1)))))
            },
        }
    }
}

/// An event that is parsed gives back the event that was written.
pub proof fn lemma_event_round_trip(e: EventView)
    ensures
        parse_event(event_bytes(e)) == Ok::<EventView, EventError>(e),
{
    match e {
        EventView::Cancelled => {},
        EventView::Stdout(data) => {
            assert(event_bytes(e).skip(1) =~= data);
        },
        EventView::Stderr(data) => {
            assert(event_bytes(e).skip(1) =~= data);
        },
        EventView::Exited(status) => {
            crate::buffer::lemma_be32_value_of_be32(i32_bits(status));
            crate::buffer::lemma_i32_bits_inverse(status, 0);
        },
    }
}

impl Event {
    /// The event as it travels inside a successful reply.
    pub fn into_bytes(self) -> (b: Bytes)
        requires
            self@ matches EventView::Stdout(d) ==> 1 + d.len() <= isize::MAX,
            self@ matches EventView::Stderr(d) ==> 1 + d.len() <= isize::MAX,
        ensures
            bytes_view(b) == event_bytes(self@),
    {
        match self {
            Event::Cancelled => Self::cancelled(),
            Event::Stdout(stdout) => Self::stdout(stdout.deref()),
            Event::Stderr(stderr) => Self::stderr(stderr.deref()),
            Event::Exited(status) => Self::exited(status),
        }
    }

    /// The payload of a `Cancelled` event.
    pub fn cancelled() -> (b: Bytes)
        ensures
            bytes_view(b) == event_bytes(EventView::Cancelled),
    {
        let code = [EventCode::Cancelled.code()];
        BytesMut::from(code.as_slice()).freeze()
    }

    /// The payload of a `Stdout` event that carries `stdout`.
    pub fn stdout(stdout: &[u8]) -> (b: Bytes)
        requires
            1 + stdout@.len() <= isize::MAX,
        ensures
            bytes_view(b) == event_bytes(EventView::Stdout(stdout@)),
    {
        let code = [EventCode::Stdout.code()];
        let mut bytes = BytesMut::from(code.as_slice());
        bytes.put_slice(stdout);
        bytes.freeze()
    }

    /// The payload of a `Stderr` event that carries `stderr`.
    pub fn stderr(stderr: &[u8]) -> (b: Bytes)
        requires
            1 + stderr@.len() <= isize::MAX,
        ensures
            bytes_view(b) == event_bytes(EventView::Stderr(stderr@)),
    {
        let code = [EventCode::Stderr.code()];
        let mut bytes = BytesMut::from(code.as_slice());
        bytes.put_slice(stderr);
        bytes.freeze()
    }

    /// The payload of an `Exited` event with exit code `status`.
    pub fn exited(status: i32) -> (b: Bytes)
        ensures
            bytes_view(b) == event_bytes(EventView::Exited(status)),
    {
        let code = [EventCode::Exited.code()];
        let mut bytes = BytesMut::from(code.as_slice());
        put_i32(&mut bytes, status);
        bytes.freeze()
    }

    /// Reads an event from the contents of a successful reply.
    pub fn try_from(bytes: Bytes) -> (r: Result<Self, EventError>)
        ensures
            match parse_event(bytes_view(bytes)) {
                Ok(event) => r matches Ok(got) && got@ == event,
                Err(err) => r matches Err(got) && got == err,
            },
    {
        let mut bytes = bytes;
        if bytes.is_empty() {
            return Err(EventError::Empty);
        }
        let code = bytes.split_to(1);
        match EventCode::try_from(code[0]) {
            Err(unknown) => Err(EventError::UnknownEventCode(unknown.number)),
            Ok(EventCode::Cancelled) => Ok(Event::Cancelled),
            Ok(EventCode::Stdout) => Ok(Event::Stdout(bytes)),
            Ok(EventCode::Stderr) => Ok(Event::Stderr(bytes)),
            Ok(EventCode::Exited) => {
                if bytes.len() < 4 {
                    return Err(EventError::MalformedExited);
                }
                Ok(Event::Exited(get_i32(&mut bytes)))
            },
        }
    }
}

} // verus!
