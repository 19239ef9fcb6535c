//! One client connection of the agent: every request that comes in takes a
//! ticket and is sent on its way, and the replies leave in the order of the
//! tickets.
//!
//! The connection reads and writes nothing itself. Whoever runs it hands it
//! each message that was decoded, carries out what `Dispatch` asks for,
//! reports what came of it, and writes the replies that `next_reply` hands
//! out.

use crate::buffer::bytes_view;
use crate::reply_queue::{QueueView, ReplyQueue, SlotView};
use crate::router::{
    route, Route, RouteView, Router, RouterView, UpstreamOutcome, UpstreamOutcomeView,
};
use crate::ssh_agent::{failure_view, Message, MessageView};
use bytes::Bytes;
use vstd::prelude::*;

verus! {

/// What is to be done with a request that has just come in.
#[derive(Debug)]
pub enum Dispatch {
    /// Nothing: the request was refused, and its reply is in the queue.
    Answered,
    /// Hand `payload` to the session; its reply is owed under `ticket`.
    Session { payload: Bytes, ticket: u64 },
    /// Send `request` to the upstream agent and report what came back with
    /// `relay`, under `ticket`.
    Upstream { request: Message, ticket: u64 },
    /// No ticket is left: the connection cannot go on.
    Exhausted,
}

/// What a `Dispatch` is, as plain values.
pub enum DispatchView {
    Answered,
    Session { payload: Seq<u8>, ticket: u64 },
    Upstream { request: MessageView, ticket: u64 },
    Exhausted,
}

impl View for Dispatch {
    type V = DispatchView;

    open spec fn view(&self) -> DispatchView {
        match self {
            Dispatch::Answered => DispatchView::Answered,
            Dispatch::Session { payload, ticket } => DispatchView::Session {
                payload: bytes_view(*payload),
                ticket: *ticket,
            },
            Dispatch::Upstream { request, ticket } => DispatchView::Upstream {
                request: request@,
                ticket: *ticket,
            },
            Dispatch::Exhausted => DispatchView::Exhausted,
        }
    }
}

/// A connection, as plain values.
pub struct ConnectionView {
    pub queue: QueueView,
    pub router: RouterView,
    /// Whether the connection is being closed: what is still owed goes out,
    /// and nothing new is taken on.
    pub closed: bool,
}

/// Where a request that comes in on `c` goes. A connection that is being
/// closed refuses everything.
pub open spec fn route_on(c: ConnectionView, request: MessageView) -> RouteView {
    if c.closed {
        RouteView::Reply(failure_view())
    } else {
        route(request, c.router.upstream, c.router.session)
    }
}

/// What is to be done with `request`, coming in on `c`.
pub open spec fn dispatch(c: ConnectionView, request: MessageView) -> DispatchView {
    let ticket = c.queue.fates.len() as u64;
    if c.queue.fates.len() >= u64::MAX {
        DispatchView::Exhausted
    } else {
        match route_on(c, request) {
            RouteView::Reply(_) => DispatchView::Answered,
            RouteView::Session(payload) => DispatchView::Session { payload, ticket },
            RouteView::Upstream(request) => DispatchView::Upstream { request, ticket },
        }
    }
}

/// The connection after `request` has come in: it has taken the next
/// ticket, and where it was refused the ticket is resolved already.
pub open spec fn received(c: ConnectionView, request: MessageView) -> ConnectionView {
    let ticket = c.queue.fates.len() as u64;
    if c.queue.fates.len() >= u64::MAX {
        c
    } else {
        match route_on(c, request) {
            RouteView::Reply(reply) => ConnectionView {
                queue: c.queue.opened().resolved(ticket, SlotView::Filled(reply)),
                ..c
            },
            _ => ConnectionView { queue: c.queue.opened(), ..c },
        }
    }
}

/// One client connection of the agent.
pub struct Connection {
    queue: ReplyQueue,
    router: Router,
    closed: bool,
}

impl View for Connection {
    type V = ConnectionView;

    closed spec fn view(&self) -> ConnectionView {
        ConnectionView { queue: self.queue@, router: self.router@, closed: self.closed }
    }
}

impl Connection {
    /// What holds of every connection.
    pub closed spec fn wf(&self) -> bool {
        self.queue.wf()
    }

    /// A connection, seen as plain values, has a reply queue that can come
    /// about.
    pub proof fn lemma_view_wf(self)
        requires
            self.wf(),
        ensures
            self@.queue.wf(),
    {
        self.queue.lemma_view_wf();
    }

    /// A new connection, with or without an upstream agent. Nothing has come
    /// in yet, and its session takes requests.
    pub fn new(upstream: bool) -> (c: Self)
        ensures
            c.wf(),
            c@ == (ConnectionView {
                queue: QueueView { fates: Seq::empty(), sent: 0 },
                router: RouterView { upstream, session: true },
                closed: false,
            }),
    {
        Connection { queue: ReplyQueue::new(), router: Router::new(upstream), closed: false }
    }

    /// Takes a request that has just been decoded: gives it the next ticket
    /// and decides where it goes. A request that is refused is answered on
    /// the spot.
    pub fn receive(&mut self, request: Message) -> (d: Dispatch)
        requires
            old(self).wf(),
        ensures
            final(self).wf(),
            d@ == dispatch(old(self)@, request@),
            final(self)@ == received(old(self)@, request@),
    {
        let ticket = match self.queue.open() {
            Some(ticket) => ticket,
            None => {
                return Dispatch::Exhausted;
            },
        };
        if self.closed {
            self.queue.fill(ticket, Message::failure());
            return Dispatch::Answered;
        }
        match self.router.handle_request(request) {
            Route::Reply(reply) => {
                self.queue.fill(ticket, reply);
                Dispatch::Answered
            },
            Route::Session(payload) => Dispatch::Session { payload, ticket },
            Route::Upstream(request) => Dispatch::Upstream { request, ticket },
        }
    }

    /// Takes the reply of the session to the request with `ticket`. Returns
    /// whether the ticket could still be resolved; if not, nothing changes.
    pub fn reply(&mut self, ticket: u64, reply: Message) -> (accepted: bool)
        requires
            old(self).wf(),
        ensures
            final(self).wf(),
            accepted == old(self)@.queue.accepts(ticket),
            final(self)@ == (ConnectionView {
                queue: old(self)@.queue.resolved(ticket, SlotView::Filled(reply@)),
                ..old(self)@
            }),
    {
        self.queue.fill(ticket, reply)
    }

    /// Notes that the request with `ticket` will get no reply from its
    /// handler: a plain failure goes out in its place. Returns whether the
    /// ticket could still be resolved; if not, nothing changes.
    pub fn abandon(&mut self, ticket: u64) -> (accepted: bool)
        requires
            old(self).wf(),
        ensures
            final(self).wf(),
            accepted == old(self)@.queue.accepts(ticket),
            final(self)@ == (ConnectionView {
                queue: old(self)@.queue.resolved(ticket, SlotView::Dropped),
                ..old(self)@
            }),
    {
        self.queue.abandon(ticket)
    }

    /// Takes what came of the request with `ticket` that went to the
    /// upstream agent. Its answer is relayed as it came. Where the upstream
    /// agent is gone, the client gets a plain failure and the connection is
    /// closed.
    pub fn relay(&mut self, ticket: u64, outcome: UpstreamOutcome)
        requires
            old(self).wf(),
        ensures
            final(self).wf(),
            match outcome@ {
                UpstreamOutcomeView::Reply(reply) => final(self)@ == (ConnectionView {
                    queue: old(self)@.queue.resolved(ticket, SlotView::Filled(reply)),
                    ..old(self)@
                }),
                UpstreamOutcomeView::Gone => final(self)@ == (ConnectionView {
                    queue: old(self)@.queue.resolved(
                        ticket,
                        SlotView::Filled(failure_view()),
                    ).given_up(),
                    router: RouterView { upstream: false, ..old(self)@.router },
                    closed: true,
                }),
            },
    {
        let relayed = self.router.relay(outcome);
        self.queue.fill(ticket, relayed.reply);
        if !relayed.alive {
            self.queue.abandon_all();
            self.closed = true;
        }
    }

    /// Closes the connection: every request still being handled is given
    /// up, and whatever comes in from now on is refused. What is owed still
    /// goes out.
    pub fn close(&mut self)
        requires
            old(self).wf(),
        ensures
            final(self).wf(),
            final(self)@ == (ConnectionView {
                queue: old(self)@.queue.given_up(),
                closed: true,
                ..old(self)@
            }),
    {
        self.queue.abandon_all();
        self.closed = true;
    }

    /// Whether the connection is being closed.
    pub fn is_closed(&self) -> (closed: bool)
        ensures
            closed == self@.closed,
    {
        self.closed
    }

    /// Notes that the session has ended: requests for it are refused from
    /// now on.
    pub fn session_closed(&mut self)
        requires
            old(self).wf(),
        ensures
            final(self).wf(),
            final(self)@ == (ConnectionView {
                router: RouterView { session: false, ..old(self)@.router },
                ..old(self)@
            }),
    {
        self.router.session_closed();
    }

    /// Hands out the next reply to write, if the oldest request without a
    /// written reply has been answered.
    pub fn next_reply(&mut self) -> (reply: Option<Message>)
        requires
            old(self).wf(),
        ensures
            final(self).wf(),
            match old(self)@.queue.next_reply() {
                Some(next) => reply matches Some(m) && m@ == next,
                None => reply is None,
            },
            final(self)@ == (ConnectionView { queue: old(self)@.queue.popped(), ..old(self)@ }),
    {
        self.queue.pop()
    }

    /// Whether the connection is done: it is being closed, and every request
    /// that came in has had its reply written.
    pub fn is_finished(&self) -> (finished: bool)
        requires
            self.wf(),
        ensures
            finished == (self@.closed && self@.queue.sent == self@.queue.fates.len()),
    {
        self.closed && self.queue.is_empty()
    }

    /// Whether every request that came in has had its reply written.
    pub fn is_drained(&self) -> (drained: bool)
        requires
            self.wf(),
        ensures
            drained == (self@.queue.sent == self@.queue.fates.len()),
    {
        self.queue.is_empty()
    }
}

} // verus!
