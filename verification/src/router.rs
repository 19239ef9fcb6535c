//! Where each request of a client goes: to the session, to the upstream
//! agent, or nowhere.

use crate::buffer::bytes_view;
use crate::rpc::EXTENSION_TYPE;
use crate::ssh_agent::{
    failure_view, parse_extension, Extension, Message, MessageView, SSH_AGENTC_EXTENSION,
};
use bytes::Bytes;
use std::ops::Deref;
use vstd::prelude::*;

verus! {

/// What is to be done with a request.
#[derive(Debug)]
pub enum Route {
    /// It is addressed to the session: hand it the contents of the
    /// envelope.
    Session(Bytes),
    /// It is none of ours: send all of it to the upstream agent and relay
    /// what comes back.
    Upstream(Message),
    /// It is answered at once, with this reply.
    Reply(Message),
}

/// What a `Route` is, as plain values.
pub enum RouteView {
    Session(Seq<u8>),
    Upstream(MessageView),
    Reply(MessageView),
}

impl View for Route {
    type V = RouteView;

    open spec fn view(&self) -> RouteView {
        match self {
            Route::Session(payload) => RouteView::Session(bytes_view(*payload)),
            Route::Upstream(request) => RouteView::Upstream(request@),
            Route::Reply(reply) => RouteView::Reply(reply@),
        }
    }
}

/// Whether a request is an extension request addressed to `EXTENSION_TYPE`.
pub open spec fn is_ours(request: MessageView) -> bool {
    &&& request.message_type == SSH_AGENTC_EXTENSION
    &&& parse_extension(request.contents) matches Ok(ext)
    &&& ext.extension_type == EXTENSION_TYPE@
}

/// Where a request goes.
///
/// An extension request goes to the session if it is ours and the session
/// still takes requests; every other extension request is refused. Anything
/// else is for the upstream agent, and is refused where there is none.
pub open spec fn route(request: MessageView, upstream: bool, session: bool) -> RouteView {
    if request.message_type == SSH_AGENTC_EXTENSION {
        if is_ours(request) && session {
            RouteView::Session(parse_extension(request.contents)->Ok_0.contents)
        } else {
            RouteView::Reply(failure_view())
        }
    } else if upstream {
        RouteView::Upstream(request)
    } else {
        RouteView::Reply(failure_view())
    }
}

/// An extension request that is not ours never reaches the session, and is
/// not passed on either: it is refused with a plain failure, whether or not
/// there is an upstream agent.
pub proof fn lemma_foreign_extension_is_refused(request: MessageView, upstream: bool, session: bool)
    requires
        request.message_type == SSH_AGENTC_EXTENSION,
        !is_ours(request),
    ensures
        route(request, upstream, session) == RouteView::Reply(failure_view()),
{
}

/// The router interprets nothing but our extension: whatever is not an
/// extension request goes to the upstream agent as it came, and a request
/// that is ours never goes there.
pub proof fn lemma_pass_through_is_verbatim(request: MessageView, upstream: bool, session: bool)
    ensures
        request.message_type != SSH_AGENTC_EXTENSION && upstream ==> route(
            request,
            upstream,
            session,
        ) == RouteView::Upstream(request),
        route(request, upstream, session) is Upstream ==> !is_ours(request),
        route(request, upstream, session) is Session ==> is_ours(request),
{
}

/// What came of a request that was sent to the upstream agent.
#[derive(Debug)]
pub enum UpstreamOutcome {
    /// The upstream agent answered.
    Reply(Message),
    /// The upstream agent closed the connection, or the exchange failed.
    Gone,
}

/// What an `UpstreamOutcome` is, as plain values.
pub enum UpstreamOutcomeView {
    Reply(MessageView),
    Gone,
}

impl View for UpstreamOutcome {
    type V = UpstreamOutcomeView;

    open spec fn view(&self) -> UpstreamOutcomeView {
        match self {
            UpstreamOutcome::Reply(reply) => UpstreamOutcomeView::Reply(reply@),
            UpstreamOutcome::Gone => UpstreamOutcomeView::Gone,
        }
    }
}

/// The reply to a request that went upstream, and whether the connection
/// can go on.
#[derive(Debug)]
pub struct Relayed {
    pub reply: Message,
    pub alive: bool,
}

/// The router of one client connection.
#[derive(Debug)]
pub struct Router {
    upstream: bool,
    session: bool,
}

/// What a `Router` is, as plain values.
pub struct RouterView {
    /// Whether there is an upstream agent.
    pub upstream: bool,
    /// Whether the session still takes requests.
    pub session: bool,
}

impl View for Router {
    type V = RouterView;

    closed spec fn view(&self) -> RouterView {
        RouterView { upstream: self.upstream, session: self.session }
    }
}

impl Router {
    /// The router of a new connection, with or without an upstream agent.
    /// Its session takes requests.
    pub fn new(upstream: bool) -> (r: Self)
        ensures
            r@ == (RouterView { upstream, session: true }),
    {
        Router { upstream, session: true }
    }

    /// Notes that the session has ended: our requests are refused from now
    /// on.
    pub fn session_closed(&mut self)
        ensures
            final(self)@ == (RouterView { session: false, ..old(self)@ }),
    {
        self.session = false;
    }

    /// Decides where a request goes.
    pub fn handle_request(&self, request: Message) -> (r: Route)
        ensures
            r@ == route(request@, self@.upstream, self@.session),
    {
        if request.message_type == SSH_AGENTC_EXTENSION {
            let ext = match Extension::try_from(request.contents) {
                Ok(ext) => ext,
                Err(_) => {
                    return Route::Reply(Message::failure());
                },
            };
            if !same_bytes(ext.extension_type.deref(), EXTENSION_TYPE.as_slice()) {
                return Route::Reply(Message::failure());
            }
            if !self.session {
                return Route::Reply(Message::failure());
            }
            Route::Session(ext.contents)
        } else {
            self.forward_to_upstream(request)
        }
    }

    /// Decides what to do with a request that is not an extension request.
    pub fn forward_to_upstream(&self, request: Message) -> (r: Route)
        ensures
            r@ == if self@.upstream {
                RouteView::Upstream(request@)
            } else {
                RouteView::Reply(failure_view())
            },
    {
        if self.upstream {
            Route::Upstream(request)
        } else {
            Route::Reply(Message::failure())
        }
    }

    /// Decides what to reply to a request that went upstream. What the
    /// upstream agent answered is relayed as it came. Where it is gone the
    /// client gets a plain failure, and the connection is to be closed.
    pub fn relay(&mut self, outcome: UpstreamOutcome) -> (r: Relayed)
        ensures
            match outcome@ {
                UpstreamOutcomeView::Reply(reply) => r.reply@ == reply && r.alive && final(self)@
                    == old(self)@,
                UpstreamOutcomeView::Gone => r.reply@ == failure_view() && !r.alive && final(self)@
                    == (RouterView { upstream: false, ..old(self)@ }),
            },
    {
        match outcome {
            UpstreamOutcome::Reply(reply) => Relayed { reply, alive: true },
            UpstreamOutcome::Gone => {
                self.upstream = false;
                Relayed { reply: Message::failure(), alive: false }
            },
        }
    }
}

/// Whether two slices hold the same bytes.
fn same_bytes(a: &[u8], b: &[u8]) -> (same: bool)
    ensures
        same == (a@ == b@),
{
    if a.len() != b.len() {
        return false;
    }
    let mut i: usize = 0;
    while i < a.len()
        invariant
            a@.len() == b@.len(),
            i <= a@.len(),
            a@.subrange(0, i as int) == b@.subrange(0, i as int),
        decreases a@.len() - i,
    {
        if a[i] != b[i] {
            return false;
        }
        i = i + 1;
    }
    proof {
        assert(a@ =~= a@.subrange(0, i as int));
        assert(b@ =~= b@.subrange(0, i as int));
    }
    true
}

} // verus!
