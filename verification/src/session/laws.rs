//! What holds of every session, whatever it is told.

use crate::rpc::{parse_request, EventView, RequestError, RequestView};
use crate::session::{
    ended_state, event_reply, session_step, NextView, Outcome, Pending, Phase, ReplyView,
    SessionEventView, SessionState, StepView,
};
use crate::ssh_agent::{extension_failure_view, success_view};
use vstd::multiset::Multiset;
use vstd::prelude::*;

verus! {

impl SessionState {
    /// The states that a session can be in.
    pub open spec fn wf(self) -> bool {
        match self.phase {
            Phase::Idle => {
                &&& self.pending == Pending::Nothing || self.pending is Spawn
                &&& !self.stdin_open && !self.stdout_open && !self.stderr_open
                &&& self.peeked is None
            },
            Phase::Running => {
                &&& !(self.pending is Spawn)
                &&& self.pending is WriteStdin || self.pending is CloseStdin ==> self.stdin_open
                &&& self.peeked is Some ==> self.pending == Pending::Nothing
            },
            Phase::Finished => self == ended_state(Phase::Finished),
            Phase::Failed => self == ended_state(Phase::Failed),
        }
    }

    /// Whether the session can be handed the next request: its child runs,
    /// nothing is being served and nothing waits in the peek slot.
    pub open spec fn ready(self) -> bool {
        self.phase == Phase::Running && self.pending == Pending::Nothing && self.peeked is None
    }
}

/// The state of a session after a run of events.
pub open spec fn run(s: SessionState, events: Seq<SessionEventView>) -> SessionState
    decreases events.len(),
{
    if events.len() == 0 {
        s
    } else {
        session_step(run(s, events.drop_last()), events.last()).state
    }
}

/// Whatever happens, a session stays in one of the states it can be in.
pub proof fn lemma_step_keeps_wf(s: SessionState, e: SessionEventView)
    requires
        s.wf(),
    ensures
        session_step(s, e).state.wf(),
{
}

/// A session never goes back: once the child was started it is not idle
/// again, and once it has ended it stays ended.
pub proof fn lemma_step_never_goes_back(s: SessionState, e: SessionEventView)
    requires
        s.wf(),
    ensures
        s.phase != Phase::Idle ==> session_step(s, e).state.phase != Phase::Idle,
        s.phase == Phase::Finished ==> session_step(s, e).state.phase != Phase::Running,
        s.phase == Phase::Failed ==> session_step(s, e).state.phase == Phase::Failed,
{
}

/// At most one `Exec` is honoured. Only an idle session asks for a child to
/// be started, and once one was started the session is never idle again: so
/// whatever comes afterwards, no second child is asked for.
pub proof fn lemma_exec_is_honoured_once(
    s: SessionState,
    events: Seq<SessionEventView>,
    e: SessionEventView,
)
    requires
        s.wf(),
        s.phase != Phase::Idle,
    ensures
        !(session_step(run(s, events), e).step.next is Spawn),
{
    lemma_run_never_goes_back(s, events);
}

/// A session that has left the idle phase stays out of it, and stays one of
/// the states it can be in.
pub proof fn lemma_run_never_goes_back(s: SessionState, events: Seq<SessionEventView>)
    requires
        s.wf(),
        s.phase != Phase::Idle,
    ensures
        run(s, events).wf(),
        run(s, events).phase != Phase::Idle,
    decreases events.len(),
{
    if events.len() > 0 {
        lemma_run_never_goes_back(s, events.drop_last());
        lemma_step_keeps_wf(run(s, events.drop_last()), events.last());
        lemma_step_never_goes_back(run(s, events.drop_last()), events.last());
    }
}

/// The ticket of the request that is being served, if any.
pub open spec fn serving(pending: Pending) -> Multiset<u64> {
    match pending {
        Pending::Nothing => Multiset::empty(),
        Pending::Spawn(ticket) => Multiset::singleton(ticket),
        Pending::WriteStdin(ticket) => Multiset::singleton(ticket),
        Pending::CloseStdin(ticket) => Multiset::singleton(ticket),
        Pending::Watch(ticket) => Multiset::singleton(ticket),
    }
}

/// The tickets of the requests that a session holds and has not answered:
/// the one being served and the one in the peek slot.
pub open spec fn owed(s: SessionState) -> Multiset<u64> {
    match s.peeked {
        Some((_, ticket)) => serving(s.pending).insert(ticket),
        None => serving(s.pending),
    }
}

/// The ticket of the request that an event brings in, if it brings one.
pub open spec fn arrived(e: SessionEventView) -> Multiset<u64> {
    match e {
        SessionEventView::Request { payload, ticket } => Multiset::singleton(ticket),
        SessionEventView::Interrupted { payload, ticket } => Multiset::singleton(ticket),
        _ => Multiset::empty(),
    }
}

/// The ticket that a step answers, if it answers one.
pub open spec fn answered(step: StepView) -> Multiset<u64> {
    match step.reply {
        Some(reply) => Multiset::singleton(reply.ticket),
        None => Multiset::empty(),
    }
}

/// Every request is answered once. A step answers only a request that the
/// session holds or that comes in with the event; and unless the session
/// breaks down, what it holds afterwards together with what it answered is
/// what it held before together with what came in: no request is dropped
/// and none is answered twice.
pub proof fn lemma_every_request_is_answered_once(s: SessionState, e: SessionEventView)
    requires
        s.wf(),
    ensures
        answered(session_step(s, e).step).subset_of(owed(s).add(arrived(e))),
        session_step(s, e).step.next != NextView::Fail ==> owed(session_step(s, e).state).add(
            answered(session_step(s, e).step),
        ) == owed(s).add(arrived(e)),
{
}

/// End of input is final. When a running session is handed a `Stdin`
/// request without data, it has the child's standard input closed and
/// answers with success. From then on the input stays closed whatever
/// happens, and as long as the child runs every later `Stdin` request is
/// answered with an extension failure and changes nothing, whether it comes
/// in as the next request or out of the peek slot.
pub proof fn lemma_stdin_eof_is_final(
    s: SessionState,
    eof: Seq<u8>,
    closing: u64,
    events: Seq<SessionEventView>,
    payload: Seq<u8>,
    ticket: u64,
)
    requires
        s.wf(),
        s.ready(),
        s.stdin_open,
        parse_request(eof) == Ok::<RequestView, RequestError>(
            RequestView::Stdin(Seq::empty()),
        ),
        parse_request(payload) matches Ok(RequestView::Stdin(_)),
    ensures
        ({
            let asked = session_step(s, SessionEventView::Request { payload: eof, ticket: closing });
            let closed = session_step(asked.state, SessionEventView::StdinDone { ok: true });
            let then = run(closed.state, events);
            let refused = StepView {
                reply: Some(ReplyView { ticket, message: extension_failure_view() }),
                next: NextView::Receive,
            };
            &&& asked.step == (StepView { reply: None, next: NextView::CloseStdin })
            &&& closed.step == (StepView {
                reply: Some(ReplyView { ticket: closing, message: success_view(Seq::empty()) }),
                next: NextView::Receive,
            })
            &&& !closed.state.stdin_open
            &&& !then.stdin_open
            &&& then.ready() ==> session_step(
                then,
                SessionEventView::Request { payload, ticket },
            ) == (Outcome { state: then, step: refused })
            &&& then.phase == Phase::Running && then.pending == Pending::Nothing && then.peeked
                == Some((payload, ticket)) ==> session_step(then, SessionEventView::Resume) == (
            Outcome { state: SessionState { peeked: None, ..then }, step: refused })
        }),
{
    let asked = session_step(s, SessionEventView::Request { payload: eof, ticket: closing });
    let closed = session_step(asked.state, SessionEventView::StdinDone { ok: true });
    lemma_step_keeps_wf(s, SessionEventView::Request { payload: eof, ticket: closing });
    lemma_step_keeps_wf(asked.state, SessionEventView::StdinDone { ok: true });
    lemma_stdin_stays_closed(closed.state, events);
}

/// A closed standard input is never opened again.
pub proof fn lemma_stdin_stays_closed(s: SessionState, events: Seq<SessionEventView>)
    requires
        s.wf(),
        s.phase != Phase::Idle,
        !s.stdin_open,
    ensures
        !run(s, events).stdin_open,
    decreases events.len(),
{
    if events.len() > 0 {
        lemma_stdin_stays_closed(s, events.drop_last());
        lemma_run_never_goes_back(s, events.drop_last());
    }
}

/// A `Watch` does not keep `Stdin` waiting. When a `Stdin` request comes in
/// while a `Watch` is being served and the child's standard input is open,
/// the `Watch` is answered with `Cancelled` at once, the request is served
/// next, and once its bytes are written (or the input is closed) it is
/// answered with success: no other reply comes between the two.
pub proof fn lemma_stdin_interrupts_watch(
    s: SessionState,
    watching: u64,
    payload: Seq<u8>,
    ticket: u64,
)
    requires
        s.phase == Phase::Running,
        s.pending == Pending::Watch(watching),
        s.peeked is None,
        s.stdin_open,
        parse_request(payload) matches Ok(RequestView::Stdin(_)),
    ensures
        ({
            let data = parse_request(payload)->Ok_0->Stdin_0;
            let cancelled = session_step(s, SessionEventView::Interrupted { payload, ticket });
            let served = session_step(cancelled.state, SessionEventView::Resume);
            let done = session_step(served.state, SessionEventView::StdinDone { ok: true });
            &&& cancelled.step == (StepView {
                reply: Some(
                    ReplyView { ticket: watching, message: event_reply(EventView::Cancelled) },
                ),
                next: NextView::Resume,
            })
            &&& served.step == (StepView {
                reply: None,
                next: if data.len() == 0 {
                    NextView::CloseStdin
                } else {
                    NextView::WriteStdin(data)
                },
            })
            &&& done.step == (StepView {
                reply: Some(ReplyView { ticket, message: success_view(Seq::empty()) }),
                next: NextView::Receive,
            })
            &&& done.state.ready()
        }),
{
}

} // verus!
