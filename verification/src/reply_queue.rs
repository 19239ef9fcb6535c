//! The order of replies on one connection.
//!
//! Requests are handled side by side and may finish in any order, but their
//! replies must go out in the order in which the requests came in. Each
//! request therefore takes a ticket when it arrives. Its handler resolves
//! the ticket whenever it is done, or abandons it; the writer only ever
//! takes the reply of the oldest ticket not yet written, and waits while
//! that one is unresolved.

use crate::ssh_agent::{failure_view, Message, MessageView};
use std::collections::VecDeque;
use vstd::prelude::*;

verus! {

/// What has become of a ticket.
#[derive(Debug)]
pub enum Slot {
    /// The request is still being handled.
    Pending,
    /// The handler gave this reply.
    Filled(Message),
    /// The handler gave up without a reply.
    Dropped,
}

/// What a `Slot` is, as plain values.
pub enum SlotView {
    Pending,
    Filled(MessageView),
    Dropped,
}

impl View for Slot {
    type V = SlotView;

    open spec fn view(&self) -> SlotView {
        match self {
            Slot::Pending => SlotView::Pending,
            Slot::Filled(reply) => SlotView::Filled(reply@),
            Slot::Dropped => SlotView::Dropped,
        }
    }
}

/// The reply that goes out for a resolved ticket: the one its handler gave,
/// or a plain failure where the handler gave up.
pub open spec fn reply_of(slot: SlotView) -> MessageView {
    match slot {
        SlotView::Filled(reply) => reply,
        _ => failure_view(),
    }
}

/// A reply queue, as plain values.
pub struct QueueView {
    /// What has become of each ticket ever taken; ticket `k` stands at
    /// index `k`.
    pub fates: Seq<SlotView>,
    /// How many replies have been written: those of the tickets below.
    pub sent: nat,
}

impl QueueView {
    /// The queues that can come about: every ticket whose reply was written
    /// had been resolved.
    pub open spec fn wf(self) -> bool {
        &&& self.sent <= self.fates.len()
        &&& forall|k: int| 0 <= k < self.sent ==> !(#[trigger] self.fates[k] is Pending)
    }

    /// Whether `ticket` can still be resolved: it was taken, is unresolved,
    /// and its reply is not yet written.
    pub open spec fn accepts(self, ticket: u64) -> bool {
        &&& self.sent <= ticket < self.fates.len()
        &&& self.fates[ticket as int] is Pending
    }

    /// The queue after one more ticket was taken.
    pub open spec fn opened(self) -> QueueView {
        QueueView { fates: self.fates.push(SlotView::Pending), ..self }
    }

    /// The queue after `ticket` was resolved to `fate`, if it could be.
    pub open spec fn resolved(self, ticket: u64, fate: SlotView) -> QueueView {
        if self.accepts(ticket) {
            QueueView { fates: self.fates.update(ticket as int, fate), ..self }
        } else {
            self
        }
    }

    /// The queue after every unresolved ticket was given up.
    pub open spec fn given_up(self) -> QueueView {
        QueueView {
            fates: Seq::new(
                self.fates.len(),
                |k: int|
                    if self.fates[k] is Pending {
                        SlotView::Dropped
                    } else {
                        self.fates[k]
                    },
            ),
            ..self
        }
    }

    /// The reply that can be written now, if the oldest unwritten ticket is
    /// resolved.
    pub open spec fn next_reply(self) -> Option<MessageView> {
        if self.sent < self.fates.len() && !(self.fates[self.sent as int] is Pending) {
            Some(reply_of(self.fates[self.sent as int]))
        } else {
            None
        }
    }

    /// The queue after the reply that could be written was taken.
    pub open spec fn popped(self) -> QueueView {
        if self.next_reply() is Some {
            QueueView { sent: self.sent + 1, ..self }
        } else {
            self
        }
    }
}

/// The replies of one connection, kept in the order of their requests.
pub struct ReplyQueue {
    /// The tickets whose reply is not yet written, oldest first.
    slots: VecDeque<Slot>,
    /// The number of replies written, which is the ticket of the first slot.
    sent: u64,
    /// The fates of the tickets whose reply was written.
    done: Ghost<Seq<SlotView>>,
}

impl View for ReplyQueue {
    type V = QueueView;

    closed spec fn view(&self) -> QueueView {
        QueueView {
            fates: self.done@ + self.slots@.map_values(|slot: Slot| slot@),
            sent: self.sent as nat,
        }
    }
}

impl ReplyQueue {
    /// What holds of every queue: the tickets whose reply was written are
    /// counted, and each of them had been resolved.
    pub closed spec fn wf(&self) -> bool {
        &&& self.done@.len() == self.sent
        &&& self.sent + self.slots@.len() <= u64::MAX
        &&& forall|k: int| 0 <= k < self.done@.len() ==> !(#[trigger] self.done@[k] is Pending)
    }

    /// A queue, seen as plain values, is one that can come about.
    pub proof fn lemma_view_wf(self)
        requires
            self.wf(),
        ensures
            self@.wf(),
    {
    }

    /// A queue in which no ticket was taken yet.
    pub fn new() -> (q: Self)
        ensures
            q@ == (QueueView { fates: Seq::empty(), sent: 0 }),
            q.wf(),
    {
        ReplyQueue { slots: VecDeque::new(), sent: 0, done: Ghost(Seq::empty()) }
    }

    /// Takes the ticket for a request that has just come in. Tickets count
    /// up from zero; there is none left only when as many were taken as a
    /// `u64` can count.
    pub fn open(&mut self) -> (ticket: Option<u64>)
        requires
            old(self).wf(),
        ensures
            ticket is Some <==> old(self)@.fates.len() < u64::MAX,
            match ticket {
                Some(t) => t == old(self)@.fates.len() && final(self)@ == old(self)@.opened(),
                None => final(self)@ == old(self)@,
            },
            final(self).wf(),
    {
        let waiting = self.slots.len() as u64;
        if waiting >= u64::MAX - self.sent {
            return None;
        }
        self.slots.push_back(Slot::Pending);
        proof {
            assert(self@.fates =~= old(self)@.fates.push(SlotView::Pending));
        }
        Some(self.sent + waiting)
    }

    /// Resolves `ticket` with the reply of its handler. Returns whether the
    /// ticket could still be resolved; if not, nothing changes.
    pub fn fill(&mut self, ticket: u64, reply: Message) -> (accepted: bool)
        requires
            old(self).wf(),
        ensures
            accepted == old(self)@.accepts(ticket),
            final(self)@ == old(self)@.resolved(ticket, SlotView::Filled(reply@)),
            final(self).wf(),
    {
        self.resolve(ticket, Slot::Filled(reply))
    }

    /// Resolves `ticket` without a reply: its handler gave up. Returns
    /// whether the ticket could still be resolved; if not, nothing changes.
    pub fn abandon(&mut self, ticket: u64) -> (accepted: bool)
        requires
            old(self).wf(),
        ensures
            accepted == old(self)@.accepts(ticket),
            final(self)@ == old(self)@.resolved(ticket, SlotView::Dropped),
            final(self).wf(),
    {
        self.resolve(ticket, Slot::Dropped)
    }

    /// Gives up every ticket that is still unresolved: each will be
    /// answered with a plain failure. The writer can then write all that is
    /// left without waiting.
    pub fn abandon_all(&mut self)
        requires
            old(self).wf(),
        ensures
            final(self).wf(),
            final(self)@ == old(self)@.given_up(),
    {
        let n = self.slots.len();
        let mut i: usize = 0;
        while i < n
            invariant
                self.wf(),
                i <= n,
                n == self.slots@.len(),
                self.sent == old(self).sent,
                self.done@ == old(self).done@,
                old(self).slots@.len() == n,
                forall|k: int|
                    0 <= k < i ==> (#[trigger] self.slots@[k])@ == (if old(self).slots@[k]@
                        is Pending {
                        SlotView::Dropped
                    } else {
                        old(self).slots@[k]@
                    }),
                forall|k: int| i <= k < n ==> #[trigger] self.slots@[k] == old(self).slots@[k],
            decreases n - i,
        {
            if matches!(self.slots[i], Slot::Pending) {
                self.slots.remove(i);
                self.slots.insert(i, Slot::Dropped);
            }
            i = i + 1;
        }
        proof {
            assert(self@.fates =~= old(self)@.given_up().fates);
        }
    }

    fn resolve(&mut self, ticket: u64, fate: Slot) -> (accepted: bool)
        requires
            old(self).wf(),
            !(fate@ is Pending),
        ensures
            accepted == old(self)@.accepts(ticket),
            final(self)@ == old(self)@.resolved(ticket, fate@),
            final(self).wf(),
    {
        if ticket < self.sent {
            return false;
        }
        let offset = ticket - self.sent;
        if offset >= self.slots.len() as u64 {
            return false;
        }
        let at = offset as usize;
        if !matches!(self.slots[at], Slot::Pending) {
            return false;
        }
        self.slots.remove(at);
        self.slots.insert(at, fate);
        proof {
            assert(self@.fates =~= old(self)@.fates.update(ticket as int, fate@));
        }
        true
    }

    /// Takes the next reply to write: that of the oldest ticket not yet
    /// written, once it is resolved. An abandoned ticket is answered with a
    /// plain failure. While the oldest ticket is unresolved there is nothing
    /// to write, whatever has become of the younger ones.
    pub fn pop(&mut self) -> (reply: Option<Message>)
        requires
            old(self).wf(),
        ensures
            match old(self)@.next_reply() {
                Some(next) => reply matches Some(m) && m@ == next,
                None => reply is None,
            },
            final(self)@ == old(self)@.popped(),
            final(self).wf(),
    {
        if self.slots.len() == 0 {
            return None;
        }
        if matches!(self.slots[0], Slot::Pending) {
            return None;
        }
        let ghost before = self.slots@;
        let reply = match self.slots.pop_front() {
            Some(Slot::Filled(reply)) => reply,
            _ => Message::failure(),
        };
        proof {
            self.done@ = self.done@.push(before[0]@);
        }
        self.sent = self.sent + 1;
        proof {
            assert(self@.fates =~= old(self)@.fates);
        }
        Some(reply)
    }

    /// Whether every ticket taken so far has had its reply written.
    pub fn is_empty(&self) -> (empty: bool)
        requires
            self.wf(),
        ensures
            empty == (self@.sent == self@.fates.len()),
    {
        self.slots.len() == 0
    }
}

/// One thing done to a reply queue.
pub enum QueueOp {
    /// A request came in and took the next ticket.
    Open,
    /// The handler of the request with this ticket gave this reply.
    Fill(u64, MessageView),
    /// The handler of the request with this ticket gave up.
    Abandon(u64),
    /// Every handler still at work gave up.
    AbandonAll,
    /// The writer asked for the next reply to write.
    Pop,
}

/// A reply queue after some use, and the replies that the writer was given,
/// in the order in which it was given them.
pub struct QueueRun {
    pub queue: QueueView,
    pub written: Seq<MessageView>,
}

/// What comes of a new reply queue when `ops` are done to it in turn.
pub open spec fn run_queue(ops: Seq<QueueOp>) -> QueueRun
    decreases ops.len(),
{
    if ops.len() == 0 {
        QueueRun { queue: QueueView { fates: Seq::empty(), sent: 0 }, written: Seq::empty() }
    } else {
        let before = run_queue(ops.drop_last());
        match ops.last() {
            QueueOp::Open => QueueRun { queue: before.queue.opened(), ..before },
            QueueOp::Fill(ticket, reply) => QueueRun {
                queue: before.queue.resolved(ticket, SlotView::Filled(reply)),
                ..before
            },
            QueueOp::Abandon(ticket) => QueueRun {
                queue: before.queue.resolved(ticket, SlotView::Dropped),
                ..before
            },
            QueueOp::AbandonAll => QueueRun { queue: before.queue.given_up(), ..before },
            QueueOp::Pop => QueueRun {
                queue: before.queue.popped(),
                written: match before.queue.next_reply() {
                    Some(reply) => before.written.push(reply),
                    None => before.written,
                },
            },
        }
    }
}

/// Replies go out in the order in which their requests came in. Whatever
/// is done to a reply queue, and in whatever order the handlers finish, the
/// replies given to the writer are those of the tickets from zero upwards,
/// one each and none left out: the `k`-th reply written answers the `k`-th
/// request that came in, with what its handler gave, or with a plain
/// failure if its handler gave up.
pub proof fn lemma_replies_in_arrival_order(ops: Seq<QueueOp>)
    ensures
        run_queue(ops).queue.wf(),
        run_queue(ops).written.len() == run_queue(ops).queue.sent,
        forall|k: int|
            0 <= k < run_queue(ops).written.len() ==> #[trigger] run_queue(ops).written[k]
                == reply_of(run_queue(ops).queue.fates[k]),
    decreases ops.len(),
{
    if ops.len() > 0 {
        lemma_replies_in_arrival_order(ops.drop_last());
    }
}

/// What is settled stays settled. Whatever is done to a reply queue later
/// on, a ticket that was resolved keeps its fate, and the replies already
/// given to the writer stay as they are, with later ones only added behind
/// them.
pub proof fn lemma_written_stays(ops: Seq<QueueOp>, more: Seq<QueueOp>)
    ensures
        run_queue(ops).queue.fates.len() <= run_queue(ops + more).queue.fates.len(),
        forall|k: int|
            0 <= k < run_queue(ops).queue.fates.len() && !(run_queue(ops).queue.fates[k]
                is Pending) ==> #[trigger] run_queue(ops + more).queue.fates[k] == run_queue(
                ops,
            ).queue.fates[k],
        run_queue(ops).written.is_prefix_of(run_queue(ops + more).written),
    decreases more.len(),
{
    if more.len() > 0 {
        assert((ops + more).drop_last() =~= ops + more.drop_last());
        lemma_written_stays(ops, more.drop_last());
    }
}

} // verus!
