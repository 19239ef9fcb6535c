use bytes::Bytes;
use ssh_rev::reply_queue::ReplyQueue;
use ssh_rev::ssh_agent::Message;

fn reply(tag: u8) -> Message {
    Message { message_type: 6, contents: Bytes::copy_from_slice(&[tag]) }
}

fn pop(q: &mut ReplyQueue) -> Option<(u8, Vec<u8>)> {
    q.pop().map(|m| (m.message_type, m.contents.to_vec()))
}

#[test]
fn new_queue_has_nothing_to_write() {
    let mut q = ReplyQueue::new();
    assert!(q.is_empty());
    assert_eq!(pop(&mut q), None);
}

#[test]
fn tickets_count_up_from_zero() {
    let mut q = ReplyQueue::new();
    assert_eq!(q.open(), Some(0));
    assert_eq!(q.open(), Some(1));
    assert_eq!(q.open(), Some(2));
    assert!(!q.is_empty());
}

#[test]
fn pending_ticket_holds_the_writer_back() {
    let mut q = ReplyQueue::new();
    q.open();
    assert_eq!(pop(&mut q), None);
    assert!(q.fill(0, reply(1)));
    assert_eq!(pop(&mut q), Some((6, vec![1])));
    assert_eq!(pop(&mut q), None);
    assert!(q.is_empty());
}

#[test]
fn replies_leave_in_arrival_order_whatever_the_order_of_completion() {
    let orders: [[u64; 3]; 6] =
        [[0, 1, 2], [0, 2, 1], [1, 0, 2], [1, 2, 0], [2, 0, 1], [2, 1, 0]];
    for order in orders {
        let mut q = ReplyQueue::new();
        for _ in 0..3 {
            q.open();
        }
        let mut written = Vec::new();
        for ticket in order {
            assert!(q.fill(ticket, reply(ticket as u8 + 10)));
            while let Some(m) = pop(&mut q) {
                written.push(m);
            }
        }
        assert_eq!(written, vec![(6, vec![10]), (6, vec![11]), (6, vec![12])]);
        assert!(q.is_empty());
    }
}

#[test]
fn a_late_first_reply_holds_back_the_ones_behind_it() {
    let mut q = ReplyQueue::new();
    q.open();
    q.open();
    q.open();
    assert!(q.fill(1, reply(11)));
    assert!(q.fill(2, reply(12)));
    assert_eq!(pop(&mut q), None);
    assert!(q.fill(0, reply(10)));
    assert_eq!(pop(&mut q), Some((6, vec![10])));
    assert_eq!(pop(&mut q), Some((6, vec![11])));
    assert_eq!(pop(&mut q), Some((6, vec![12])));
    assert_eq!(pop(&mut q), None);
}

#[test]
fn abandoned_ticket_is_answered_with_failure() {
    let mut q = ReplyQueue::new();
    q.open();
    q.open();
    assert!(q.abandon(0));
    assert!(q.fill(1, reply(11)));
    assert_eq!(pop(&mut q), Some((5, vec![])));
    assert_eq!(pop(&mut q), Some((6, vec![11])));
}

#[test]
fn a_ticket_is_resolved_once() {
    let mut q = ReplyQueue::new();
    q.open();
    assert!(q.fill(0, reply(1)));
    assert!(!q.fill(0, reply(2)));
    assert!(!q.abandon(0));
    assert_eq!(pop(&mut q), Some((6, vec![1])));
    assert!(!q.fill(0, reply(3)));

    q.open();
    assert!(q.abandon(1));
    assert!(!q.fill(1, reply(4)));
    assert_eq!(pop(&mut q), Some((5, vec![])));
}

#[test]
fn unknown_tickets_are_not_accepted() {
    let mut q = ReplyQueue::new();
    assert!(!q.fill(0, reply(1)));
    assert!(!q.abandon(0));
    q.open();
    assert!(!q.fill(1, reply(1)));
    assert!(!q.fill(u64::MAX, reply(1)));
    assert_eq!(pop(&mut q), None);
}

#[test]
fn tickets_keep_counting_after_replies_were_written() {
    let mut q = ReplyQueue::new();
    for round in 0..5u64 {
        assert_eq!(q.open(), Some(2 * round));
        assert_eq!(q.open(), Some(2 * round + 1));
        assert!(q.fill(2 * round + 1, reply(1)));
        assert!(q.fill(2 * round, reply(0)));
        assert_eq!(pop(&mut q), Some((6, vec![0])));
        assert_eq!(pop(&mut q), Some((6, vec![1])));
        assert!(q.is_empty());
    }
}

#[test]
fn abandon_all_gives_up_the_pending_and_keeps_the_resolved() {
    let mut q = ReplyQueue::new();
    for _ in 0..4 {
        q.open();
    }
    assert!(q.fill(1, reply(11)));
    assert!(q.abandon(2));
    q.abandon_all();
    assert!(!q.fill(0, reply(10)));
    assert!(!q.fill(3, reply(13)));
    assert_eq!(pop(&mut q), Some((5, vec![])));
    assert_eq!(pop(&mut q), Some((6, vec![11])));
    assert_eq!(pop(&mut q), Some((5, vec![])));
    assert_eq!(pop(&mut q), Some((5, vec![])));
    assert_eq!(pop(&mut q), None);
    // tickets taken afterwards are pending as usual
    assert_eq!(q.open(), Some(4));
    assert_eq!(pop(&mut q), None);
    assert!(q.fill(4, reply(14)));
    assert_eq!(pop(&mut q), Some((6, vec![14])));
}
