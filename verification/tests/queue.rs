use rphal::interrupts::queue::node::{NodeState, PollStep};
use rphal::interrupts::queue::{ISRQueue, ISRQueueNode};

#[test]
fn queue_is_first_in_first_out() {
    let mut q = ISRQueue::new();
    assert_eq!(q.push(10), Ok(true));
    assert_eq!(q.push(20), Ok(false));
    assert_eq!(q.push(30), Ok(false));
    assert_eq!(q.pop(), Ok(Some(10)));
    assert_eq!(q.pop(), Ok(Some(20)));
    assert_eq!(q.push(40), Ok(false));
    assert_eq!(q.pop(), Ok(Some(30)));
    assert_eq!(q.pop(), Ok(Some(40)));
    assert_eq!(q.pop(), Ok(None));
    assert_eq!(q.push(50), Ok(true));
}

#[test]
fn locked_queue_refuses() {
    let mut q = ISRQueue::new();
    assert_eq!(q.push(1), Ok(true));
    assert!(q.lock());
    assert!(!q.lock());
    assert_eq!(q.push(2), Err(()));
    assert_eq!(q.pop(), Err(()));
    q.unlock();
    assert_eq!(q.head(), Some(1));
    assert_eq!(q.pop(), Ok(Some(1)));
    assert_eq!(q.pop(), Ok(None));
}

#[test]
fn node_flags() {
    let mut node = ISRQueueNode::new(7u32);
    assert!(!node.triggered());
    assert!(!node.wake());
    node.activate();
    assert!(node.triggered());
    node.finish();
    assert_eq!(*node.object(), 7);
    *node.object() = 9;
    assert_eq!(*node.object(), 9);
}

#[test]
fn node_service_cycle() {
    let mut q = ISRQueue::new();
    let mut slot = None;
    let mut first = ISRQueueNode::new(1u8);
    let mut second = ISRQueueNode::new(2u8);
    // The first node registers, becomes active and runs.
    assert_eq!(first.poll(100, &mut q, &mut slot), PollStep::Trigger);
    assert_eq!(slot, Some(100));
    assert!(first.triggered());
    assert!(first.wake());
    // The second node waits behind it.
    assert_eq!(second.poll(200, &mut q, &mut slot), PollStep::Pending);
    assert!(!second.triggered());
    assert_eq!(slot, Some(100));
    // Still running until finished.
    assert_eq!(first.poll(100, &mut q, &mut slot), PollStep::Trigger);
    first.finish();
    assert_eq!(first.poll(100, &mut q, &mut slot), PollStep::Ready { next: Some(200) });
    assert_eq!(slot, Some(200));
    second.activate();
    assert_eq!(second.poll(200, &mut q, &mut slot), PollStep::Trigger);
    second.finish();
    assert_eq!(second.poll(200, &mut q, &mut slot), PollStep::Ready { next: None });
    assert_eq!(slot, None);
    assert_eq!(q.pop(), Ok(None));
}

#[test]
fn node_retries_on_busy_queue() {
    let mut q = ISRQueue::new();
    let mut slot = None;
    let mut node = ISRQueueNode::new(());
    q.lock();
    assert_eq!(node.poll(1, &mut q, &mut slot), PollStep::Retry);
    assert!(!node.triggered());
    q.unlock();
    assert_eq!(node.poll(1, &mut q, &mut slot), PollStep::Trigger);
    node.finish();
    q.lock();
    assert_eq!(node.poll(1, &mut q, &mut slot), PollStep::Retry);
    q.unlock();
    assert_eq!(node.poll(1, &mut q, &mut slot), PollStep::Ready { next: None });
}

#[test]
fn node_state_of_new_node() {
    let state = NodeState { registered: false, active: false, finished: false, waker: false };
    let node = ISRQueueNode::new(0u8);
    assert!(!node.triggered());
    assert!(!state.active);
}
