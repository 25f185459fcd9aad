//! ISR safe queues used to enqueue work in peripheral ISRs.

pub mod node;
pub mod object;

pub use node::ISRQueueNode;
pub use object::ISRObject;

use std::collections::VecDeque;
use vstd::prelude::*;

verus! {

/// State of a queue: whether it is unlocked, and the handles of the queued nodes from head
/// to tail.
pub type QueueState = (bool, Seq<usize>);

/// Item agnostic queue of node handles, guarded by a lock for multicore access.
pub struct ISRQueue {
    /// Queue lock for multicore access: `true` when the queue is free.
    ready: bool,
    /// The queued node handles, head first.
    items: VecDeque<usize>,
}

impl View for ISRQueue {
    type V = QueueState;

    closed spec fn view(&self) -> QueueState {
        (self.ready, self.items@)
    }
}

/// Result and new state of a push of `value` on a queue in state `q`: a locked queue
/// refuses it and stays as it is; otherwise the value goes to the tail, and the result
/// says whether it is the only item.
pub open spec fn push_spec(q: QueueState, value: usize) -> (Result<bool, ()>, QueueState) {
    if q.0 {
        (Ok(q.1.len() == 0), (true, q.1.push(value)))
    } else {
        (Err(()), q)
    }
}

/// Result and new state of a pop on a queue in state `q`: a locked queue refuses it and
/// stays as it is; otherwise the head leaves the queue and is returned.
pub open spec fn pop_spec(q: QueueState) -> (Result<Option<usize>, ()>, QueueState) {
    if !q.0 {
        (Err(()), q)
    } else if q.1.len() == 0 {
        (Ok(None), (true, q.1))
    } else {
        (Ok(Some(q.1[0])), (true, q.1.drop_first()))
    }
}

impl ISRQueue {
    /// Initializer of an empty, unlocked `ISRQueue`.
    pub fn new() -> (q: Self)
        ensures
            q@ == (true, Seq::<usize>::empty()),
    {
        Self { ready: true, items: VecDeque::new() }
    }

    /// Pushes a new item into the queue.
    /// If it succeeds to lock the queue it returns `true` if the item inserted was the first
    /// in the queue.
    pub fn push(&mut self, value: usize) -> (r: Result<bool, ()>)
        ensures
            (r, final(self)@) == push_spec(old(self)@, value),
    {
        // Attempt to lock the queue. Leave the failure handling to the caller.
        if !self.lock() {
            return Err(());
        }
        // Check if this is the first item in the queue.
        let first = self.items.len() == 0;
        self.items.push_back(value);
        // Unlock the queue and return the 'first in queue' conditional.
        self.unlock();
        Ok(first)
    }

    /// Pops the head of the queue, returning the popped item.
    pub fn pop(&mut self) -> (r: Result<Option<usize>, ()>)
        ensures
            (r, final(self)@) == pop_spec(old(self)@),
    {
        // Attempt to lock the queue. Leave the failure handling to the caller.
        if !self.lock() {
            return Err(());
        }
        // Take the head and set the next item as the head.
        let output = self.items.pop_front();
        // Unlock the queue and return the next item.
        self.unlock();
        Ok(output)
    }

    /// Returns the item at the head of the queue, if any.
    pub fn head(&self) -> (r: Option<usize>)
        ensures
            r == if self@.1.len() == 0 { None } else { Some(self@.1[0]) },
    {
        if self.items.len() == 0 {
            None
        } else {
            Some(self.items[0])
        }
    }

    /// Internal function to lock the queue. Returns `true` if the queue was free.
    pub fn lock(&mut self) -> (acquired: bool)
        ensures
            acquired == old(self)@.0,
            final(self)@ == (false, old(self)@.1),
    {
        let acquired = self.ready;
        self.ready = false;
        acquired
    }

    /// Internal function to unlock the queue.
    pub fn unlock(&mut self)
        ensures
            final(self)@ == (true, old(self)@.1),
    {
        self.ready = true;
    }
}

/// Items leave the queue in the order they entered it: pushing `value` and then popping
/// returns `value` from an empty queue, or else the old head, and leaves the other items
/// in order behind it.
pub proof fn lemma_fifo(items: Seq<usize>, value: usize)
    ensures
        ({
            let (pushed, after_push) = push_spec((true, items), value);
            let (popped, after_pop) = pop_spec(after_push);
            &&& pushed == Ok::<bool, ()>(items.len() == 0)
            &&& popped == Ok::<Option<usize>, ()>(Some(if items.len() == 0 { value } else { items[0] }))
            &&& after_pop == (true, if items.len() == 0 { items } else { items.drop_first().push(value) })
        }),
{
    if items.len() == 0 {
        assert(items.push(value).drop_first() =~= items);
    } else {
        assert(items.push(value).drop_first() =~= items.drop_first().push(value));
    }
}

/// A locked queue refuses both pushes and pops and keeps its items.
pub proof fn lemma_locked_refuses(items: Seq<usize>, value: usize)
    ensures
        push_spec((false, items), value) == (Err::<bool, ()>(()), (false, items)),
        pop_spec((false, items)) == (Err::<Option<usize>, ()>(()), (false, items)),
{
}

} // verus!
