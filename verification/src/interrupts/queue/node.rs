//! Implementation of a node within an `ISRQueue`.

use vstd::prelude::*;

use super::{pop_spec, push_spec, ISRQueue, QueueState};

verus! {

/// Marks if the node has been registered in the queue.
pub const REGISTERED: u8 = 1;

/// Marks if the node is being serviced right now.
pub const ACTIVE: u8 = 2;

/// Marks if the node has finished.
pub const FINISHED: u8 = 4;

/// `flags` holds the flag `bit`.
pub open spec fn has_flag(flags: u8, bit: u8) -> bool {
    flags & bit == bit
}

/// Adding a flag sets it and keeps the others.
pub proof fn lemma_add_flag(flags: u8, bit: u8)
    requires
        bit == REGISTERED || bit == ACTIVE || bit == FINISHED,
    ensures
        has_flag(flags | bit, bit),
        forall|other: u8|
            (other == REGISTERED || other == ACTIVE || other == FINISHED) && other != bit
                ==> #[trigger] has_flag(flags | bit, other) == has_flag(flags, other),
{
    assert(forall|f: u8, b: u8, o: u8|
        (b == 1u8 || b == 2u8 || b == 4u8) && (o == 1u8 || o == 2u8 || o == 4u8) && o != b
            ==> (#[trigger] ((f | b) & o) == o) == (f & o == o)) by (bit_vector);
    assert((flags | bit) & bit == bit) by (bit_vector);
}

/// The observable state of a node.
#[derive(Clone, Copy, Debug, PartialEq, Eq, Structural)]
pub struct NodeState {
    /// The node has been registered in the queue.
    pub registered: bool,
    /// The node is being serviced.
    pub active: bool,
    /// The service of the node has finished.
    pub finished: bool,
    /// The node knows whom to wake.
    pub waker: bool,
}

/// What the executor must do after a poll of a node.
#[derive(Clone, Copy, Debug, PartialEq, Eq, Structural)]
pub enum PollStep {
    /// Nothing yet: wait to be woken.
    Pending,
    /// The queue was busy: wake the task again and yield.
    Retry,
    /// Trigger the node's object, then wait to be woken.
    Trigger,
    /// The node is done: collect its output; `next` is the node to activate and wake.
    Ready { next: Option<usize> },
}

/// The outcome of a poll of the node with handle `id` in state `s`, with its queue in
/// state `q` and the slot of the serviced node holding `slot`: the new node state, queue
/// state and slot, and the step to take.
pub open spec fn poll_spec(s: NodeState, id: usize, q: QueueState, slot: Option<usize>) -> (
    NodeState,
    QueueState,
    Option<usize>,
    PollStep,
) {
    let s1 = NodeState { waker: true, ..s };
    if !s1.registered && !q.0 {
        (s1, q, slot, PollStep::Retry)
    } else {
        let (q2, slot2, s2) = if !s1.registered {
            let first = q.1.len() == 0;
            let q2 = push_spec(q, id).1;
            (
                q2,
                if first { Some(id) } else { slot },
                NodeState { registered: true, active: s1.active || first, ..s1 },
            )
        } else {
            (q, slot, s1)
        };
        if !s2.active {
            (s2, q2, slot2, PollStep::Pending)
        } else if !s2.finished {
            (s2, q2, slot2, PollStep::Trigger)
        } else if !q2.0 {
            (s2, q2, slot2, PollStep::Retry)
        } else {
            let q3 = pop_spec(q2).1;
            let next = if q3.1.len() == 0 { None } else { Some(q3.1[0]) };
            (s2, q3, next, PollStep::Ready { next })
        }
    }
}

/// A new node polled on a free queue enters it at the tail; when the queue was empty the
/// node takes the slot and is triggered at once, otherwise it waits and the slot is kept.
pub proof fn lemma_poll_registers(id: usize, items: Seq<usize>, slot: Option<usize>)
    ensures
        ({
            let fresh = NodeState { registered: false, active: false, finished: false, waker: false };
            let (s, q, slot2, step) = poll_spec(fresh, id, (true, items), slot);
            &&& s.registered
            &&& q == (true, items.push(id))
            &&& if items.len() == 0 {
                &&& s.active
                &&& slot2 == Some(id)
                &&& step == PollStep::Trigger
            } else {
                &&& !s.active
                &&& slot2 == slot
                &&& step == PollStep::Pending
            }
        }),
{
}

/// A finished node at the head of a free queue leaves it and hands the slot to the node
/// queued right behind it, or empties the slot.
pub proof fn lemma_poll_hands_over(s: NodeState, id: usize, items: Seq<usize>, slot: Option<usize>)
    requires
        s.registered,
        s.active,
        s.finished,
        items.len() > 0,
        items[0] == id,
    ensures
        ({
            let next = if items.len() > 1 { Some(items[1]) } else { None };
            let (s2, q, slot2, step) = poll_spec(s, id, (true, items), slot);
            &&& q == (true, items.drop_first())
            &&& slot2 == next
            &&& step == (PollStep::Ready { next })
            &&& s2 == NodeState { waker: true, ..s }
        }),
{
}

/// The slot of the serviced node names the head of the queue, and is empty with the queue.
pub open spec fn slot_tracks_head(q: QueueState, slot: Option<usize>) -> bool {
    slot == if q.1.len() == 0 {
        None
    } else {
        Some(q.1[0])
    }
}

/// Polls keep the slot on the head of the queue, as long as only the node at the head of
/// the queue is active and nodes become active only once registered.
pub proof fn lemma_poll_keeps_slot_on_head(s: NodeState, id: usize, q: QueueState, slot: Option<usize>)
    requires
        slot_tracks_head(q, slot),
        s.active ==> q.1.len() > 0 && q.1[0] == id,
        !s.registered ==> !s.active,
    ensures
        ({
            let (s2, q2, slot2, step) = poll_spec(s, id, q, slot);
            &&& slot_tracks_head(q2, slot2)
            &&& (s2.active ==> q2.1.len() > 0 && q2.1[0] == id) || step is Ready
        }),
{
    if !s.registered && q.0 {
        assert(q.1.push(id)[0] == if q.1.len() == 0 { id } else { q.1[0] });
    }
}

/// A node of an `ISRQueue`: the object serviced by an ISR and the progress of its service.
pub struct ISRQueueNode<T> {
    /// Set of flags to track the progress of this node.
    flags: u8,
    /// Tracks if the waker of the context that requested the data is known.
    waker: bool,
    /// The internal object contained in this node.
    object: T,
}

impl<T> View for ISRQueueNode<T> {
    type V = NodeState;

    closed spec fn view(&self) -> NodeState {
        NodeState {
            registered: has_flag(self.flags, REGISTERED),
            active: has_flag(self.flags, ACTIVE),
            finished: has_flag(self.flags, FINISHED),
            waker: self.waker,
        }
    }
}

impl<T> ISRQueueNode<T> {
    /// The object contained in this node.
    pub closed spec fn object_spec(&self) -> T {
        self.object
    }

    /// Creates a node for `object`, not yet registered, active nor finished.
    pub fn new(object: T) -> (r: Self)
        ensures
            r@ == (NodeState { registered: false, active: false, finished: false, waker: false }),
            r.object_spec() == object,
    {
        assert(0u8 & 1u8 != 1u8 && 0u8 & 2u8 != 2u8 && 0u8 & 4u8 != 4u8) by (bit_vector);
        Self { object, flags: 0, waker: false }
    }

    /// Marks this node's service as finished.
    pub fn finish(&mut self)
        ensures
            final(self)@ == (NodeState { finished: true, ..old(self)@ }),
            final(self).object_spec() == old(self).object_spec(),
    {
        proof {
            lemma_add_flag(self.flags, FINISHED);
        }
        self.flags = self.flags | FINISHED;
    }

    /// Marks this node as the one being serviced.
    pub fn activate(&mut self)
        ensures
            final(self)@ == (NodeState { active: true, ..old(self)@ }),
            final(self).object_spec() == old(self).object_spec(),
    {
        proof {
            lemma_add_flag(self.flags, ACTIVE);
        }
        self.flags = self.flags | ACTIVE;
    }

    /// Returns a mutable reference to this node's contained object.
    pub fn object(&mut self) -> (r: &mut T)
        ensures
            *r == old(self).object_spec(),
            final(self).object_spec() == *final(r),
            final(self)@ == old(self)@,
    {
        &mut self.object
    }

    /// Returns `true` if this node is being serviced.
    pub fn triggered(&self) -> (r: bool)
        ensures
            r == self@.active,
    {
        self.flags & ACTIVE == ACTIVE
    }

    /// Wakes up this node's task: returns `true` when a waker is known to be woken.
    pub fn wake(&mut self) -> (r: bool)
        ensures
            r == old(self)@.waker,
            final(self)@ == old(self)@,
            final(self).object_spec() == old(self).object_spec(),
    {
        self.waker
    }

    /// Advances the service of the node with handle `id`: registers it in `queue` (taking
    /// the `slot` of the serviced node when it is the first), asks for its object to be
    /// triggered while it is active, and once finished removes it from the queue and hands
    /// the slot to the next queued node.
    pub fn poll(&mut self, id: usize, queue: &mut ISRQueue, slot: &mut Option<usize>) -> (step: PollStep)
        ensures
            (final(self)@, final(queue)@, *final(slot), step) == poll_spec(
                old(self)@,
                id,
                old(queue)@,
                *old(slot),
            ),
            final(self).object_spec() == old(self).object_spec(),
    {
        // Register the waker if not done yet.
        self.waker = true;
        // Register the node into the queue if not done yet.
        if self.flags & REGISTERED != REGISTERED {
            match queue.push(id) {
                // Registration succeeded: if it's the first item in the queue, run it now.
                Ok(first) => {
                    if first {
                        *slot = Some(id);
                        proof {
                            lemma_add_flag(self.flags, ACTIVE);
                        }
                        self.flags = self.flags | ACTIVE;
                    }
                },
                // Registration failed, wake again the task and yield to the executor.
                Err(_) => {
                    return PollStep::Retry;
                },
            }
            proof {
                lemma_add_flag(self.flags, REGISTERED);
            }
            self.flags = self.flags | REGISTERED;
        }
        // Check if this is the active node and skip if not.
        if self.flags & ACTIVE != ACTIVE {
            return PollStep::Pending;
        }
        // If not finished, the object must run.
        if self.flags & FINISHED != FINISHED {
            return PollStep::Trigger;
        }
        // The service is finished, dequeue this node.
        if let Err(_) = queue.pop() {
            return PollStep::Retry;
        }
        // If there is a chained node, hand it the slot.
        let next = queue.head();
        *slot = next;
        PollStep::Ready { next }
    }
}

} // verus!
