use vstd::prelude::*;

use crate::body::supported;
use crate::instruction::Instruction;

verus! {

/// Why an instruction was not enqueued.
#[derive(Clone, Copy, Debug, PartialEq, Eq, Structural)]
pub enum EnqueueError {
    /// The queue holds as many instructions as its capacity allows; the instruction
    /// was rejected and will never be applied.
    Full,
}

/// A bounded FIFO of pending instructions with a reject-when-full policy: many
/// producers enqueue, the simulation loop alone dequeues, never waiting.
pub struct IntakeQueue {
    items: Vec<Instruction>,
    capacity: usize,
}

impl View for IntakeQueue {
    type V = Seq<Instruction>;

    closed spec fn view(&self) -> Seq<Instruction> {
        self.items@
    }
}

impl IntakeQueue {
    pub closed spec fn spec_capacity(&self) -> nat {
        self.capacity as nat
    }

    pub closed spec fn wf(&self) -> bool {
        self.items@.len() <= self.capacity
    }

    /// An empty queue that holds at most `capacity` instructions.
    pub fn new(capacity: usize) -> (q: Self)
        ensures
            q.wf(),
            q@ == Seq::<Instruction>::empty(),
            q.spec_capacity() == capacity,
    {
        IntakeQueue { items: Vec::new(), capacity }
    }

    pub fn capacity(&self) -> (r: usize)
        ensures
            r == self.spec_capacity(),
    {
        self.capacity
    }

    pub fn len(&self) -> (r: usize)
        ensures
            r == self@.len(),
    {
        self.items.len()
    }

    pub fn is_full(&self) -> (r: bool)
        requires
            self.wf(),
        ensures
            r == (self@.len() == self.spec_capacity()),
    {
        self.items.len() >= self.capacity
    }

    /// Adds `ins` at the back, or rejects it with `Full` when the queue is at capacity,
    /// leaving the queue as it was.
    pub fn enqueue(&mut self, ins: Instruction) -> (r: Result<(), EnqueueError>)
        requires
            old(self).wf(),
        ensures
            final(self).wf(),
            final(self).spec_capacity() == old(self).spec_capacity(),
            r is Ok <==> old(self)@.len() < old(self).spec_capacity(),
            r is Ok ==> final(self)@ == old(self)@.push(ins),
            r is Err ==> r == Err::<(), EnqueueError>(EnqueueError::Full) && final(self)@ == old(self)@,
    {
        if self.items.len() >= self.capacity {
            Err(EnqueueError::Full)
        } else {
            self.items.push(ins);
            Ok(())
        }
    }

    /// Takes the oldest pending instruction, if any; never waits.
    pub fn dequeue_nonblocking(&mut self) -> (r: Option<Instruction>)
        requires
            old(self).wf(),
        ensures
            final(self).wf(),
            final(self).spec_capacity() == old(self).spec_capacity(),
            old(self)@.len() == 0 ==> r is None && final(self)@ == old(self)@,
            old(self)@.len() > 0 ==> r == Some(old(self)@[0]) && final(self)@ == old(self)@.drop_first(),
    {
        if self.items.len() == 0 {
            None
        } else {
            let first = self.items.remove(0);
            assert(self.items@ =~= old(self)@.drop_first());
            Some(first)
        }
    }
}

/// Why a submitted instruction was not accepted.
#[derive(Clone, Copy, Debug, PartialEq, Eq, Structural)]
pub enum SubmitError {
    /// The instruction is outside the supported set; it was not enqueued.
    NotImplemented(Instruction),
    /// The intake queue is at capacity; the instruction was rejected.
    Full,
}

/// The request/response path for submitting an instruction: an unsupported instruction
/// is refused with `NotImplemented` before it reaches the queue, a full queue refuses
/// with `Full`, and otherwise the instruction is enqueued at the back.
pub fn send_instruction(queue: &mut IntakeQueue, ins: Instruction) -> (r: Result<(), SubmitError>)
    requires
        old(queue).wf(),
    ensures
        final(queue).wf(),
        final(queue).spec_capacity() == old(queue).spec_capacity(),
        r is Ok <==> supported(ins) && old(queue)@.len() < old(queue).spec_capacity(),
        !supported(ins) ==> r == Err::<(), SubmitError>(SubmitError::NotImplemented(ins)),
        supported(ins) && old(queue)@.len() >= old(queue).spec_capacity() ==> r == Err::<
            (),
            SubmitError,
        >(SubmitError::Full),
        r is Ok ==> final(queue)@ == old(queue)@.push(ins),
        r is Err ==> final(queue)@ == old(queue)@,
{
    if ins == Instruction::Jump {
        return Err(SubmitError::NotImplemented(ins));
    }
    match queue.enqueue(ins) {
        Ok(()) => Ok(()),
        Err(EnqueueError::Full) => Err(SubmitError::Full),
    }
}

} // verus!
