use sim_server::instruction::Instruction;
use sim_server::intake::{send_instruction, EnqueueError, IntakeQueue, SubmitError};

#[test]
fn empty_queue_dequeues_nothing() {
    let mut q = IntakeQueue::new(3);
    assert_eq!(q.len(), 0);
    assert_eq!(q.dequeue_nonblocking(), None);
    assert_eq!(q.capacity(), 3);
}

#[test]
fn instructions_leave_in_enqueue_order() {
    let mut q = IntakeQueue::new(4);
    assert_eq!(q.enqueue(Instruction::Up), Ok(()));
    assert_eq!(q.enqueue(Instruction::Left), Ok(()));
    assert_eq!(q.enqueue(Instruction::Cw), Ok(()));
    assert_eq!(q.dequeue_nonblocking(), Some(Instruction::Up));
    assert_eq!(q.dequeue_nonblocking(), Some(Instruction::Left));
    assert_eq!(q.dequeue_nonblocking(), Some(Instruction::Cw));
    assert_eq!(q.dequeue_nonblocking(), None);
}

#[test]
fn full_queue_rejects_and_keeps_contents() {
    let mut q = IntakeQueue::new(2);
    assert_eq!(q.enqueue(Instruction::Up), Ok(()));
    assert_eq!(q.enqueue(Instruction::Down), Ok(()));
    assert!(q.is_full());
    assert_eq!(q.enqueue(Instruction::Left), Err(EnqueueError::Full));
    assert_eq!(q.len(), 2);
    assert_eq!(q.dequeue_nonblocking(), Some(Instruction::Up));
    assert_eq!(q.dequeue_nonblocking(), Some(Instruction::Down));
    assert_eq!(q.dequeue_nonblocking(), None);
}

#[test]
fn space_frees_after_dequeue() {
    let mut q = IntakeQueue::new(1);
    assert_eq!(q.enqueue(Instruction::Up), Ok(()));
    assert_eq!(q.enqueue(Instruction::Down), Err(EnqueueError::Full));
    assert_eq!(q.dequeue_nonblocking(), Some(Instruction::Up));
    assert_eq!(q.enqueue(Instruction::Down), Ok(()));
    assert_eq!(q.dequeue_nonblocking(), Some(Instruction::Down));
}

#[test]
fn zero_capacity_queue_rejects_everything() {
    let mut q = IntakeQueue::new(0);
    assert_eq!(q.enqueue(Instruction::Up), Err(EnqueueError::Full));
    assert_eq!(q.dequeue_nonblocking(), None);
}

#[test]
fn large_capacity_queue_fills_exactly() {
    let mut q = IntakeQueue::new(1000);
    for _ in 0..1000 {
        assert_eq!(q.enqueue(Instruction::Right), Ok(()));
    }
    assert_eq!(q.enqueue(Instruction::Right), Err(EnqueueError::Full));
    assert_eq!(q.len(), 1000);
}

#[test]
fn submit_accepts_supported_instruction() {
    let mut q = IntakeQueue::new(2);
    assert_eq!(send_instruction(&mut q, Instruction::Ccw), Ok(()));
    assert_eq!(q.dequeue_nonblocking(), Some(Instruction::Ccw));
}

#[test]
fn submit_refuses_unsupported_instruction_without_enqueuing() {
    let mut q = IntakeQueue::new(2);
    assert_eq!(
        send_instruction(&mut q, Instruction::Jump),
        Err(SubmitError::NotImplemented(Instruction::Jump))
    );
    assert_eq!(q.len(), 0);
}

#[test]
fn submit_to_full_queue_is_refused() {
    let mut q = IntakeQueue::new(1);
    assert_eq!(send_instruction(&mut q, Instruction::Up), Ok(()));
    assert_eq!(send_instruction(&mut q, Instruction::Down), Err(SubmitError::Full));
    assert_eq!(q.len(), 1);
    assert_eq!(q.dequeue_nonblocking(), Some(Instruction::Up));
}
