use vstd::prelude::*;

use crate::hub::RecvOutcome;
use crate::instruction::Instruction;
use crate::updates::{is_terminal, SimulationUpdate};

verus! {

/// A message of the socket transport.
#[derive(Debug)]
pub enum Payload {
    /// Sent and received.
    ChatMessage(String),
    /// Sent.
    SimulationUpdate(SimulationUpdate),
    /// Received.
    SimulationInstruction(Instruction),
    NoPayload,
}

/// The byte `I` that opens a text message carrying an instruction.
pub const INSTRUCTION_MARK: u8 = 73;

/// The byte `{` that opens the instruction's encoded body.
pub const BODY_OPEN: u8 = 123;

/// Where the encoded instruction of a text message starts: for a message opened by
/// `I`, the first `{` (or the end, where there is none); for any other, none.
pub open spec fn instruction_body_start(b: Seq<u8>) -> Option<nat> {
    if b.len() > 0 && b[0] == INSTRUCTION_MARK {
        Some(first_from(b, BODY_OPEN, 0))
    } else {
        None
    }
}

/// The first index at or after `i` that holds `c`, or the length where none does.
pub open spec fn first_from(b: Seq<u8>, c: u8, i: nat) -> nat
    decreases b.len() - i,
{
    if i >= b.len() {
        b.len()
    } else if b[i as int] == c {
        i
    } else {
        first_from(b, c, i + 1)
    }
}

/// Finds where the encoded instruction of a text message starts (see
/// `instruction_body_start`).
pub fn instruction_body_offset(b: &[u8]) -> (r: Option<usize>)
    ensures
        r matches Some(i) ==> instruction_body_start(b@) == Some(i as nat),
        r is None ==> instruction_body_start(b@) is None,
{
    if b.len() == 0 || b[0] != INSTRUCTION_MARK {
        return None;
    }
    let mut i: usize = 0;
    while i < b.len()
        invariant
            i <= b@.len(),
            b@.len() > 0 && b@[0] == INSTRUCTION_MARK,
            first_from(b@, BODY_OPEN, 0) == first_from(b@, BODY_OPEN, i as nat),
        decreases b@.len() - i,
    {
        if b[i] == BODY_OPEN {
            assert(first_from(b@, BODY_OPEN, i as nat) == i as nat);
            return Some(i);
        }
        i = i + 1;
    }
    assert(first_from(b@, BODY_OPEN, i as nat) == b@.len());
    Some(i)
}

/// What arrived on a connection, as the transport decoded it.
#[derive(Debug)]
pub enum Inbound {
    /// A text message opened by the instruction mark, and its decoded instruction, if
    /// the body could be decoded.
    Instruction(Option<Instruction>),
    /// A text message of any other kind.
    OtherText,
    /// The connection closed, failed, or sent something that is not text.
    Closed,
}

/// What a forwarding unit does with an inbound message.
#[derive(Clone, Copy, Debug, PartialEq, Eq, Structural)]
pub enum InboundAction {
    /// Put the instruction into the intake queue.
    Enqueue(Instruction),
    /// The body could not be decoded: report it, drop it, keep the connection.
    Malformed,
    /// Nothing to do.
    Noop,
    /// End the forwarding unit.
    Close,
}

pub fn inbound_action(m: &Inbound) -> (a: InboundAction)
    ensures
        *m matches Inbound::Instruction(Some(i)) ==> a == InboundAction::Enqueue(i),
        *m matches Inbound::Instruction(None) ==> a == InboundAction::Malformed,
        *m matches Inbound::OtherText ==> a == InboundAction::Noop,
        *m matches Inbound::Closed ==> a == InboundAction::Close,
{
    match m {
        Inbound::Instruction(Some(i)) => InboundAction::Enqueue(*i),
        Inbound::Instruction(None) => InboundAction::Malformed,
        Inbound::OtherText => InboundAction::Noop,
        Inbound::Closed => InboundAction::Close,
    }
}

/// What a forwarding unit does with what the hub gave it.
#[derive(Clone, Copy, Debug, PartialEq, Eq, Structural)]
pub enum OutboundAction {
    /// Send the update and keep going.
    Send,
    /// Send the update, which is the terminal one, and stop.
    SendAndStop,
    /// The subscriber lagged: continue from the next available update.
    Resync,
    /// Nothing new: wait for the next publish.
    Wait,
    /// The hub is closed: stop.
    Stop,
}

pub fn outbound_action(r: &RecvOutcome) -> (a: OutboundAction)
    ensures
        *r matches RecvOutcome::Update(u) ==> a == (if is_terminal(u@) {
            OutboundAction::SendAndStop
        } else {
            OutboundAction::Send
        }),
        *r matches RecvOutcome::Lagged(_) ==> a == OutboundAction::Resync,
        *r matches RecvOutcome::Empty ==> a == OutboundAction::Wait,
        *r matches RecvOutcome::Closed ==> a == OutboundAction::Stop,
{
    match r {
        RecvOutcome::Update(u) => {
            if u.is_terminal() {
                OutboundAction::SendAndStop
            } else {
                OutboundAction::Send
            }
        },
        RecvOutcome::Lagged(_) => OutboundAction::Resync,
        RecvOutcome::Empty => OutboundAction::Wait,
        RecvOutcome::Closed => OutboundAction::Stop,
    }
}

} // verus!
