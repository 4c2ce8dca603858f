use sim_server::hub::RecvOutcome;
use sim_server::instruction::Instruction;
use sim_server::updates::SimulationUpdate;
use sim_server::wire::{
    inbound_action, instruction_body_offset, outbound_action, Inbound, InboundAction,
    OutboundAction, Payload,
};

#[test]
fn instruction_text_body_starts_at_first_brace() {
    let s = "Instruction {\"tag\":\"Up\"}";
    let i = instruction_body_offset(s.as_bytes()).unwrap();
    assert_eq!(i, 12);
    assert_eq!(&s[i..], "{\"tag\":\"Up\"}");
}

#[test]
fn instruction_text_without_brace_has_empty_body() {
    assert_eq!(instruction_body_offset(b"Inone"), Some(5));
}

#[test]
fn other_text_has_no_instruction_body() {
    assert_eq!(instruction_body_offset(b"hello {x}"), None);
    assert_eq!(instruction_body_offset(b""), None);
}

#[test]
fn inbound_actions() {
    assert_eq!(
        inbound_action(&Inbound::Instruction(Some(Instruction::Down))),
        InboundAction::Enqueue(Instruction::Down)
    );
    assert_eq!(inbound_action(&Inbound::Instruction(None)), InboundAction::Malformed);
    assert_eq!(inbound_action(&Inbound::OtherText), InboundAction::Noop);
    assert_eq!(inbound_action(&Inbound::Closed), InboundAction::Close);
}

#[test]
fn outbound_actions() {
    let u = SimulationUpdate::from_snapshots(vec![]);
    assert_eq!(outbound_action(&RecvOutcome::Update(u)), OutboundAction::Send);
    let t = SimulationUpdate::terminal_update();
    assert_eq!(outbound_action(&RecvOutcome::Update(t)), OutboundAction::SendAndStop);
    assert_eq!(outbound_action(&RecvOutcome::Lagged(3)), OutboundAction::Resync);
    assert_eq!(outbound_action(&RecvOutcome::Empty), OutboundAction::Wait);
    assert_eq!(outbound_action(&RecvOutcome::Closed), OutboundAction::Stop);
}

#[test]
fn payload_carries_its_content() {
    let p = Payload::SimulationInstruction(Instruction::Cw);
    assert!(matches!(p, Payload::SimulationInstruction(Instruction::Cw)));
    let c = Payload::ChatMessage(String::from("hi"));
    assert!(matches!(c, Payload::ChatMessage(ref s) if s == "hi"));
    assert!(matches!(Payload::NoPayload, Payload::NoPayload));
}
