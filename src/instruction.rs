use vstd::prelude::*;

verus! {

/// A control command for the controlled body. It carries no payload beyond its tag.
#[derive(Clone, Copy, Debug, PartialEq, Eq, Structural)]
pub enum Instruction {
    Jump,
    Left,
    Right,
    Up,
    Down,
    Cw,
    Ccw,
}

/// Why an instruction was not applied.
#[derive(Clone, Copy, Debug, PartialEq, Eq, Structural)]
pub enum InstructionError {
    /// The instruction is outside the supported set.
    NotImplemented(Instruction),
}

/// Something that an instruction can be applied to.
pub trait InstructionHandler {
    fn apply_instruction(&mut self, instruction: Instruction) -> Result<(), InstructionError>;
}

} // verus!
