use vstd::prelude::*;

pub mod body;
pub mod hub;
pub mod instruction;
pub mod intake;
pub mod simulation;
pub mod updates;
pub mod wire;

verus! {

} // verus!
