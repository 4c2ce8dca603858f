use vstd::prelude::*;

use crate::instruction::{Instruction, InstructionError, InstructionHandler};

verus! {

/// Largest linear speed of a controlled body, in millimetres per second (10 m/s).
pub const MAX_LINEAR_VEL: i64 = 10_000;

/// Largest angular speed of a controlled body, in milliradians per second (2 pi rad/s).
pub const MAX_ANGULAR_VEL: i64 = 6_283;

/// Largest change of linear velocity that one instruction applies, in mm/s.
pub const LINEAR_STEP: i64 = 1_000;

/// Largest change of angular velocity that one instruction applies, in mrad/s.
pub const ANGULAR_STEP: i64 = 500;

/// A vector in fixed-point units (millimetres, mm/s or mrad/s, by context).
#[derive(Clone, Copy, Debug, PartialEq, Eq, Structural)]
pub struct Vec3 {
    pub x: i64,
    pub y: i64,
    pub z: i64,
}

/// A unit quaternion, each component scaled by one million.
#[derive(Clone, Copy, Debug, PartialEq, Eq, Structural)]
pub struct Quat {
    pub i: i64,
    pub j: i64,
    pub k: i64,
    pub w: i64,
}

/// The kinematic state of one tracked body, as the loop reads and adjusts it.
#[derive(Clone, Copy, Debug, PartialEq, Eq, Structural)]
pub struct BodyState {
    pub position: Vec3,
    pub orientation: Quat,
    pub linvel: Vec3,
    pub angvel: Vec3,
}

/// One of the three coordinate axes.
#[derive(Clone, Copy, Debug, PartialEq, Eq, Structural)]
pub enum Axis {
    X,
    Y,
    Z,
}

pub open spec fn zero_vec() -> Vec3 {
    Vec3 { x: 0, y: 0, z: 0 }
}

pub open spec fn speed_sq(v: Vec3) -> int {
    v.x * v.x + v.y * v.y + v.z * v.z
}

/// The speed of `v` is at most `cap`.
pub open spec fn within_cap(v: Vec3, cap: int) -> bool {
    speed_sq(v) <= cap * cap
}

pub open spec fn component(v: Vec3, axis: Axis) -> int {
    match axis {
        Axis::X => v.x as int,
        Axis::Y => v.y as int,
        Axis::Z => v.z as int,
    }
}

pub open spec fn with_component(v: Vec3, axis: Axis, c: int) -> Vec3 {
    match axis {
        Axis::X => Vec3 { x: c as i64, ..v },
        Axis::Y => Vec3 { y: c as i64, ..v },
        Axis::Z => Vec3 { z: c as i64, ..v },
    }
}

pub open spec fn min_int(a: int, b: int) -> int {
    if a <= b { a } else { b }
}

/// The change that moves `cur` toward `target` by at most `step`.
pub open spec fn step_toward(cur: int, target: int, step: int) -> int {
    if cur < target {
        min_int(target - cur, step)
    } else {
        -min_int(cur - target, step)
    }
}

/// `v` after one nudge along `axis` toward `sign * cap`: the change is the smaller of
/// what reaches the target and `step`, and it is made only where the resulting speed
/// stays within `cap`; otherwise `v` is kept.
pub open spec fn nudge(v: Vec3, axis: Axis, positive: bool, cap: int, step: int) -> Vec3 {
    let target = if positive { cap } else { -cap };
    let moved = with_component(v, axis, component(v, axis) + step_toward(component(v, axis), target, step));
    if -cap <= v.x <= cap && -cap <= v.y <= cap && -cap <= v.z <= cap && within_cap(moved, cap) {
        moved
    } else {
        v
    }
}

/// The state of `b` after `ins`, for the instructions that move the body.
pub open spec fn applied(b: BodyState, ins: Instruction) -> BodyState {
    match ins {
        Instruction::Up => BodyState {
            linvel: nudge(b.linvel, Axis::Z, true, MAX_LINEAR_VEL as int, LINEAR_STEP as int),
            ..b
        },
        Instruction::Down => BodyState {
            linvel: nudge(b.linvel, Axis::Z, false, MAX_LINEAR_VEL as int, LINEAR_STEP as int),
            ..b
        },
        Instruction::Right => BodyState {
            linvel: nudge(b.linvel, Axis::X, true, MAX_LINEAR_VEL as int, LINEAR_STEP as int),
            ..b
        },
        Instruction::Left => BodyState {
            linvel: nudge(b.linvel, Axis::X, false, MAX_LINEAR_VEL as int, LINEAR_STEP as int),
            ..b
        },
        Instruction::Ccw => BodyState {
            angvel: nudge(b.angvel, Axis::Y, true, MAX_ANGULAR_VEL as int, ANGULAR_STEP as int),
            ..b
        },
        Instruction::Cw => BodyState {
            angvel: nudge(b.angvel, Axis::Y, false, MAX_ANGULAR_VEL as int, ANGULAR_STEP as int),
            ..b
        },
        Instruction::Jump => b,
    }
}

/// The instructions that the loop knows how to apply.
pub open spec fn supported(ins: Instruction) -> bool {
    ins != Instruction::Jump
}

/// The state of `b` after the floor check: below `floor` it is back at `spawn`, at rest
/// linearly, with its orientation and angular velocity kept.
pub open spec fn after_floor_check(b: BodyState, floor: int, spawn: Vec3) -> BodyState {
    if b.position.y < floor {
        BodyState { position: spawn, linvel: zero_vec(), ..b }
    } else {
        b
    }
}

proof fn lemma_square_bound(a: int, bound: int)
    requires
        0 <= bound,
        -bound <= a <= bound,
    ensures
        0 <= a * a <= bound * bound,
{
    assert(0 <= a * a <= bound * bound) by (nonlinear_arith)
        requires
            0 <= bound,
            -bound <= a <= bound,
    ;
}

fn nudge_exec(v: Vec3, axis: Axis, positive: bool, cap: i64, step: i64) -> (r: Vec3)
    requires
        0 <= cap <= 1_000_000,
        0 <= step <= 1_000_000,
    ensures
        r == nudge(v, axis, positive, cap as int, step as int),
{
    if !(-cap <= v.x && v.x <= cap && -cap <= v.y && v.y <= cap && -cap <= v.z && v.z <= cap) {
        return v;
    }
    let cur: i64 = match axis {
        Axis::X => v.x,
        Axis::Y => v.y,
        Axis::Z => v.z,
    };
    let target: i64 = if positive { cap } else { -cap };
    let delta: i64 = if cur < target {
        if target - cur <= step { target - cur } else { step }
    } else {
        if cur - target <= step { -(cur - target) } else { -step }
    };
    let c: i64 = cur + delta;
    let moved = match axis {
        Axis::X => Vec3 { x: c, ..v },
        Axis::Y => Vec3 { y: c, ..v },
        Axis::Z => Vec3 { z: c, ..v },
    };
    proof {
        lemma_square_bound(moved.x as int, 2_000_000);
        lemma_square_bound(moved.y as int, 2_000_000);
        lemma_square_bound(moved.z as int, 2_000_000);
        lemma_square_bound(cap as int, 1_000_000);
    }
    let sq: i64 = moved.x * moved.x + moved.y * moved.y + moved.z * moved.z;
    if sq <= cap * cap {
        moved
    } else {
        v
    }
}

/// Applies `ins` to the controlled body `b`: a directional instruction moves its linear
/// (or, for a turn, angular) velocity one step toward the cap in that direction, never
/// beyond the cap. An instruction outside the supported set leaves `b` as it was and
/// reports `NotImplemented`.
pub fn apply_instruction(b: &mut BodyState, ins: Instruction) -> (r: Result<(), InstructionError>)
    ensures
        r is Ok <==> supported(ins),
        r is Err ==> r == Err::<(), InstructionError>(InstructionError::NotImplemented(ins)),
        *final(b) == applied(*old(b), ins),
        within_cap(old(b).linvel, MAX_LINEAR_VEL as int) ==> within_cap(
            final(b).linvel,
            MAX_LINEAR_VEL as int,
        ),
        within_cap(old(b).angvel, MAX_ANGULAR_VEL as int) ==> within_cap(
            final(b).angvel,
            MAX_ANGULAR_VEL as int,
        ),
{
    match ins {
        Instruction::Up => {
            b.linvel = nudge_exec(b.linvel, Axis::Z, true, MAX_LINEAR_VEL, LINEAR_STEP);
            Ok(())
        },
        Instruction::Down => {
            b.linvel = nudge_exec(b.linvel, Axis::Z, false, MAX_LINEAR_VEL, LINEAR_STEP);
            Ok(())
        },
        Instruction::Right => {
            b.linvel = nudge_exec(b.linvel, Axis::X, true, MAX_LINEAR_VEL, LINEAR_STEP);
            Ok(())
        },
        Instruction::Left => {
            b.linvel = nudge_exec(b.linvel, Axis::X, false, MAX_LINEAR_VEL, LINEAR_STEP);
            Ok(())
        },
        Instruction::Ccw => {
            b.angvel = nudge_exec(b.angvel, Axis::Y, true, MAX_ANGULAR_VEL, ANGULAR_STEP);
            Ok(())
        },
        Instruction::Cw => {
            b.angvel = nudge_exec(b.angvel, Axis::Y, false, MAX_ANGULAR_VEL, ANGULAR_STEP);
            Ok(())
        },
        Instruction::Jump => Err(InstructionError::NotImplemented(ins)),
    }
}

/// The fail-safe reset: a body whose height is below `floor` goes back to `spawn` with
/// zero linear velocity, its orientation kept. Returns whether it was reset.
pub fn reset_if_fallen(b: &mut BodyState, floor: i64, spawn: Vec3) -> (reset: bool)
    ensures
        reset == (old(b).position.y < floor),
        *final(b) == after_floor_check(*old(b), floor as int, spawn),
        reset ==> final(b).position == spawn && final(b).linvel == zero_vec()
            && final(b).orientation == old(b).orientation,
{
    if b.position.y < floor {
        b.position = spawn;
        b.linvel = Vec3 { x: 0, y: 0, z: 0 };
        true
    } else {
        false
    }
}

impl InstructionHandler for BodyState {
    fn apply_instruction(&mut self, instruction: Instruction) -> Result<(), InstructionError> {
        apply_instruction(self, instruction)
    }
}

} // verus!
