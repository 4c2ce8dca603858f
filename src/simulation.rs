use vstd::prelude::*;

use crate::body::{
    after_floor_check, applied, apply_instruction, reset_if_fallen, supported, BodyState, Vec3,
};
use crate::hub::{lemma_terminal_is_last, BroadcastHub, HubError};
use crate::instruction::{Instruction, InstructionError};
use crate::intake::IntakeQueue;
use crate::updates::{
    is_terminal, snapshot, snapshot_of, SimulationUpdate, SpatialSnapshot, UpdateView,
};

verus! {

/// Height below which the controlled body is put back at its spawn pose, in millimetres.
pub const FLOOR_THRESHOLD: i64 = -10_000;

/// Height at which the controlled body is spawned, in millimetres.
pub const SPAWN_HEIGHT: i64 = 20_000;

/// Stable identity of the controlled body in snapshots.
pub const PAWN_ID: u64 = 1;

/// Where a loop run stands.
#[derive(Clone, Copy, Debug, PartialEq, Eq, Structural)]
pub enum Phase {
    Running,
    Terminating,
    Done,
}

/// The two periodic timers the loop waits on.
#[derive(Clone, Copy, Debug, PartialEq, Eq, Structural)]
pub enum Timer {
    Update,
    Instruction,
}

/// What an instruction-timer firing did.
#[derive(Clone, Copy, Debug, PartialEq, Eq, Structural)]
pub enum InstructionOutcome {
    /// No instruction was pending.
    Idle,
    /// This instruction was taken from the queue and applied.
    Applied(Instruction),
    /// An instruction was taken from the queue and reported as not applied.
    Rejected(InstructionError),
}

/// Why a loop run ended with an error.
#[derive(Clone, Copy, Debug, PartialEq, Eq, Structural)]
pub enum LoopError {
    /// The broadcast's producer side was already closed.
    ChannelClosed,
}

/// The options of a loop run.
#[derive(Clone, Copy, Debug, PartialEq, Eq, Structural)]
pub struct SimulationConfig {
    /// Height below which the controlled body is reset.
    pub floor: i64,
    /// Position to which the controlled body is reset.
    pub spawn: Vec3,
    /// Number of update ticks after which the run ends by itself, if any.
    pub tick_budget: Option<u64>,
    /// Identity of the controlled body in snapshots.
    pub body_id: u64,
}

impl SimulationConfig {
    /// The configuration with the default floor, spawn point and no tick budget.
    pub fn standard() -> (c: Self)
        ensures
            c.floor == FLOOR_THRESHOLD,
            c.spawn == (Vec3 { x: 0, y: SPAWN_HEIGHT, z: 0 }),
            c.tick_budget == None::<u64>,
            c.body_id == PAWN_ID,
    {
        SimulationConfig {
            floor: FLOOR_THRESHOLD,
            spawn: Vec3 { x: 0, y: SPAWN_HEIGHT, z: 0 },
            tick_budget: None,
            body_id: PAWN_ID,
        }
    }
}

/// Picks the timer to serve when the given ones are ready; the update timer wins ties,
/// so instruction handling never starves the physics cadence.
pub fn select_timer(update_ready: bool, instruction_ready: bool) -> (t: Option<Timer>)
    ensures
        update_ready ==> t == Some(Timer::Update),
        !update_ready && instruction_ready ==> t == Some(Timer::Instruction),
        !update_ready && !instruction_ready ==> t is None,
{
    if update_ready {
        Some(Timer::Update)
    } else if instruction_ready {
        Some(Timer::Instruction)
    } else {
        None
    }
}

pub open spec fn tick_update(b: BodyState, id: u64) -> UpdateView {
    UpdateView { snapshots: seq![snapshot_of(b, id)], terminal: None }
}

pub open spec fn terminal_view() -> UpdateView {
    UpdateView { snapshots: Seq::empty(), terminal: Some(true) }
}

/// The decisions of one simulation run. The caller waits on the timers, steps the
/// physics, and hands each firing here; this value alone decides what to publish,
/// which instruction to apply and when the run ends.
pub struct Simulation {
    config: SimulationConfig,
    phase: Phase,
    ticks: u64,
}

impl Simulation {
    pub closed spec fn spec_config(&self) -> SimulationConfig {
        self.config
    }

    pub closed spec fn spec_phase(&self) -> Phase {
        self.phase
    }

    pub closed spec fn spec_ticks(&self) -> nat {
        self.ticks as nat
    }

    /// Whether the update tick just counted exhausts the budget.
    pub open spec fn budget_reached(&self, ticks: nat) -> bool {
        match self.spec_config().tick_budget {
            Some(n) => ticks >= n,
            None => false,
        }
    }

    /// A run that has not ticked yet.
    pub fn new(config: SimulationConfig) -> (s: Self)
        ensures
            s.spec_config() == config,
            s.spec_phase() == Phase::Running,
            s.spec_ticks() == 0,
    {
        Simulation { config, phase: Phase::Running, ticks: 0 }
    }

    pub fn phase(&self) -> (p: Phase)
        ensures
            p == self.spec_phase(),
    {
        self.phase
    }

    pub fn is_running(&self) -> (r: bool)
        ensures
            r == (self.spec_phase() == Phase::Running),
    {
        self.phase == Phase::Running
    }

    pub fn ticks(&self) -> (r: u64)
        ensures
            r == self.spec_ticks(),
    {
        self.ticks
    }

    pub fn config(&self) -> (c: SimulationConfig)
        ensures
            c == self.spec_config(),
    {
        self.config
    }

    /// Ends the run: publishes the single terminal update and moves to `Done`.
    fn finish(&mut self, hub: &mut BroadcastHub) -> (r: Result<(), LoopError>)
        requires
            old(hub).wf(),
            old(hub).log().len() < u64::MAX,
        ensures
            final(hub).wf(),
            final(self).spec_config() == old(self).spec_config(),
            final(self).spec_ticks() == old(self).spec_ticks(),
            final(self).spec_phase() == Phase::Done,
            final(hub).spec_closed(),
            final(hub).spec_retention() == old(hub).spec_retention(),
            r is Ok <==> !old(hub).spec_closed(),
            r is Ok ==> final(hub).log() == old(hub).log().push(terminal_view()),
            r is Err ==> r == Err::<(), LoopError>(LoopError::ChannelClosed) && final(hub).log()
                == old(hub).log(),
    {
        self.phase = Phase::Terminating;
        let u = SimulationUpdate::terminal_update();
        let res = hub.publish(u);
        self.phase = Phase::Done;
        match res {
            Ok(()) => {
                assert(final(hub).log() =~= old(hub).log().push(terminal_view()));
                Ok(())
            },
            Err(HubError::Closed) => Err(LoopError::ChannelClosed),
        }
    }

    /// Serves an update-timer firing, after the caller has stepped the physics once:
    /// applies the floor reset to the controlled body, publishes its snapshot, and, when
    /// the tick budget is exhausted, publishes the terminal update and ends the run.
    /// Publishing never waits on subscribers.
    pub fn on_update_tick(&mut self, body: &mut BodyState, hub: &mut BroadcastHub) -> (r: Result<
        (),
        LoopError,
    >)
        requires
            old(self).spec_phase() == Phase::Running,
            old(hub).wf(),
            old(hub).log().len() < u64::MAX - 1,
        ensures
            final(hub).wf(),
            final(hub).spec_retention() == old(hub).spec_retention(),
            final(self).spec_config() == old(self).spec_config(),
            *final(body) == after_floor_check(
                *old(body),
                old(self).spec_config().floor as int,
                old(self).spec_config().spawn,
            ),
            r is Ok <==> !old(hub).spec_closed(),
            r is Err ==> r == Err::<(), LoopError>(LoopError::ChannelClosed) && final(hub).log()
                == old(hub).log() && final(self).spec_phase() == Phase::Done,
            r is Ok ==> final(self).spec_ticks() == (if old(self).spec_ticks() < u64::MAX {
                old(self).spec_ticks() + 1
            } else {
                old(self).spec_ticks()
            }),
            r is Ok && !old(self).budget_reached(final(self).spec_ticks()) ==> final(self).spec_phase()
                == Phase::Running && !final(hub).spec_closed() && final(hub).log() == old(
                hub).log().push(tick_update(*final(body), old(self).spec_config().body_id)),
            r is Ok && old(self).budget_reached(final(self).spec_ticks()) ==> final(self).spec_phase()
                == Phase::Done && final(hub).spec_closed() && final(hub).log() == old(hub).log().push(
                tick_update(*final(body), old(self).spec_config().body_id),
            ).push(terminal_view()),
    {
        reset_if_fallen(body, self.config.floor, self.config.spawn);
        let mut snapshots: Vec<SpatialSnapshot> = Vec::new();
        snapshots.push(snapshot(body, self.config.body_id));
        let u = SimulationUpdate::from_snapshots(snapshots);
        assert(u@ =~= tick_update(*body, self.config.body_id));
        match hub.publish(u) {
            Ok(()) => {},
            Err(HubError::Closed) => {
                self.phase = Phase::Done;
                return Err(LoopError::ChannelClosed);
            },
        }
        if self.ticks < u64::MAX {
            self.ticks = self.ticks + 1;
        }
        let exhausted = match self.config.tick_budget {
            Some(n) => self.ticks >= n,
            None => false,
        };
        if exhausted {
            self.finish(hub)
        } else {
            Ok(())
        }
    }

    /// Serves an instruction-timer firing: takes at most one pending instruction without
    /// waiting, applies it to the controlled body, then applies the floor reset. An
    /// unsupported instruction is reported, not fatal. Nothing is published.
    pub fn on_instruction_tick(&mut self, body: &mut BodyState, queue: &mut IntakeQueue) -> (r:
        InstructionOutcome)
        requires
            old(self).spec_phase() == Phase::Running,
            old(queue).wf(),
        ensures
            *final(self) == *old(self),
            final(queue).wf(),
            final(queue).spec_capacity() == old(queue).spec_capacity(),
            old(queue)@.len() == 0 ==> r == InstructionOutcome::Idle && final(queue)@ == old(
                queue)@ && *final(body) == after_floor_check(
                *old(body),
                old(self).spec_config().floor as int,
                old(self).spec_config().spawn,
            ),
            old(queue)@.len() > 0 ==> final(queue)@ == old(queue)@.drop_first() && *final(body)
                == after_floor_check(
                applied(*old(body), old(queue)@[0]),
                old(self).spec_config().floor as int,
                old(self).spec_config().spawn,
            ) && (if supported(old(queue)@[0]) {
                r == InstructionOutcome::Applied(old(queue)@[0])
            } else {
                r == InstructionOutcome::Rejected(InstructionError::NotImplemented(old(queue)@[0]))
            }),
    {
        let outcome = match queue.dequeue_nonblocking() {
            None => InstructionOutcome::Idle,
            Some(ins) => match apply_instruction(body, ins) {
                Ok(()) => InstructionOutcome::Applied(ins),
                Err(e) => InstructionOutcome::Rejected(e),
            },
        };
        reset_if_fallen(body, self.config.floor, self.config.spawn);
        outcome
    }

    /// Ends the run on an external stop signal: publishes the single terminal update.
    pub fn stop(&mut self, hub: &mut BroadcastHub) -> (r: Result<(), LoopError>)
        requires
            old(self).spec_phase() == Phase::Running,
            old(hub).wf(),
            old(hub).log().len() < u64::MAX,
        ensures
            final(hub).wf(),
            final(hub).spec_retention() == old(hub).spec_retention(),
            final(self).spec_phase() == Phase::Done,
            final(hub).spec_closed(),
            r is Ok <==> !old(hub).spec_closed(),
            r is Ok ==> final(hub).log() == old(hub).log().push(terminal_view()),
            r is Err ==> r == Err::<(), LoopError>(LoopError::ChannelClosed) && final(hub).log()
                == old(hub).log(),
    {
        self.finish(hub)
    }
}

/// A run that ends, by its budget or a stop, on a hub that was open publishes exactly
/// one terminal update, and it is the last update of the broadcast.
pub proof fn lemma_run_ends_with_one_terminal(before: BroadcastHub, after: BroadcastHub, last_tick: Option<UpdateView>)
    requires
        before.wf(),
        !before.spec_closed(),
        after.wf(),
        last_tick matches Some(u) ==> !is_terminal(u),
        after.log() == (match last_tick {
            Some(u) => before.log().push(u),
            None => before.log(),
        }).push(terminal_view()),
    ensures
        after.spec_closed(),
        forall|i: int|
            0 <= i < after.log().len() ==> (is_terminal(#[trigger] after.log()[i]) <==> i
                == after.log().len() - 1),
{
    lemma_terminal_is_last(before, 0);
    lemma_terminal_is_last(after, 0);
    assert forall|i: int| 0 <= i < after.log().len() implies (is_terminal(
        #[trigger] after.log()[i],
    ) <==> i == after.log().len() - 1) by {
        if i < before.log().len() {
            assert(after.log()[i] == before.log()[i]);
        }
    }
}

} // verus!
