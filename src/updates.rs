use vstd::prelude::*;

use crate::body::{BodyState, Quat, Vec3};

verus! {

/// The pose of one tracked body at the instant a tick completed.
#[derive(Clone, Copy, Debug, PartialEq, Eq, Structural)]
pub struct SpatialSnapshot {
    pub id: u64,
    pub position: Vec3,
    pub orientation: Quat,
}

/// One message of the broadcast: the snapshots of a tick, or, with `terminal` set to
/// `Some(true)`, the last message of a run.
#[derive(Debug)]
pub struct SimulationUpdate {
    pub snapshots: Vec<SpatialSnapshot>,
    pub terminal: Option<bool>,
}

/// What an update holds, as a mathematical value.
pub struct UpdateView {
    pub snapshots: Seq<SpatialSnapshot>,
    pub terminal: Option<bool>,
}

impl View for SimulationUpdate {
    type V = UpdateView;

    open spec fn view(&self) -> UpdateView {
        UpdateView { snapshots: self.snapshots@, terminal: self.terminal }
    }
}

pub open spec fn is_terminal(u: UpdateView) -> bool {
    u.terminal == Some(true)
}

pub open spec fn snapshot_of(b: BodyState, id: u64) -> SpatialSnapshot {
    SpatialSnapshot { id, position: b.position, orientation: b.orientation }
}

/// The snapshot of `b` under the stable identity `id`.
pub fn snapshot(b: &BodyState, id: u64) -> (s: SpatialSnapshot)
    ensures
        s == snapshot_of(*b, id),
{
    SpatialSnapshot { id, position: b.position, orientation: b.orientation }
}

impl SimulationUpdate {
    /// The update that ends a run: no snapshots, marked terminal.
    pub fn terminal_update() -> (u: Self)
        ensures
            u@.snapshots == Seq::<SpatialSnapshot>::empty(),
            u@.terminal == Some(true),
    {
        SimulationUpdate { snapshots: Vec::new(), terminal: Some(true) }
    }

    /// The ordinary update of one tick, holding one snapshot per tracked body, in order.
    pub fn from_snapshots(snapshots: Vec<SpatialSnapshot>) -> (u: Self)
        ensures
            u@.snapshots == snapshots@,
            u@.terminal == None::<bool>,
    {
        SimulationUpdate { snapshots, terminal: None }
    }

    pub fn is_terminal(&self) -> (r: bool)
        ensures
            r == is_terminal(self@),
    {
        match self.terminal {
            Some(t) => t,
            None => false,
        }
    }

    /// A copy holding the same snapshots and flag.
    pub fn duplicate(&self) -> (r: Self)
        ensures
            r@ == self@,
    {
        let mut snapshots: Vec<SpatialSnapshot> = Vec::new();
        let mut i: usize = 0;
        while i < self.snapshots.len()
            invariant
                i <= self.snapshots@.len(),
                snapshots@ == self.snapshots@.subrange(0, i as int),
            decreases self.snapshots@.len() - i,
        {
            snapshots.push(self.snapshots[i]);
            i = i + 1;
        }
        assert(snapshots@ =~= self.snapshots@);
        SimulationUpdate { snapshots, terminal: self.terminal }
    }
}

} // verus!
