//! The compute-pipeline orchestration state machine and the dispatch-grid
//! computation. Each frame tick first advances the state from the two
//! pipelines' readiness (`update`), then decides which program to dispatch
//! and over which workgroup grid (`run`).

use vstd::prelude::*;

use crate::SIMULATION_HEIGHT;
use crate::SIMULATION_WIDTH;
use crate::WORKGROUP_SIZE;

verus! {

/// Orchestrator state: advances monotonically `Loading -> Init -> Update`;
/// `Update` is terminal.
#[derive(Clone, Copy, PartialEq, Eq, Structural, Debug)]
pub enum MandelbrotState {
    Loading,
    Init,
    Update,
}

/// Which compute program a dispatch uses.
#[derive(Clone, Copy, PartialEq, Eq, Structural, Debug)]
pub enum DispatchProgram {
    Init,
    Update,
}

/// One recorded compute dispatch: the program to bind and the workgroup
/// grid dimensions.
#[derive(Clone, Copy, PartialEq, Eq, Structural, Debug)]
pub struct DispatchCall {
    pub program: DispatchProgram,
    pub x: u32,
    pub y: u32,
    pub z: u32,
}

/// The per-tick transition function of the orchestrator: in `Loading` wait
/// for the init program, in `Init` wait for the update program, and stay in
/// `Update` forever.
pub open spec fn spec_step(s: MandelbrotState, init_ready: bool, update_ready: bool) -> MandelbrotState {
    match s {
        MandelbrotState::Loading => if init_ready {
            MandelbrotState::Init
        } else {
            MandelbrotState::Loading
        },
        MandelbrotState::Init => if update_ready {
            MandelbrotState::Update
        } else {
            MandelbrotState::Init
        },
        MandelbrotState::Update => MandelbrotState::Update,
    }
}

/// Number of tiles of size `tile` needed to cover `n` units: the ceiling of
/// `n / tile`.
pub open spec fn spec_grid_dim(n: int, tile: int) -> int
    recommends
        tile > 0,
{
    if n % tile == 0 {
        n / tile
    } else {
        n / tile + 1
    }
}

/// The dispatch that the orchestrator records in state `s`: nothing while
/// loading, the init program on the tick(s) spent in `Init`, and the update
/// program from then on, always over the grid that covers the simulation
/// resolution.
pub open spec fn spec_dispatch(s: MandelbrotState) -> Option<DispatchCall> {
    match s {
        MandelbrotState::Loading => None,
        MandelbrotState::Init => Some(
            DispatchCall {
                program: DispatchProgram::Init,
                x: spec_grid_dim(SIMULATION_WIDTH as int, WORKGROUP_SIZE as int) as u32,
                y: spec_grid_dim(SIMULATION_HEIGHT as int, WORKGROUP_SIZE as int) as u32,
                z: 1,
            },
        ),
        MandelbrotState::Update => Some(
            DispatchCall {
                program: DispatchProgram::Update,
                x: spec_grid_dim(SIMULATION_WIDTH as int, WORKGROUP_SIZE as int) as u32,
                y: spec_grid_dim(SIMULATION_HEIGHT as int, WORKGROUP_SIZE as int) as u32,
                z: 1,
            },
        ),
    }
}

/// The workgroup grid covering a `width x height` simulation: the ceiling of
/// each dimension divided by the workgroup tile size, with one layer.
pub fn workgroup_grid(width: u32, height: u32) -> (r: (u32, u32, u32))
    ensures
        r.0 == spec_grid_dim(width as int, WORKGROUP_SIZE as int),
        r.1 == spec_grid_dim(height as int, WORKGROUP_SIZE as int),
        r.2 == 1,
{
    let x = width / WORKGROUP_SIZE + (if width % WORKGROUP_SIZE == 0 { 0 } else { 1 });
    let y = height / WORKGROUP_SIZE + (if height % WORKGROUP_SIZE == 0 { 0 } else { 1 });
    (x, y, 1)
}

/// The orchestrator: holds the current pipeline state and, once per tick,
/// advances it and decides the dispatch.
#[derive(Clone, Copy, PartialEq, Eq, Structural, Debug)]
pub struct MandelbrotNode {
    pub state: MandelbrotState,
}

impl Default for MandelbrotNode {
    /// A fresh orchestrator starts in `Loading`.
    fn default() -> (r: Self)
        ensures
            r.state == MandelbrotState::Loading,
    {
        MandelbrotNode { state: MandelbrotState::Loading }
    }
}

impl MandelbrotNode {
    /// Advance phase of one tick: promote the state according to which
    /// compute programs have finished compiling.
    pub fn update(&mut self, init_ready: bool, update_ready: bool)
        ensures
            final(self).state == spec_step(old(self).state, init_ready, update_ready),
    {
        match self.state {
            MandelbrotState::Loading => {
                if init_ready {
                    self.state = MandelbrotState::Init;
                }
            },
            MandelbrotState::Init => {
                if update_ready {
                    self.state = MandelbrotState::Update;
                }
            },
            MandelbrotState::Update => {},
        }
    }

    /// Dispatch phase of one tick: which program to run, if any, and the
    /// workgroup grid covering the simulation resolution.
    pub fn run(&self) -> (r: Option<DispatchCall>)
        ensures
            r == spec_dispatch(self.state),
    {
        match self.state {
            MandelbrotState::Loading => None,
            MandelbrotState::Init => {
                let (x, y, z) = workgroup_grid(SIMULATION_WIDTH, SIMULATION_HEIGHT);
                Some(DispatchCall { program: DispatchProgram::Init, x, y, z })
            },
            MandelbrotState::Update => {
                let (x, y, z) = workgroup_grid(SIMULATION_WIDTH, SIMULATION_HEIGHT);
                Some(DispatchCall { program: DispatchProgram::Update, x, y, z })
            },
        }
    }
}

/// Rank of a state in the `Loading -> Init -> Update` progression.
pub open spec fn state_rank(s: MandelbrotState) -> int {
    match s {
        MandelbrotState::Loading => 0,
        MandelbrotState::Init => 1,
        MandelbrotState::Update => 2,
    }
}

/// The state advances monotonically: one tick never moves the orchestrator
/// backwards, and each state is entered from its predecessor only, so each
/// promotion happens exactly once.
pub proof fn lemma_step_monotonic(s: MandelbrotState, init_ready: bool, update_ready: bool)
    ensures
        state_rank(spec_step(s, init_ready, update_ready)) >= state_rank(s),
        spec_step(s, init_ready, update_ready) == MandelbrotState::Loading ==> s
            == MandelbrotState::Loading,
        spec_step(s, init_ready, update_ready) == MandelbrotState::Init ==> (s
            == MandelbrotState::Loading && init_ready) || s == MandelbrotState::Init,
{
}

/// `Update` is terminal and idempotent: further readiness signals cause no
/// transition.
pub proof fn lemma_update_terminal(init_ready: bool, update_ready: bool)
    ensures
        spec_step(MandelbrotState::Update, init_ready, update_ready) == MandelbrotState::Update,
{
}

/// The dispatch grid covers the whole simulation: every pixel row and column
/// falls inside some tile, and no whole tile row or column is wasted.
pub proof fn lemma_grid_covers(n: u32)
    ensures
        spec_grid_dim(n as int, WORKGROUP_SIZE as int) * (WORKGROUP_SIZE as int) >= n,
        n > 0 ==> (spec_grid_dim(n as int, WORKGROUP_SIZE as int) - 1) * (WORKGROUP_SIZE as int)
            < n,
{
    vstd::arithmetic::div_mod::lemma_fundamental_div_mod(n as int, WORKGROUP_SIZE as int);
}

} // verus!
