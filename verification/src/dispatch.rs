//! The dispatch node: the per-frame state machine that decides which compute
//! program, if any, a frame dispatches.  It starts in `Loading` while the
//! `init` program compiles, passes through `Init` — dispatching `init` once
//! the bound resource set exists — and settles in `Update`, whose ping-pong
//! phase flips every frame while the dispatched program stays `update`.  The
//! machine only moves forward, a compile failure halts it for good, and no
//! program is ever dispatched without the bound resource set.

use vstd::prelude::*;

use crate::binder::BoundResourceSet;
use crate::grid::{div_ceil, grid_1d, grid_2d, GridSize};
use crate::pipeline::{status_tag, CompileStatus, ProgramKind, StatusTag};

verus! {

/// Where the state machine stands: waiting for the `init` program to
/// compile, dispatching `init` while `update` compiles, or dispatching
/// `update` for the rest of the session, flipping the ping-pong phase each
/// frame.
#[derive(Clone, Copy, PartialEq, Eq, Structural, Debug)]
pub enum DispatchState {
    Loading,
    Init,
    Update { phase: u32 },
}

/// How far along the one-way path `Loading` → `Init` → `Update` a state is.
pub open spec fn state_rank(s: DispatchState) -> int {
    match s {
        DispatchState::Loading => 0,
        DispatchState::Init => 1,
        DispatchState::Update { .. } => 2,
    }
}

/// A ping-pong phase is meaningful only as 0 or 1; any other value would be
/// a programming error, which the state machine never produces.
pub open spec fn state_wf(s: DispatchState) -> bool {
    s matches DispatchState::Update { phase } ==> phase <= 1
}

/// How the particle work is laid out, which decides the dispatch grid: a
/// one-dimensional array of `particle_count` particles, or a raster tied to
/// a fixed display resolution.
#[derive(Clone, Copy, PartialEq, Eq, Structural, Debug)]
pub enum GridPolicy {
    OneDim { particle_count: u32 },
    TwoDim { display_width: u32, display_height: u32 },
}

/// The grid a policy yields for workgroups of `workgroup_size` invocations.
pub open spec fn policy_grid(policy: GridPolicy, workgroup_size: u32) -> GridSize
    recommends
        workgroup_size >= 1,
{
    match policy {
        GridPolicy::OneDim { particle_count } => GridSize {
            x: div_ceil(particle_count as int, workgroup_size as int) as u32,
            y: 1,
            z: 1,
        },
        GridPolicy::TwoDim { display_width, display_height } => GridSize {
            x: (display_width as int / workgroup_size as int) as u32,
            y: (display_height as int / workgroup_size as int) as u32,
            z: 1,
        },
    }
}

/// Everything one dispatch call needs: the program to bind, the workgroup
/// grid, and the bound resource set to bind at slot-group 0.
#[derive(Clone, Copy, PartialEq, Eq, Structural, Debug)]
pub struct DispatchCommand {
    pub program: ProgramKind,
    pub grid: GridSize,
    pub resources: BoundResourceSet,
}

/// The state machine's whole observable state: the dispatch state, whether
/// the `init` program has been submitted in some frame, and whether a
/// compile failure has halted the machine.
#[derive(Clone, Copy, PartialEq, Eq, Structural, Debug)]
pub struct NodeSnapshot {
    pub state: DispatchState,
    pub init_submitted: bool,
    pub failed: bool,
}

/// A snapshot is well formed when its phase is meaningful and `Update` was
/// only ever reached after the `init` program had been submitted.
pub open spec fn node_wf(n: NodeSnapshot) -> bool {
    &&& state_wf(n.state)
    &&& n.state is Update ==> n.init_submitted
}

/// The snapshot every session starts from: `Loading`, nothing submitted, no
/// failure.
pub open spec fn initial_node() -> NodeSnapshot {
    NodeSnapshot { state: DispatchState::Loading, init_submitted: false, failed: false }
}

/// One frame's state transition, evaluated before that frame's dispatch
/// decision.  In `Loading` the `init` program's status is polled, in `Init`
/// the `update` program's; a `Failed` poll halts the machine for good.  The
/// machine leaves `Init` only once `init` was submitted in a strictly
/// earlier frame, and it enters `Update` at phase 1, flipping the phase
/// every frame thereafter.  `bound_ready` says whether the bound resource
/// set exists this frame: with it, a frame spent in `Init` submits `init`.
pub open spec fn advance_step(
    n: NodeSnapshot,
    init: StatusTag,
    update: StatusTag,
    bound_ready: bool,
) -> NodeSnapshot {
    if n.failed {
        n
    } else {
        match n.state {
            DispatchState::Loading => match init {
                StatusTag::Pending => n,
                StatusTag::Ready => NodeSnapshot {
                    state: DispatchState::Init,
                    init_submitted: n.init_submitted || bound_ready,
                    ..n
                },
                StatusTag::Failed => NodeSnapshot { failed: true, ..n },
            },
            DispatchState::Init => match update {
                StatusTag::Pending => NodeSnapshot {
                    init_submitted: n.init_submitted || bound_ready,
                    ..n
                },
                StatusTag::Ready => if n.init_submitted {
                    NodeSnapshot { state: DispatchState::Update { phase: 1 }, ..n }
                } else {
                    NodeSnapshot { init_submitted: bound_ready, ..n }
                },
                StatusTag::Failed => NodeSnapshot { failed: true, ..n },
            },
            DispatchState::Update { phase } => NodeSnapshot {
                state: DispatchState::Update {
                    phase: if phase == 0 {
                        1u32
                    } else {
                        0u32
                    },
                },
                ..n
            },
        }
    }
}

/// One frame's dispatch decision, taken after that frame's transition.  A
/// halted machine and a `Loading` frame dispatch nothing; `Init` and
/// `Update` frames dispatch their program exactly when the bound resource
/// set exists, sized by the grid policy.
pub open spec fn record_spec(
    n: NodeSnapshot,
    bound: Option<BoundResourceSet>,
    policy: GridPolicy,
    workgroup_size: u32,
) -> Option<DispatchCommand>
    recommends
        workgroup_size >= 1,
{
    if n.failed {
        None
    } else {
        match n.state {
            DispatchState::Loading => None,
            DispatchState::Init => match bound {
                Some(b) => Some(
                    (DispatchCommand {
                        program: ProgramKind::Init,
                        grid: policy_grid(policy, workgroup_size),
                        resources: b,
                    }),
                ),
                None => None,
            },
            DispatchState::Update { .. } => match bound {
                Some(b) => Some(
                    (DispatchCommand {
                        program: ProgramKind::Update,
                        grid: policy_grid(policy, workgroup_size),
                        resources: b,
                    }),
                ),
                None => None,
            },
        }
    }
}

/// The frame-graph node owning the dispatch state machine.  Each frame the
/// caller first advances it with the polled compile statuses, then records
/// the frame's dispatch decision.
pub struct DispatchNode {
    state: DispatchState,
    init_submitted: bool,
    failed: bool,
}

impl DispatchNode {
    /// The node's observable state.
    pub closed spec fn model(&self) -> NodeSnapshot {
        NodeSnapshot {
            state: self.state,
            init_submitted: self.init_submitted,
            failed: self.failed,
        }
    }

    /// A node is well formed when its snapshot is.
    pub open spec fn wf(&self) -> bool {
        node_wf(self.model())
    }

    /// A fresh node in the `Loading` state.
    pub fn new() -> (r: DispatchNode)
        ensures
            r.model() == initial_node(),
            r.wf(),
    {
        DispatchNode { state: DispatchState::Loading, init_submitted: false, failed: false }
    }

    /// The current dispatch state.
    pub fn current_state(&self) -> (r: DispatchState)
        ensures
            r == self.model().state,
    {
        self.state
    }

    /// Whether a compile failure has halted the machine.
    pub fn has_failed(&self) -> (r: bool)
        ensures
            r == self.model().failed,
    {
        self.failed
    }

    /// Advances the state machine for this frame from the two polled compile
    /// statuses and the readiness of the bound resource set; the decision of
    /// what to dispatch this same frame follows with [`Self::record`].
    pub fn advance(
        &mut self,
        init_status: &CompileStatus,
        update_status: &CompileStatus,
        bound_ready: bool,
    )
        requires
            old(self).wf(),
        ensures
            final(self).wf(),
            final(self).model() == advance_step(
                old(self).model(),
                status_tag(*init_status),
                status_tag(*update_status),
                bound_ready,
            ),
    {
        if self.failed {
            return ;
        }
        match self.state {
            DispatchState::Loading => match init_status {
                CompileStatus::Pending => {},
                CompileStatus::Ready => {
                    self.state = DispatchState::Init;
                    if bound_ready {
                        self.init_submitted = true;
                    }
                },
                CompileStatus::Failed(_) => {
                    self.failed = true;
                },
            },
            DispatchState::Init => match update_status {
                CompileStatus::Pending => {
                    if bound_ready {
                        self.init_submitted = true;
                    }
                },
                CompileStatus::Ready => {
                    if self.init_submitted {
                        self.state = DispatchState::Update { phase: 1 };
                    } else {
                        self.init_submitted = bound_ready;
                    }
                },
                CompileStatus::Failed(_) => {
                    self.failed = true;
                },
            },
            DispatchState::Update { phase } => {
                self.state = DispatchState::Update {
                    phase: if phase == 0 {
                        1
                    } else {
                        0
                    },
                };
            },
        }
    }

    /// This frame's dispatch decision: the program selected by the current
    /// state, the grid the policy yields, and the bound resource set —
    /// `None` when the machine is halted, still loading, or the bound
    /// resource set does not exist yet.  A command is only ever produced
    /// with the bound resource set it binds.
    pub fn record(
        &self,
        bound: Option<BoundResourceSet>,
        policy: &GridPolicy,
        workgroup_size: u32,
    ) -> (r: Option<DispatchCommand>)
        requires
            workgroup_size >= 1,
        ensures
            r == record_spec(self.model(), bound, *policy, workgroup_size),
            r matches Some(c) ==> bound == Some(c.resources),
            r matches Some(c) && c.program is Update ==> self.model().state is Update,
            self.model().failed ==> r is None,
    {
        if self.failed {
            return None;
        }
        let program = match self.state {
            DispatchState::Loading => {
                return None;
            },
            DispatchState::Init => ProgramKind::Init,
            DispatchState::Update { .. } => ProgramKind::Update,
        };
        match bound {
            None => None,
            Some(resources) => {
                let grid = match policy {
                    GridPolicy::OneDim { particle_count } => grid_1d(
                        *particle_count,
                        workgroup_size,
                    ),
                    GridPolicy::TwoDim { display_width, display_height } => grid_2d(
                        *display_width,
                        *display_height,
                        workgroup_size,
                    ),
                };
                Some(DispatchCommand { program, grid, resources })
            },
        }
    }
}

impl Default for DispatchNode {
    /// A fresh node in the `Loading` state, as every session starts.
    fn default() -> (r: DispatchNode)
        ensures
            r.model() == initial_node(),
            r.wf(),
    {
        DispatchNode::new()
    }
}

} // verus!
