//! Session-long guarantees of the dispatch state machine, proved over whole
//! runs: one `FrameInput` per frame, each frame first advancing the machine
//! and then taking its dispatch decision.

use vstd::prelude::*;

use crate::binder::BoundResourceSet;
use crate::dispatch::{
    advance_step, initial_node, node_wf, policy_grid, record_spec, state_rank, DispatchCommand,
    DispatchState, GridPolicy, NodeSnapshot,
};
use crate::pipeline::StatusTag;

verus! {

/// What one frame feeds the state machine: the two polled compile statuses
/// and the bound resource set, if it exists this frame.
pub struct FrameInput {
    pub init: StatusTag,
    pub update: StatusTag,
    pub bound: Option<BoundResourceSet>,
}

/// The machine's snapshot after running every frame of `inputs` from `n`.
pub open spec fn run_node(n: NodeSnapshot, inputs: Seq<FrameInput>) -> NodeSnapshot
    decreases inputs.len(),
{
    if inputs.len() == 0 {
        n
    } else {
        let prev = run_node(n, inputs.drop_last());
        let inp = inputs.last();
        advance_step(prev, inp.init, inp.update, inp.bound is Some)
    }
}

/// Frame `k`'s dispatch decision in a run from `n`: the machine advances on
/// frame `k`'s input first, then decides with frame `k`'s bound resources.
pub open spec fn frame_command(
    n: NodeSnapshot,
    inputs: Seq<FrameInput>,
    k: int,
    policy: GridPolicy,
    workgroup_size: u32,
) -> Option<DispatchCommand>
    recommends
        0 <= k < inputs.len(),
        workgroup_size >= 1,
{
    record_spec(run_node(n, inputs.take(k + 1)), inputs[k].bound, policy, workgroup_size)
}

/// Whether frame `j` of a session run dispatches the `init` program.
pub open spec fn dispatches_init(
    inputs: Seq<FrameInput>,
    j: int,
    policy: GridPolicy,
    workgroup_size: u32,
) -> bool {
    frame_command(initial_node(), inputs, j, policy, workgroup_size)
        matches Some(c) && c.program is Init
}

/// Whether frame `j` of a session run dispatches the `update` program.
pub open spec fn dispatches_update(
    inputs: Seq<FrameInput>,
    j: int,
    policy: GridPolicy,
    workgroup_size: u32,
) -> bool {
    frame_command(initial_node(), inputs, j, policy, workgroup_size)
        matches Some(c) && c.program is Update
}

/// One step keeps the machine well formed and moves it only forward: the
/// state's rank never drops, a submitted `init` stays submitted, and a
/// halted machine stays exactly as it is.
pub proof fn lemma_step_monotone(n: NodeSnapshot, init: StatusTag, update: StatusTag, b: bool)
    requires
        node_wf(n),
    ensures
        node_wf(advance_step(n, init, update, b)),
        state_rank(advance_step(n, init, update, b).state) >= state_rank(n.state),
        n.init_submitted ==> advance_step(n, init, update, b).init_submitted,
        n.failed ==> advance_step(n, init, update, b) == n,
{
}

/// A whole run keeps the machine well formed and moves it only forward, and
/// a machine halted at the start stays untouched by any run.
pub proof fn lemma_run_monotone(n: NodeSnapshot, inputs: Seq<FrameInput>)
    requires
        node_wf(n),
    ensures
        node_wf(run_node(n, inputs)),
        state_rank(run_node(n, inputs).state) >= state_rank(n.state),
        n.init_submitted ==> run_node(n, inputs).init_submitted,
        n.failed ==> run_node(n, inputs) == n,
    decreases inputs.len(),
{
    if inputs.len() > 0 {
        lemma_run_monotone(n, inputs.drop_last());
        let prev = run_node(n, inputs.drop_last());
        let inp = inputs.last();
        lemma_step_monotone(prev, inp.init, inp.update, inp.bound is Some);
    }
}

/// Running one more frame of `inputs` is one step of the machine.
pub proof fn lemma_run_unfold(n: NodeSnapshot, inputs: Seq<FrameInput>, k: int)
    requires
        0 <= k < inputs.len(),
    ensures
        run_node(n, inputs.take(k + 1)) == advance_step(
            run_node(n, inputs.take(k)),
            inputs[k].init,
            inputs[k].update,
            inputs[k].bound is Some,
        ),
{
    assert(inputs.take(k + 1).drop_last() =~= inputs.take(k));
    assert(inputs.take(k + 1).last() == inputs[k]);
}

/// A run from the end of a shorter run is the longer run.
pub proof fn lemma_run_compose(n: NodeSnapshot, a: Seq<FrameInput>, b: Seq<FrameInput>)
    ensures
        run_node(n, a + b) == run_node(run_node(n, a), b),
    decreases b.len(),
{
    if b.len() == 0 {
        assert(a + b =~= a);
    } else {
        lemma_run_compose(n, a, b.drop_last());
        assert((a + b).drop_last() =~= a + b.drop_last());
        assert((a + b).last() == b.last());
    }
}

/// The state machine never regresses: from frame to frame of any session
/// run, the state's rank along `Loading` → `Init` → `Update` only grows.
pub proof fn lemma_state_never_regresses(inputs: Seq<FrameInput>, k: int)
    requires
        0 <= k < inputs.len(),
    ensures
        state_rank(run_node(initial_node(), inputs.take(k + 1)).state) >= state_rank(
            run_node(initial_node(), inputs.take(k)).state,
        ),
{
    lemma_run_monotone(initial_node(), inputs.take(k));
    lemma_run_unfold(initial_node(), inputs, k);
    let prev = run_node(initial_node(), inputs.take(k));
    lemma_step_monotone(prev, inputs[k].init, inputs[k].update, inputs[k].bound is Some);
}

/// Once a compile failure halts the machine, no later frame dispatches
/// anything: every command from that point on is `None`.
pub proof fn lemma_failure_prevents_dispatch(
    inputs: Seq<FrameInput>,
    k: int,
    m: int,
    policy: GridPolicy,
    workgroup_size: u32,
)
    requires
        0 <= k <= m < inputs.len(),
        run_node(initial_node(), inputs.take(k)).failed,
    ensures
        frame_command(initial_node(), inputs, m, policy, workgroup_size) is None,
{
    let halted = run_node(initial_node(), inputs.take(k));
    assert(inputs.take(m + 1) =~= inputs.take(k) + inputs.take(m + 1).skip(k));
    lemma_run_compose(initial_node(), inputs.take(k), inputs.take(m + 1).skip(k));
    assert(node_wf(initial_node()));
    lemma_run_monotone(initial_node(), inputs.take(k));
    lemma_run_monotone(halted, inputs.take(m + 1).skip(k));
}

/// In the `Update` state the phase flips every frame — 1, 0, 1, 0, … from
/// the frame `Update` is entered — while the machine stays in `Update`.
pub proof fn lemma_phase_alternates(
    n: NodeSnapshot,
    init: StatusTag,
    update: StatusTag,
    b: bool,
    p: u32,
)
    requires
        node_wf(n),
        !n.failed,
        n.state == (DispatchState::Update { phase: p }),
    ensures
        advance_step(n, init, update, b).state == (DispatchState::Update {
            phase: (1 - p) as u32,
        }),
{
}

/// The ping-pong phase never selects the program: an unhalted machine in
/// `Update` at any phase, given the bound resource set, dispatches the
/// `update` program, with the grid the policy yields.
pub proof fn lemma_phase_never_selects_program(
    n: NodeSnapshot,
    bound: BoundResourceSet,
    policy: GridPolicy,
    workgroup_size: u32,
)
    requires
        !n.failed,
        n.state is Update,
    ensures
        record_spec(n, Some(bound), policy, workgroup_size) matches Some(c)
            && c.program is Update
            && c.grid == policy_grid(policy, workgroup_size)
            && c.resources == bound,
{
}

/// No frame dispatches anything before the bound resource set exists.
pub proof fn lemma_no_dispatch_without_resources(
    n: NodeSnapshot,
    policy: GridPolicy,
    workgroup_size: u32,
)
    ensures
        record_spec(n, None, policy, workgroup_size) is None,
{
}

/// Whenever the machine has recorded the `init` program as submitted, some
/// earlier frame of the run really dispatched it.
pub proof fn lemma_submitted_init_was_dispatched(
    inputs: Seq<FrameInput>,
    k: int,
    policy: GridPolicy,
    workgroup_size: u32,
)
    requires
        0 <= k <= inputs.len(),
        run_node(initial_node(), inputs.take(k)).init_submitted,
    ensures
        exists|j: int|
            0 <= j < k && #[trigger] dispatches_init(inputs, j, policy, workgroup_size),
    decreases k,
{
    if k == 0 {
        assert(inputs.take(0) =~= Seq::<FrameInput>::empty());
    } else {
        lemma_run_unfold(initial_node(), inputs, k - 1);
        let prev = run_node(initial_node(), inputs.take(k - 1));
        let cur = run_node(initial_node(), inputs.take(k));
        if prev.init_submitted {
            lemma_submitted_init_was_dispatched(inputs, k - 1, policy, workgroup_size);
            let j0 = choose|j: int|
                0 <= j < k - 1 && #[trigger] dispatches_init(inputs, j, policy, workgroup_size);
            assert(dispatches_init(inputs, j0, policy, workgroup_size));
        } else {
            assert(cur.state is Init && !cur.failed && inputs[k - 1].bound is Some);
            assert(dispatches_init(inputs, k - 1, policy, workgroup_size));
        }
    }
}

/// The ordering guarantee of a session: the `update` program is never
/// dispatched unless the `init` program was dispatched in a strictly
/// earlier frame.
pub proof fn lemma_update_dispatched_after_init(
    inputs: Seq<FrameInput>,
    k: int,
    policy: GridPolicy,
    workgroup_size: u32,
)
    requires
        0 <= k < inputs.len(),
        dispatches_update(inputs, k, policy, workgroup_size),
    ensures
        exists|j: int|
            0 <= j < k && #[trigger] dispatches_init(inputs, j, policy, workgroup_size),
{
    lemma_run_unfold(initial_node(), inputs, k);
    assert(node_wf(initial_node()));
    lemma_run_monotone(initial_node(), inputs.take(k));
    let prev = run_node(initial_node(), inputs.take(k));
    let cur = run_node(initial_node(), inputs.take(k + 1));
    assert(cur.state is Update);
    assert(prev.init_submitted);
    lemma_submitted_init_was_dispatched(inputs, k, policy, workgroup_size);
}

} // verus!
