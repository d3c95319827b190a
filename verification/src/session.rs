//! A whole simulation session: the configuration, the pipeline registry, the
//! resource binder and the dispatch node, driven once per frame in a fixed
//! order — record compiler reports, attempt the binding, advance the state
//! machine, then decide the frame's dispatch.

use vstd::prelude::*;

use crate::binder::{
    bind_step_outcome, BindOutcome, BoundResourceSet, BufferResolution, ResourceBinder,
    CONFIG_SLOT, STORAGE_SLOT,
};
use crate::config::ParticleConfig;
use crate::dispatch::{
    advance_step, initial_node, node_wf, record_spec, state_rank, DispatchCommand, DispatchNode,
    DispatchState, GridPolicy, NodeSnapshot,
};
use crate::pipeline::{
    status_tag, CompileDiagnostic, CompileReport, CompileStatus, PipelineRegistry, ProgramKind,
};

verus! {

/// What one frame of the session produced: how the binding attempt went and
/// the dispatch command, if this frame dispatches at all.
pub struct FrameOutput {
    pub bind: BindOutcome,
    pub command: Option<DispatchCommand>,
}

/// One simulation session, owning every component of the orchestration
/// core.  The configuration is fixed at construction and no method of the
/// session ever changes it.
pub struct Session {
    config: ParticleConfig,
    registry: PipelineRegistry,
    binder: ResourceBinder,
    node: DispatchNode,
    policy: GridPolicy,
    workgroup_size: u32,
}

impl Session {
    /// The configuration the session was set up with.
    pub closed spec fn spec_config(&self) -> ParticleConfig {
        self.config
    }

    /// The dispatch state machine's snapshot.
    pub closed spec fn spec_node(&self) -> NodeSnapshot {
        self.node.model()
    }

    /// The bound resource set, once built.
    pub closed spec fn spec_bound(&self) -> Option<BoundResourceSet> {
        self.binder.spec_bound()
    }

    /// The configuration buffer every dispatch binds at slot 101.
    pub closed spec fn spec_config_buffer(&self) -> u64 {
        self.binder.spec_config_buffer()
    }

    /// The grid policy dispatches are sized by.
    pub closed spec fn spec_policy(&self) -> GridPolicy {
        self.policy
    }

    /// The workgroup size dispatches are sized by.
    pub closed spec fn spec_workgroup_size(&self) -> u32 {
        self.workgroup_size
    }

    /// The shader module path the session compiles from.
    pub closed spec fn spec_shader_path(&self) -> Seq<char> {
        self.registry.spec_shader_path()
    }

    /// The status recorded for `program`.
    pub closed spec fn spec_status(&self, program: ProgramKind) -> CompileStatus {
        *self.registry.spec_status(program)
    }

    /// The session's invariant: the state machine and any built resource set
    /// are well formed, a one-dimensional policy covers exactly the
    /// configured particle count, any recorded failure names the session's
    /// shader path, and the machine is halted only on a recorded failure.
    pub open spec fn wf(&self) -> bool {
        &&& node_wf(self.spec_node())
        &&& (self.spec_bound() matches Some(b) ==> b.wf())
        &&& self.spec_workgroup_size() >= 1
        &&& (self.spec_policy() matches GridPolicy::OneDim { particle_count } ==> particle_count
            == self.spec_config().particle_count)
        &&& (self.spec_status(ProgramKind::Init) matches CompileStatus::Failed(d)
            ==> d.shader_path@ == self.spec_shader_path())
        &&& (self.spec_status(ProgramKind::Update) matches CompileStatus::Failed(d)
            ==> d.shader_path@ == self.spec_shader_path())
        &&& (self.spec_node().failed ==> (self.spec_status(ProgramKind::Init) is Failed
            || self.spec_status(ProgramKind::Update) is Failed))
    }

    /// Sets up a session under the one-dimensional sizing policy: dispatches
    /// cover `particle_count` particles in workgroups of `workgroup_size`.
    pub fn new_1d(
        shader_path: String,
        particle_count: u32,
        config_buffer: u64,
        workgroup_size: u32,
    ) -> (r: Session)
        requires
            workgroup_size >= 1,
        ensures
            r.wf(),
            r.spec_config() == (ParticleConfig { particle_count }),
            r.spec_node() == initial_node(),
            r.spec_bound() is None,
            r.spec_policy() == (GridPolicy::OneDim { particle_count }),
            r.spec_config_buffer() == config_buffer,
            r.spec_workgroup_size() == workgroup_size,
            r.spec_shader_path() == shader_path@,
            r.spec_status(ProgramKind::Init) is Pending,
            r.spec_status(ProgramKind::Update) is Pending,
    {
        Session {
            config: ParticleConfig::new(particle_count),
            registry: PipelineRegistry::new(shader_path),
            binder: ResourceBinder::new(config_buffer),
            node: DispatchNode::new(),
            policy: GridPolicy::OneDim { particle_count },
            workgroup_size,
        }
    }

    /// Sets up a session under the two-dimensional sizing policy: dispatches
    /// cover a `display_width` by `display_height` raster in square
    /// workgroup tiles of `workgroup_size`.
    pub fn new_2d(
        shader_path: String,
        particle_count: u32,
        config_buffer: u64,
        display_width: u32,
        display_height: u32,
        workgroup_size: u32,
    ) -> (r: Session)
        requires
            workgroup_size >= 1,
        ensures
            r.wf(),
            r.spec_config() == (ParticleConfig { particle_count }),
            r.spec_node() == initial_node(),
            r.spec_bound() is None,
            r.spec_policy() == (GridPolicy::TwoDim { display_width, display_height }),
            r.spec_config_buffer() == config_buffer,
            r.spec_workgroup_size() == workgroup_size,
            r.spec_shader_path() == shader_path@,
            r.spec_status(ProgramKind::Init) is Pending,
            r.spec_status(ProgramKind::Update) is Pending,
    {
        Session {
            config: ParticleConfig::new(particle_count),
            registry: PipelineRegistry::new(shader_path),
            binder: ResourceBinder::new(config_buffer),
            node: DispatchNode::new(),
            policy: GridPolicy::TwoDim { display_width, display_height },
            workgroup_size,
        }
    }

    /// The configuration, unchanged since setup.
    pub fn config(&self) -> (r: ParticleConfig)
        ensures
            r == self.spec_config(),
    {
        self.config
    }

    /// The current dispatch state of the machine.
    pub fn dispatch_state(&self) -> (r: DispatchState)
        ensures
            r == self.spec_node().state,
    {
        self.node.current_state()
    }

    /// The bound resource set, once it has been built.
    pub fn bound_resources(&self) -> (r: Option<BoundResourceSet>)
        ensures
            r == self.spec_bound(),
    {
        self.binder.bound_resources()
    }

    /// The diagnostic of the compile failure that halted the machine, if one
    /// has: it always names the session's shader path.  While the machine
    /// runs, there is none to surface.
    pub fn failure_diagnostic(&self) -> (r: Option<&CompileDiagnostic>)
        requires
            self.wf(),
        ensures
            self.spec_node().failed ==> r is Some,
            r matches Some(d) ==> d.shader_path@ == self.spec_shader_path(),
    {
        if !self.node.has_failed() {
            return None;
        }
        match self.registry.compile_status(ProgramKind::Init) {
            CompileStatus::Failed(d) => Some(d),
            _ => match self.registry.compile_status(ProgramKind::Update) {
                CompileStatus::Failed(d) => Some(d),
                _ => None,
            },
        }
    }

    /// One frame of the session, in the prescribed order: record what the
    /// out-of-band compiler reported since the last frame, attempt the
    /// binding, advance the state machine on the new statuses, then take
    /// this frame's dispatch decision.  The configuration never changes; the
    /// state machine never moves backwards; a command is only produced with
    /// the bound resource set it binds; a halted machine dispatches nothing.
    pub fn frame(
        &mut self,
        init_report: Option<CompileReport>,
        update_report: Option<CompileReport>,
        resolution: BufferResolution,
    ) -> (r: FrameOutput)
        requires
            old(self).wf(),
        ensures
            final(self).wf(),
            final(self).spec_config() == old(self).spec_config(),
            final(self).spec_policy() == old(self).spec_policy(),
            final(self).spec_workgroup_size() == old(self).spec_workgroup_size(),
            final(self).spec_shader_path() == old(self).spec_shader_path(),
            // the registry took the reports, monotonically
            init_report is None ==> final(self).spec_status(ProgramKind::Init) == old(
                self,
            ).spec_status(ProgramKind::Init),
            update_report is None ==> final(self).spec_status(ProgramKind::Update) == old(
                self,
            ).spec_status(ProgramKind::Update),
            !(old(self).spec_status(ProgramKind::Init) is Pending) ==> final(self).spec_status(
                ProgramKind::Init,
            ) == old(self).spec_status(ProgramKind::Init),
            !(old(self).spec_status(ProgramKind::Update) is Pending) ==> final(self).spec_status(
                ProgramKind::Update,
            ) == old(self).spec_status(ProgramKind::Update),
            old(self).spec_status(ProgramKind::Init) is Pending && init_report == Some(
                CompileReport::Success,
            ) ==> final(self).spec_status(ProgramKind::Init) is Ready,
            old(self).spec_status(ProgramKind::Update) is Pending && update_report == Some(
                CompileReport::Success,
            ) ==> final(self).spec_status(ProgramKind::Update) is Ready,
            old(self).spec_status(ProgramKind::Init) is Pending ==> (init_report matches Some(
                CompileReport::Failure { message },
            ) ==> (final(self).spec_status(ProgramKind::Init) matches CompileStatus::Failed(d)
                && d.shader_path@ == old(self).spec_shader_path() && d.message == message)),
            old(self).spec_status(ProgramKind::Update) is Pending ==> (update_report matches Some(
                CompileReport::Failure { message },
            ) ==> (final(self).spec_status(ProgramKind::Update) matches CompileStatus::Failed(d)
                && d.shader_path@ == old(self).spec_shader_path() && d.message == message)),
            // the binder built at most this frame's one set
            r.bind == bind_step_outcome(old(self).spec_bound() is Some, resolution),
            final(self).spec_config_buffer() == old(self).spec_config_buffer(),
            old(self).spec_bound() is Some ==> final(self).spec_bound() == old(self).spec_bound(),
            r.bind != BindOutcome::Built ==> final(self).spec_bound() == old(self).spec_bound(),
            old(self).spec_bound() is None ==> (resolution matches BufferResolution::Resolved {
                storage_buffer,
            } ==> final(self).spec_bound() == Some(
                (BoundResourceSet {
                    storage_slot: STORAGE_SLOT,
                    storage_buffer,
                    config_slot: CONFIG_SLOT,
                    config_buffer: old(self).spec_config_buffer(),
                }),
            )),
            // the machine advanced on the new statuses, then decided
            final(self).spec_node() == advance_step(
                old(self).spec_node(),
                status_tag(final(self).spec_status(ProgramKind::Init)),
                status_tag(final(self).spec_status(ProgramKind::Update)),
                final(self).spec_bound() is Some,
            ),
            r.command == record_spec(
                final(self).spec_node(),
                final(self).spec_bound(),
                old(self).spec_policy(),
                old(self).spec_workgroup_size(),
            ),
            // the session-level guarantees
            state_rank(final(self).spec_node().state) >= state_rank(old(self).spec_node().state),
            r.command matches Some(c) ==> final(self).spec_bound() == Some(c.resources),
            final(self).spec_node().failed || old(self).spec_node().failed ==> r.command is None,
    {
        if let Some(report) = init_report {
            self.registry.report(ProgramKind::Init, report);
        }
        if let Some(report) = update_report {
            self.registry.report(ProgramKind::Update, report);
        }
        let bind = self.binder.prepare(resolution);
        let bound = self.binder.bound_resources();
        self.node.advance(
            self.registry.compile_status(ProgramKind::Init),
            self.registry.compile_status(ProgramKind::Update),
            bound.is_some(),
        );
        let command = self.node.record(bound, &self.policy, self.workgroup_size);
        FrameOutput { bind, command }
    }
}

} // verus!
