//! The pipeline registry: it tracks the two compute programs — `init` and
//! `update` — that one shader module provides, from the moment compilation is
//! requested until the out-of-band compiler reports an outcome.  A status
//! moves from `Pending` to `Ready` or `Failed` exactly once and never
//! reverses; polling it is free and changes nothing.

use vstd::prelude::*;

use crate::binder::{BoundResourceSet, CONFIG_SLOT, STORAGE_SLOT};
use crate::config::ParticleConfig;

verus! {

/// How a buffer is bound: as read-write storage or as a read-only uniform.
#[derive(Clone, Copy, PartialEq, Eq, Structural, Debug)]
pub enum BufferBindingKind {
    StorageReadWrite,
    Uniform,
}

/// One entry of the shared bind layout: a slot, how the buffer at it is
/// bound, and the least size a bound buffer must have (0 for no bound).
#[derive(Clone, Copy, PartialEq, Eq, Structural, Debug)]
pub struct BindLayoutEntry {
    pub binding: u32,
    pub kind: BufferBindingKind,
    pub min_size: u32,
}

/// The one bind layout both compute programs share: the particle storage
/// buffer, read-write, at slot 100, and the configuration uniform, at slot
/// 101, at least one encoded configuration value long.
#[derive(Clone, Copy, PartialEq, Eq, Structural, Debug)]
pub struct BindLayout {
    pub storage: BindLayoutEntry,
    pub config: BindLayoutEntry,
}

/// The layout both programs are compiled against.
pub open spec fn spec_shared_layout() -> BindLayout {
    BindLayout {
        storage: BindLayoutEntry {
            binding: STORAGE_SLOT,
            kind: BufferBindingKind::StorageReadWrite,
            min_size: 0,
        },
        config: BindLayoutEntry {
            binding: CONFIG_SLOT,
            kind: BufferBindingKind::Uniform,
            min_size: 4,
        },
    }
}

/// Builds the shared bind-layout description handed to the device when the
/// two programs are compiled.
pub fn shared_bind_layout() -> (r: BindLayout)
    ensures
        r == spec_shared_layout(),
{
    BindLayout {
        storage: BindLayoutEntry {
            binding: STORAGE_SLOT,
            kind: BufferBindingKind::StorageReadWrite,
            min_size: 0,
        },
        config: BindLayoutEntry {
            binding: CONFIG_SLOT,
            kind: BufferBindingKind::Uniform,
            min_size: 4,
        },
    }
}

/// An encoded configuration always fills the uniform entry of the shared
/// layout exactly to its minimum binding size.
pub proof fn lemma_config_fills_layout(config: ParticleConfig)
    ensures
        config.spec_encoded().len() == spec_shared_layout().config.min_size,
{
}

/// A well-formed bound resource set binds exactly the slots the shared
/// layout declares, and nothing else.
pub proof fn lemma_bound_set_matches_layout(bound: BoundResourceSet)
    ensures
        bound.wf() <==> (bound.storage_slot == spec_shared_layout().storage.binding
            && bound.config_slot == spec_shared_layout().config.binding),
{
}

/// Which of the two compute programs a status or a dispatch refers to.
#[derive(Clone, Copy, PartialEq, Eq, Structural, Debug)]
pub enum ProgramKind {
    Init,
    Update,
}

/// What is known about a compile failure: the shader module it came from and
/// the compiler's own message.
#[derive(Debug)]
pub struct CompileDiagnostic {
    pub shader_path: String,
    pub message: String,
}

/// The lifecycle of one compute program's compilation.  `Pending` means the
/// out-of-band compiler has not reported yet; `Ready` and `Failed` are final.
#[derive(Debug)]
pub enum CompileStatus {
    Pending,
    Ready,
    Failed(CompileDiagnostic),
}

/// What the out-of-band compiler reports for one program, exactly once.
#[derive(Debug)]
pub enum CompileReport {
    Success,
    Failure { message: String },
}

/// The shader entry point a program kind names.
pub open spec fn spec_entry_point(program: ProgramKind) -> Seq<char> {
    match program {
        ProgramKind::Init => "init"@,
        ProgramKind::Update => "update"@,
    }
}

/// The entry point of `program` in the shared shader module: the module
/// holds exactly two compute entry points, `init` and `update`.
pub fn entry_point(program: ProgramKind) -> (r: &'static str)
    ensures
        r@ == spec_entry_point(program),
{
    match program {
        ProgramKind::Init => "init",
        ProgramKind::Update => "update",
    }
}

/// A compile status stripped of its diagnostic: all the dispatch state
/// machine reads from a poll.
#[derive(Clone, Copy, PartialEq, Eq, Structural, Debug)]
pub enum StatusTag {
    Pending,
    Ready,
    Failed,
}

/// The tag of a compile status.
pub open spec fn status_tag(s: CompileStatus) -> StatusTag {
    match s {
        CompileStatus::Pending => StatusTag::Pending,
        CompileStatus::Ready => StatusTag::Ready,
        CompileStatus::Failed(_) => StatusTag::Failed,
    }
}

/// Tracks the compilation of both compute programs of one shader module.
pub struct PipelineRegistry {
    shader_path: String,
    init: CompileStatus,
    update: CompileStatus,
}

impl PipelineRegistry {
    /// The path of the shader module both programs are compiled from.
    pub closed spec fn spec_shader_path(&self) -> Seq<char> {
        self.shader_path@
    }

    /// The status currently recorded for `program`.
    pub closed spec fn spec_status(&self, program: ProgramKind) -> &CompileStatus {
        match program {
            ProgramKind::Init => &self.init,
            ProgramKind::Update => &self.update,
        }
    }

    /// Requests compilation of both programs of the module at `shader_path`.
    /// Compilation proceeds out of band: both statuses start out `Pending`.
    pub fn new(shader_path: String) -> (r: PipelineRegistry)
        ensures
            r.spec_shader_path() == shader_path@,
            r.spec_status(ProgramKind::Init) is Pending,
            r.spec_status(ProgramKind::Update) is Pending,
    {
        PipelineRegistry {
            shader_path,
            init: CompileStatus::Pending,
            update: CompileStatus::Pending,
        }
    }

    /// Polls the status of `program`.  Non-blocking and idempotent: it only
    /// reads what the registry last recorded.
    pub fn compile_status(&self, program: ProgramKind) -> (r: &CompileStatus)
        ensures
            r == self.spec_status(program),
    {
        match program {
            ProgramKind::Init => &self.init,
            ProgramKind::Update => &self.update,
        }
    }

    /// Records the out-of-band compiler's outcome for `program`.  Only a
    /// `Pending` status changes: `Ready` and `Failed` are final, so a late or
    /// repeated report is dropped.  A failure is recorded together with the
    /// shader path, so the diagnostic always names the module it came from.
    pub fn report(&mut self, program: ProgramKind, outcome: CompileReport)
        ensures
            final(self).spec_shader_path() == old(self).spec_shader_path(),
            final(self).spec_status(other_program(program)) == old(self).spec_status(
                other_program(program),
            ),
            !(old(self).spec_status(program) is Pending) ==> final(self).spec_status(program)
                == old(self).spec_status(program),
            old(self).spec_status(program) is Pending && outcome is Success
                ==> final(self).spec_status(program) is Ready,
            old(self).spec_status(program) is Pending ==> (outcome matches CompileReport::Failure {
                message,
            } ==> (final(self).spec_status(program) matches CompileStatus::Failed(d)
                && d.shader_path@ == old(self).spec_shader_path() && d.message == message)),
    {
        let pending = match program {
            ProgramKind::Init => match &self.init {
                CompileStatus::Pending => true,
                _ => false,
            },
            ProgramKind::Update => match &self.update {
                CompileStatus::Pending => true,
                _ => false,
            },
        };
        if !pending {
            return ;
        }
        let status = match outcome {
            CompileReport::Success => CompileStatus::Ready,
            CompileReport::Failure { message } => CompileStatus::Failed(
                CompileDiagnostic { shader_path: self.shader_path.clone(), message },
            ),
        };
        match program {
            ProgramKind::Init => {
                self.init = status;
            },
            ProgramKind::Update => {
                self.update = status;
            },
        }
    }
}

/// The program a status report does not concern.
pub open spec fn other_program(program: ProgramKind) -> ProgramKind {
    match program {
        ProgramKind::Init => ProgramKind::Update,
        ProgramKind::Update => ProgramKind::Init,
    }
}

} // verus!
