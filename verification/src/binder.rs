//! The resource binder: it turns the particle storage buffer and the
//! configuration buffer into the bound resource set the compute programs
//! read, the first time the storage buffer's device representation has
//! resolved — and only that first time.  While the buffer is still pending it
//! defers; a permanently invalid buffer is a setup defect and is reported as
//! such, never retried into silence.

use vstd::prelude::*;

verus! {

/// Bind slot of the particle storage buffer in the shared layout.
pub const STORAGE_SLOT: u32 = 100;

/// Bind slot of the configuration buffer in the shared layout.
pub const CONFIG_SLOT: u32 = 101;

/// Where the device stands with the storage buffer: still materialising,
/// resolved to a concrete buffer, or permanently invalid (a setup defect).
#[derive(Clone, Copy, PartialEq, Eq, Structural, Debug)]
pub enum BufferResolution {
    Pending,
    Resolved { storage_buffer: u64 },
    Invalid,
}

/// The concrete association of buffers to bind slots that every dispatch
/// binds at slot-group 0: the storage buffer at slot 100, the configuration
/// buffer at slot 101.
#[derive(Clone, Copy, PartialEq, Eq, Structural, Debug)]
pub struct BoundResourceSet {
    pub storage_slot: u32,
    pub storage_buffer: u64,
    pub config_slot: u32,
    pub config_buffer: u64,
}

impl BoundResourceSet {
    /// A bound resource set is well formed when it uses the two slots the
    /// shared bind layout declares.
    pub open spec fn wf(&self) -> bool {
        self.storage_slot == STORAGE_SLOT && self.config_slot == CONFIG_SLOT
    }
}

/// What one binding attempt came to.
#[derive(Clone, Copy, PartialEq, Eq, Structural, Debug)]
pub enum BindOutcome {
    /// The storage buffer had resolved and the bound resource set was built.
    Built,
    /// A set already exists; nothing was rebuilt.
    AlreadyBuilt,
    /// The storage buffer is still pending; skip this frame, retry the next.
    Deferred,
    /// The storage buffer is permanently invalid: a setup defect upstream.
    SetupDefect,
}

/// Builds the session's one bound resource set and guards it against being
/// rebuilt: after the first success every further attempt is a no-op.
pub struct ResourceBinder {
    config_buffer: u64,
    bound: Option<BoundResourceSet>,
}

/// One step of the binder, as a function of the guard alone: whether a set
/// exists before the attempt and how the buffer resolves decide the outcome.
pub open spec fn bind_step_outcome(already_bound: bool, resolution: BufferResolution) -> BindOutcome {
    if already_bound {
        BindOutcome::AlreadyBuilt
    } else {
        match resolution {
            BufferResolution::Pending => BindOutcome::Deferred,
            BufferResolution::Resolved { .. } => BindOutcome::Built,
            BufferResolution::Invalid => BindOutcome::SetupDefect,
        }
    }
}

/// How many of the outcomes in `outcomes` are `Built`.
pub open spec fn count_built(outcomes: Seq<BindOutcome>) -> int
    decreases outcomes.len(),
{
    if outcomes.len() == 0 {
        0
    } else {
        count_built(outcomes.drop_last()) + if outcomes.last() is Built {
            1int
        } else {
            0int
        }
    }
}

impl ResourceBinder {
    /// A binder is well formed when any set it has built uses the slots the
    /// shared bind layout declares.
    pub open spec fn wf(&self) -> bool {
        self.spec_bound() matches Some(b) ==> b.wf()
    }

    /// Whether the session's bound resource set has been built.
    pub closed spec fn spec_bound(&self) -> Option<BoundResourceSet> {
        self.bound
    }

    /// The configuration buffer every built set binds at slot 101.
    pub closed spec fn spec_config_buffer(&self) -> u64 {
        self.config_buffer
    }

    /// A fresh binder for a session whose configuration buffer is
    /// `config_buffer`; no bound resource set exists yet.
    pub fn new(config_buffer: u64) -> (r: ResourceBinder)
        ensures
            r.wf(),
            r.spec_bound() is None,
            r.spec_config_buffer() == config_buffer,
    {
        ResourceBinder { config_buffer, bound: None }
    }

    /// The bound resource set, once it has been built.
    pub fn bound_resources(&self) -> (r: Option<BoundResourceSet>)
        ensures
            r == self.spec_bound(),
    {
        self.bound
    }

    /// One per-frame binding attempt.  Builds the bound resource set exactly
    /// when none exists and the storage buffer has resolved; defers while the
    /// buffer is pending; reports a permanently invalid buffer as a setup
    /// defect.  Once a set exists the attempt is a no-op, so calling this
    /// every frame never rebuilds anything.
    pub fn prepare(&mut self, resolution: BufferResolution) -> (r: BindOutcome)
        requires
            old(self).wf(),
        ensures
            final(self).wf(),
            r == bind_step_outcome(old(self).spec_bound() is Some, resolution),
            final(self).spec_config_buffer() == old(self).spec_config_buffer(),
            old(self).spec_bound() is Some ==> final(self).spec_bound() == old(self).spec_bound(),
            r != BindOutcome::Built ==> final(self).spec_bound() == old(self).spec_bound(),
            old(self).spec_bound() is None ==> (resolution matches BufferResolution::Resolved {
                storage_buffer,
            } ==> final(self).spec_bound() == Some(
                (BoundResourceSet {
                    storage_slot: STORAGE_SLOT,
                    storage_buffer,
                    config_slot: CONFIG_SLOT,
                    config_buffer: old(self).spec_config_buffer(),
                }),
            )),
    {
        if self.bound.is_some() {
            return BindOutcome::AlreadyBuilt;
        }
        match resolution {
            BufferResolution::Pending => BindOutcome::Deferred,
            BufferResolution::Resolved { storage_buffer } => {
                self.bound = Some(
                    BoundResourceSet {
                        storage_slot: STORAGE_SLOT,
                        storage_buffer,
                        config_slot: CONFIG_SLOT,
                        config_buffer: self.config_buffer,
                    },
                );
                BindOutcome::Built
            },
            BufferResolution::Invalid => BindOutcome::SetupDefect,
        }
    }
}

/// The guard after one binding attempt: a set exists afterwards exactly when
/// one existed before or the buffer had resolved on this attempt.
pub open spec fn bind_step_bound(already_bound: bool, resolution: BufferResolution) -> bool {
    already_bound || resolution matches BufferResolution::Resolved { .. }
}

/// The outcomes of a whole run of binding attempts, one per frame, starting
/// with no bound resource set when `already_bound` is false.
pub open spec fn bind_run_outcomes(already_bound: bool, resolutions: Seq<BufferResolution>) -> Seq<
    BindOutcome,
>
    decreases resolutions.len(),
{
    if resolutions.len() == 0 {
        Seq::empty()
    } else {
        let prefix = bind_run_outcomes(already_bound, resolutions.drop_last());
        let bound_before = bind_run_bound(already_bound, resolutions.drop_last());
        prefix.push(bind_step_outcome(bound_before, resolutions.last()))
    }
}

/// Whether a bound resource set exists after a whole run of binding attempts.
pub open spec fn bind_run_bound(already_bound: bool, resolutions: Seq<BufferResolution>) -> bool
    decreases resolutions.len(),
{
    if resolutions.len() == 0 {
        already_bound
    } else {
        bind_step_bound(
            bind_run_bound(already_bound, resolutions.drop_last()),
            resolutions.last(),
        )
    }
}

/// Build-once idempotency: however many per-frame binding attempts a session
/// makes, and however the storage buffer resolves on each, the bound resource
/// set is built at most once — and not at all if one already existed.
pub proof fn lemma_bind_at_most_once(already_bound: bool, resolutions: Seq<BufferResolution>)
    ensures
        0 <= count_built(bind_run_outcomes(already_bound, resolutions)) <= 1,
        already_bound ==> count_built(bind_run_outcomes(already_bound, resolutions)) == 0,
        already_bound ==> bind_run_bound(already_bound, resolutions),
        count_built(bind_run_outcomes(already_bound, resolutions)) == 1 ==> bind_run_bound(
            already_bound,
            resolutions,
        ),
        !already_bound ==> (bind_run_bound(already_bound, resolutions) <==> exists|i: int|
            0 <= i < resolutions.len() && (#[trigger] resolutions[i]) is Resolved),
        !already_bound ==> (count_built(bind_run_outcomes(already_bound, resolutions)) == 1
            <==> exists|i: int|
            0 <= i < resolutions.len() && (#[trigger] resolutions[i]) is Resolved),
    decreases resolutions.len(),
{
    if resolutions.len() == 0 {
    } else {
        lemma_bind_at_most_once(already_bound, resolutions.drop_last());
        assert(bind_run_outcomes(already_bound, resolutions).drop_last() =~= bind_run_outcomes(
            already_bound,
            resolutions.drop_last(),
        ));
        if !already_bound {
            let prefix = resolutions.drop_last();
            if exists|i: int| 0 <= i < prefix.len() && (#[trigger] prefix[i]) is Resolved {
                let i0 = choose|i: int| 0 <= i < prefix.len() && (#[trigger] prefix[i]) is Resolved;
                assert(resolutions[i0] is Resolved);
            }
            if resolutions.last() is Resolved {
                assert(resolutions[resolutions.len() - 1] is Resolved);
            }
            if exists|i: int|
                0 <= i < resolutions.len() && (#[trigger] resolutions[i]) is Resolved {
                let i1 = choose|i: int|
                    0 <= i < resolutions.len() && (#[trigger] resolutions[i]) is Resolved;
                if i1 < resolutions.len() - 1 {
                    assert(prefix[i1] is Resolved);
                }
            }
        }
    }
}

} // verus!
