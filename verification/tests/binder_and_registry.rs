use particle_dispatch::binder::{
    BindOutcome, BufferResolution, ResourceBinder, CONFIG_SLOT, STORAGE_SLOT,
};
use particle_dispatch::config::ParticleConfig;
use particle_dispatch::pipeline::{
    entry_point, shared_bind_layout, BufferBindingKind, CompileReport, CompileStatus,
    PipelineRegistry, ProgramKind,
};

#[test]
fn binder_builds_at_most_once_under_repeated_calls() {
    let mut binder = ResourceBinder::new(7);
    let resolved = BufferResolution::Resolved { storage_buffer: 42 };
    let mut built: u32 = 0;
    for _ in 0..100 {
        if binder.prepare(resolved) == BindOutcome::Built {
            built += 1;
        }
    }
    assert_eq!(built, 1);
    let bound = binder.bound_resources().unwrap();
    assert_eq!(bound.storage_slot, STORAGE_SLOT);
    assert_eq!(bound.storage_buffer, 42);
    assert_eq!(bound.config_slot, CONFIG_SLOT);
    assert_eq!(bound.config_buffer, 7);
}

#[test]
fn binder_defers_while_the_buffer_is_pending() {
    let mut binder = ResourceBinder::new(7);
    assert_eq!(binder.prepare(BufferResolution::Pending), BindOutcome::Deferred);
    assert_eq!(binder.prepare(BufferResolution::Pending), BindOutcome::Deferred);
    assert!(binder.bound_resources().is_none());
    let resolved = BufferResolution::Resolved { storage_buffer: 3 };
    assert_eq!(binder.prepare(resolved), BindOutcome::Built);
    assert_eq!(binder.prepare(resolved), BindOutcome::AlreadyBuilt);
}

#[test]
fn binder_reports_an_invalid_buffer_as_a_setup_defect() {
    let mut binder = ResourceBinder::new(7);
    assert_eq!(binder.prepare(BufferResolution::Invalid), BindOutcome::SetupDefect);
    assert!(binder.bound_resources().is_none());
}

#[test]
fn registry_statuses_start_pending_and_polling_changes_nothing() {
    let registry = PipelineRegistry::new(String::from("compute.wgsl"));
    for _ in 0..3 {
        assert!(matches!(registry.compile_status(ProgramKind::Init), CompileStatus::Pending));
        assert!(matches!(registry.compile_status(ProgramKind::Update), CompileStatus::Pending));
    }
}

#[test]
fn registry_transitions_are_monotonic() {
    let mut registry = PipelineRegistry::new(String::from("compute.wgsl"));
    registry.report(ProgramKind::Init, CompileReport::Success);
    assert!(matches!(registry.compile_status(ProgramKind::Init), CompileStatus::Ready));
    // a late failure report never reverses a final status
    registry.report(
        ProgramKind::Init,
        CompileReport::Failure { message: String::from("late") },
    );
    assert!(matches!(registry.compile_status(ProgramKind::Init), CompileStatus::Ready));
    // the other program is untouched
    assert!(matches!(registry.compile_status(ProgramKind::Update), CompileStatus::Pending));
}

#[test]
fn registry_failure_diagnostic_names_the_shader_path() {
    let mut registry = PipelineRegistry::new(String::from("compute.wgsl"));
    registry.report(
        ProgramKind::Update,
        CompileReport::Failure { message: String::from("entry point not found") },
    );
    match registry.compile_status(ProgramKind::Update) {
        CompileStatus::Failed(d) => {
            assert_eq!(d.shader_path, "compute.wgsl");
            assert_eq!(d.message, "entry point not found");
        }
        _ => panic!("expected a failure"),
    }
    // failed is final too
    registry.report(ProgramKind::Update, CompileReport::Success);
    assert!(matches!(registry.compile_status(ProgramKind::Update), CompileStatus::Failed(_)));
}

#[test]
fn the_two_programs_name_the_shader_entry_points() {
    assert_eq!(entry_point(ProgramKind::Init), "init");
    assert_eq!(entry_point(ProgramKind::Update), "update");
}

#[test]
fn the_shared_layout_binds_storage_and_config_slots() {
    let layout = shared_bind_layout();
    assert_eq!(layout.storage.binding, STORAGE_SLOT);
    assert_eq!(layout.storage.kind, BufferBindingKind::StorageReadWrite);
    assert_eq!(layout.config.binding, CONFIG_SLOT);
    assert_eq!(layout.config.kind, BufferBindingKind::Uniform);
    // one encoded configuration value fills the uniform entry exactly
    let encoded = ParticleConfig::new(9).encode();
    assert_eq!(encoded.len() as u32, layout.config.min_size);
}
