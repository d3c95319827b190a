use particle_dispatch::binder::{BindOutcome, BufferResolution};
use particle_dispatch::dispatch::DispatchState;
use particle_dispatch::grid::GridSize;
use particle_dispatch::pipeline::{CompileReport, ProgramKind};
use particle_dispatch::session::Session;

fn resolved() -> BufferResolution {
    BufferResolution::Resolved { storage_buffer: 11 }
}

#[test]
fn session_runs_loading_init_update_in_order() {
    let mut s = Session::new_1d(String::from("compute.wgsl"), 10000, 5, 32);
    assert_eq!(s.dispatch_state(), DispatchState::Loading);
    assert_eq!(s.config().particle_count(), 10000);

    // frame 1: nothing compiled yet, buffer still pending: no dispatch
    let out = s.frame(None, None, BufferResolution::Pending);
    assert_eq!(out.bind, BindOutcome::Deferred);
    assert!(out.command.is_none());
    assert_eq!(s.dispatch_state(), DispatchState::Loading);

    // frame 2: init compiled and the buffer resolved: init is dispatched
    let out = s.frame(Some(CompileReport::Success), None, resolved());
    assert_eq!(out.bind, BindOutcome::Built);
    assert_eq!(s.dispatch_state(), DispatchState::Init);
    let cmd = out.command.unwrap();
    assert_eq!(cmd.program, ProgramKind::Init);
    assert_eq!(cmd.grid, GridSize { x: 313, y: 1, z: 1 });
    assert_eq!(cmd.resources.storage_buffer, 11);
    assert_eq!(cmd.resources.config_buffer, 5);

    // frame 3: update compiled in a strictly later frame: update runs
    let out = s.frame(None, Some(CompileReport::Success), resolved());
    assert_eq!(out.bind, BindOutcome::AlreadyBuilt);
    assert_eq!(s.dispatch_state(), DispatchState::Update { phase: 1 });
    let cmd = out.command.unwrap();
    assert_eq!(cmd.program, ProgramKind::Update);
    assert_eq!(cmd.grid, GridSize { x: 313, y: 1, z: 1 });

    // the configuration is untouched by the whole run
    assert_eq!(s.config().particle_count(), 10000);
}

#[test]
fn update_is_not_entered_until_init_ran_a_strictly_earlier_frame() {
    let mut s = Session::new_1d(String::from("compute.wgsl"), 64, 5, 32);
    // both programs compile before the buffer ever resolves
    let out = s.frame(
        Some(CompileReport::Success),
        Some(CompileReport::Success),
        BufferResolution::Pending,
    );
    assert!(out.command.is_none());
    assert_eq!(s.dispatch_state(), DispatchState::Init);

    // still no resources: init cannot run, so update may not be entered
    let out = s.frame(None, None, BufferResolution::Pending);
    assert!(out.command.is_none());
    assert_eq!(s.dispatch_state(), DispatchState::Init);

    // resources arrive: this frame dispatches init, still in Init
    let out = s.frame(None, None, resolved());
    assert_eq!(out.command.unwrap().program, ProgramKind::Init);
    assert_eq!(s.dispatch_state(), DispatchState::Init);

    // only the next frame enters Update
    let out = s.frame(None, None, resolved());
    assert_eq!(out.command.unwrap().program, ProgramKind::Update);
    assert_eq!(s.dispatch_state(), DispatchState::Update { phase: 1 });
}

#[test]
fn phase_alternates_but_the_program_stays_update() {
    let mut s = Session::new_1d(String::from("compute.wgsl"), 100, 5, 32);
    s.frame(Some(CompileReport::Success), None, resolved());
    s.frame(None, Some(CompileReport::Success), resolved());
    assert_eq!(s.dispatch_state(), DispatchState::Update { phase: 1 });

    let mut expected_phase: u32 = 1;
    for _ in 0..6 {
        expected_phase = 1 - expected_phase;
        let out = s.frame(None, None, resolved());
        assert_eq!(s.dispatch_state(), DispatchState::Update { phase: expected_phase });
        // whatever the phase, the dispatched program is update
        assert_eq!(out.command.unwrap().program, ProgramKind::Update);
    }
}

#[test]
fn compile_failure_halts_dispatch_and_names_the_shader_path() {
    let mut s = Session::new_1d(String::from("compute.wgsl"), 100, 5, 32);
    let out = s.frame(
        Some(CompileReport::Failure { message: String::from("parse error") }),
        None,
        resolved(),
    );
    assert!(out.command.is_none());
    let d = s.failure_diagnostic().unwrap();
    assert_eq!(d.shader_path, "compute.wgsl");
    assert_eq!(d.message, "parse error");
    // no later frame dispatches anything, whatever else happens
    for _ in 0..5 {
        let out = s.frame(None, Some(CompileReport::Success), resolved());
        assert!(out.command.is_none());
    }
    assert!(s.failure_diagnostic().is_some());
}

#[test]
fn update_compile_failure_is_fatal_too() {
    let mut s = Session::new_1d(String::from("compute.wgsl"), 100, 5, 32);
    let out = s.frame(Some(CompileReport::Success), None, resolved());
    assert_eq!(out.command.unwrap().program, ProgramKind::Init);
    let out = s.frame(
        None,
        Some(CompileReport::Failure { message: String::from("bad entry point") }),
        resolved(),
    );
    assert!(out.command.is_none());
    let d = s.failure_diagnostic().unwrap();
    assert_eq!(d.shader_path, "compute.wgsl");
    for _ in 0..3 {
        assert!(s.frame(None, None, resolved()).command.is_none());
    }
}

#[test]
fn two_dim_session_uses_the_display_grid() {
    let mut s = Session::new_2d(String::from("compute.wgsl"), 320 * 180, 5, 320, 180, 8);
    s.frame(Some(CompileReport::Success), None, resolved());
    let out = s.frame(None, None, resolved());
    let cmd = out.command.unwrap();
    assert_eq!(cmd.program, ProgramKind::Init);
    assert_eq!(cmd.grid, GridSize { x: 40, y: 22, z: 1 });
}

#[test]
fn no_program_is_dispatched_without_bound_resources() {
    let mut s = Session::new_1d(String::from("compute.wgsl"), 100, 5, 32);
    // both compiles succeed, but the buffer never resolves
    s.frame(
        Some(CompileReport::Success),
        Some(CompileReport::Success),
        BufferResolution::Pending,
    );
    for _ in 0..5 {
        let out = s.frame(None, None, BufferResolution::Pending);
        assert!(out.command.is_none());
    }
    // the machine is not halted, merely deferring
    assert!(s.failure_diagnostic().is_none());
}
