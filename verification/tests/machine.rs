use compute_node::config::{FrameConfig, Variant};
use compute_node::display::DisplayToggle;
use compute_node::error::FatalError;
use compute_node::gate::{classify_poll, PipelineStatus, PollOutcome};
use compute_node::node::{
    advance_parity, record_commands, selected_bind_group, transition, Command, NodeState,
};
use compute_node::sync::{HostAction, UniformSync};
use compute_node::uniforms::UniformBlock;

fn uniform_cfg() -> FrameConfig {
    FrameConfig {
        width: 320,
        height: 180,
        workgroup_size: 8,
        variant: Variant::SingleUniform,
    }
}

fn double_cfg() -> FrameConfig {
    FrameConfig {
        width: 320,
        height: 180,
        workgroup_size: 8,
        variant: Variant::DoubleBuffer,
    }
}

#[test]
fn classify_poll_taxonomy() {
    assert_eq!(classify_poll(PollOutcome::Pending), PipelineStatus::Compiling);
    assert_eq!(
        classify_poll(PollOutcome::ShaderNotLoaded),
        PipelineStatus::Compiling
    );
    assert_eq!(classify_poll(PollOutcome::Available), PipelineStatus::Ready);
    assert_eq!(
        classify_poll(PollOutcome::CompileError { message: "bad".to_string() }),
        PipelineStatus::Failed { message: "bad".to_string() }
    );
}

#[test]
fn transition_waits_while_compiling() {
    let r = transition(NodeState::Loading, PipelineStatus::Compiling, "mandelbrot.wgsl");
    assert_eq!(r, Ok(NodeState::Loading));
}

#[test]
fn transition_enters_ready_at_parity_zero() {
    let r = transition(NodeState::Loading, PipelineStatus::Ready, "mandelbrot.wgsl");
    assert_eq!(r, Ok(NodeState::Ready { parity: 0 }));
}

#[test]
fn transition_compile_failure_is_fatal_and_names_shader() {
    let status = PipelineStatus::Failed { message: "no such entry point".to_string() };
    match transition(NodeState::Loading, status, "mandelbrot.wgsl") {
        Err(FatalError::PipelineCompile { shader_ref, message }) => {
            assert_eq!(shader_ref, "mandelbrot.wgsl");
            assert_eq!(message, "no such entry point");
        }
        other => panic!("expected a fatal compile error, got {:?}", other),
    }
}

#[test]
fn transition_never_leaves_ready() {
    let ready = NodeState::Ready { parity: 1 };
    for status in [
        PipelineStatus::Compiling,
        PipelineStatus::Ready,
        PipelineStatus::Failed { message: "late".to_string() },
    ] {
        assert_eq!(transition(ready, status, "mandelbrot.wgsl"), Ok(ready));
    }
}

#[test]
fn no_dispatch_while_loading() {
    for cfg in [uniform_cfg(), double_cfg()] {
        let cmds = record_commands(NodeState::Loading, cfg);
        assert!(cmds
            .iter()
            .all(|c| !matches!(c, Command::Dispatch { .. })));
    }
}

#[test]
fn loading_uniform_variant_still_records_the_copy() {
    let cmds = record_commands(NodeState::Loading, uniform_cfg());
    assert_eq!(cmds, vec![Command::CopyUniform { size: 4 }]);
}

#[test]
fn copy_recorded_strictly_before_dispatch() {
    let cmds = record_commands(NodeState::Ready { parity: 0 }, uniform_cfg());
    assert_eq!(
        cmds,
        vec![
            Command::CopyUniform { size: 4 },
            Command::SetBindGroup { index: 0 },
            Command::SetPipeline,
            Command::Dispatch { x: 40, y: 22, z: 1 },
        ]
    );
    let copy_at = cmds
        .iter()
        .position(|c| matches!(c, Command::CopyUniform { .. }))
        .unwrap();
    let dispatch_at = cmds
        .iter()
        .position(|c| matches!(c, Command::Dispatch { .. }))
        .unwrap();
    assert!(copy_at < dispatch_at);
}

#[test]
fn parity_selects_bind_group_mod_two() {
    // The bind group picked on the nth post-ready tick is n mod 2.
    let mut state = NodeState::Ready { parity: 0 };
    for n in 0u32..6 {
        assert_eq!(selected_bind_group(state, Variant::DoubleBuffer), n % 2);
        state = advance_parity(state, Variant::DoubleBuffer);
    }
}

#[test]
fn parity_does_not_advance_in_uniform_variant() {
    let state = NodeState::Ready { parity: 0 };
    assert_eq!(advance_parity(state, Variant::SingleUniform), state);
    assert_eq!(selected_bind_group(state, Variant::SingleUniform), 0);
}

#[test]
fn double_buffer_commands_have_no_copy() {
    let cmds = record_commands(NodeState::Ready { parity: 1 }, double_cfg());
    assert_eq!(
        cmds,
        vec![
            Command::SetBindGroup { index: 1 },
            Command::SetPipeline,
            Command::Dispatch { x: 40, y: 22, z: 1 },
        ]
    );
}

#[test]
fn uniform_counter_increases_by_one_per_tick() {
    let mut u = UniformBlock::new();
    assert_eq!(u.time, 0);
    for expected in 1u32..=5 {
        u.tick();
        assert_eq!(u.time, expected);
    }
}

#[test]
fn second_map_request_is_a_noop() {
    let mut s = UniformSync::new();
    assert!(s.request_map());
    let before = s;
    assert!(!s.request_map());
    assert_eq!(s, before);
}

#[test]
fn gate_actions_per_tick() {
    let mut s = UniformSync::new();
    // Gate clear: request a map, then the unconditional device wait.
    assert_eq!(
        s.advance(),
        vec![HostAction::RequestMap, HostAction::DeviceWait]
    );
    // Gate set: no new request, but the device wait still happens.
    assert_eq!(s.advance(), vec![HostAction::DeviceWait]);
}

#[test]
fn map_completion_commits_current_snapshot_and_clears_gate() {
    let mut s = UniformSync::new();
    s.request_map();
    let current = UniformBlock { time: 17 };
    assert!(s.complete_map(&current, Ok(())).is_ok());
    assert!(!s.in_flight);
    assert_eq!(s.staged, 17);
}

#[test]
fn map_failure_is_fatal() {
    let mut s = UniformSync::new();
    s.request_map();
    let current = UniformBlock { time: 1 };
    match s.complete_map(&current, Err("device lost".to_string())) {
        Err(FatalError::BufferMap { message }) => assert_eq!(message, "device lost"),
        other => panic!("expected a fatal map error, got {:?}", other),
    }
    // The broken channel does not clear the in-flight gate.
    assert!(s.in_flight);
}

#[test]
fn display_toggle_alternates() {
    let mut d = DisplayToggle::new();
    assert_eq!(d.shown, 0);
    d.toggle();
    assert_eq!(d.shown, 1);
    d.toggle();
    assert_eq!(d.shown, 0);
}
