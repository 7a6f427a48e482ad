//! The frame node: the render-graph state machine that advances on every
//! tick, selects a bind group by parity, and records the per-frame command
//! sequence.
//!
//! The node moves from `Loading` to `Ready` once and never back; a failed
//! compile is a fatal error, not a node state. While ready, the
//! double-buffer variant selects its bind group by an internal parity that
//! flips once per tick after the dispatch, independent of any other
//! subsystem's toggling cadence.

use vstd::prelude::*;
use crate::config::{FrameConfig, Variant, workgroup_counts};
use crate::error::FatalError;
use crate::gate::PipelineStatus;
use crate::uniforms::UNIFORM_BYTE_WIDTH;

verus! {

/// The node's progress: loading until the pipeline resolves, then ready
/// forever, with a parity used only by the double-buffer variant.
#[derive(Clone, Copy, PartialEq, Eq, Structural, Debug)]
pub enum NodeState {
    Loading,
    Ready { parity: u32 },
}

impl NodeState {
    /// The parity is a counter modulo two.
    pub open spec fn wf(self) -> bool {
        self matches NodeState::Ready { parity } ==> parity < 2
    }

    /// Every node starts out loading.
    pub fn initial() -> (r: NodeState)
        ensures
            r == NodeState::Loading,
            r.wf(),
    {
        NodeState::Loading
    }
}

/// How the node moves given the pipeline's state, leaving the fatal case
/// aside: the only transition is from loading to ready, entered with
/// parity zero; a ready node never moves back.
pub open spec fn spec_transition(state: NodeState, status: PipelineStatus) -> NodeState {
    if state is Loading && status is Ready {
        NodeState::Ready { parity: 0 }
    } else {
        state
    }
}

/// Advances the node on one tick's poll of the pipeline gate.
///
/// While loading, a still-compiling pipeline leaves the node loading and a
/// ready pipeline makes it ready at parity zero; a failed compile is fatal,
/// with a diagnostic naming the shader reference and the compiler's
/// message. A ready node ignores the pipeline gate.
pub fn transition(state: NodeState, status: PipelineStatus, shader_ref: &str) -> (r: Result<
    NodeState,
    FatalError,
>)
    ensures
        state is Loading ==> (status matches PipelineStatus::Failed { message } ==> (r matches Err(
            e,
        ) && e matches FatalError::PipelineCompile { shader_ref: s, message: m } && s@
            == shader_ref@ && m == message)),
        !(state is Loading && status is Failed) ==> r == Ok::<_, FatalError>(
            spec_transition(state, status),
        ),
        r matches Ok(s) ==> (state.wf() ==> s.wf()),
{
    match state {
        NodeState::Loading => {
            match status {
                PipelineStatus::Compiling => Ok(NodeState::Loading),
                PipelineStatus::Ready => Ok(NodeState::Ready { parity: 0 }),
                PipelineStatus::Failed { message } => Err(
                    FatalError::PipelineCompile { shader_ref: shader_ref.to_owned(), message },
                ),
            }
        },
        NodeState::Ready { .. } => Ok(state),
    }
}

/// Which prepared bind group a ready node uses this tick: the parity in
/// the double-buffer variant, the single bind group otherwise.
pub open spec fn spec_selected_bind_group(state: NodeState, v: Variant) -> u32
    recommends
        state is Ready,
{
    match state {
        NodeState::Loading => 0,
        NodeState::Ready { parity } => if v is DoubleBuffer {
            parity
        } else {
            0
        },
    }
}

/// Selects the bind group a ready node dispatches with.
pub fn selected_bind_group(state: NodeState, v: Variant) -> (r: u32)
    requires
        state is Ready,
    ensures
        r == spec_selected_bind_group(state, v),
{
    match state {
        NodeState::Loading => 0,
        NodeState::Ready { parity } => match v {
            Variant::DoubleBuffer => parity,
            Variant::SingleUniform => 0,
        },
    }
}

/// The parity flip after a dispatch: once per tick, double-buffer variant
/// only, and only while ready.
pub open spec fn spec_advance(state: NodeState, v: Variant) -> NodeState {
    match state {
        NodeState::Loading => state,
        NodeState::Ready { parity } => if v is DoubleBuffer {
            NodeState::Ready { parity: if parity == 0 { 1u32 } else { 0u32 } }
        } else {
            state
        },
    }
}

/// Flips the parity after the dispatch was recorded.
pub fn advance_parity(state: NodeState, v: Variant) -> (r: NodeState)
    ensures
        r == spec_advance(state, v),
        state.wf() ==> r.wf(),
{
    match state {
        NodeState::Loading => state,
        NodeState::Ready { parity } => match v {
            Variant::DoubleBuffer => NodeState::Ready {
                parity: if parity == 0 {
                    1
                } else {
                    0
                },
            },
            Variant::SingleUniform => state,
        },
    }
}

/// One command of the per-frame sequence, in recording order.
#[derive(Clone, Copy, PartialEq, Eq, Structural, Debug)]
pub enum Command {
    /// Copy `size` bytes from the staging buffer into the GPU-only uniform
    /// buffer.
    CopyUniform { size: u64 },
    /// Bind the prepared bind group with this index.
    SetBindGroup { index: u32 },
    /// Bind the compiled compute pipeline.
    SetPipeline,
    /// Dispatch this many workgroups per axis.
    Dispatch { x: u32, y: u32, z: u32 },
}

/// The command sequence one tick records.
///
/// The single-uniform variant always records the uniform copy first, even
/// while loading, so the shader never reads a partially written value; the
/// lag behind the CPU counter is whatever the map completions allowed. A
/// dispatch, with its bind group and pipeline, is recorded only once the
/// node is ready.
pub open spec fn spec_commands(state: NodeState, cfg: FrameConfig) -> Seq<Command> {
    let prologue: Seq<Command> = if cfg.variant is SingleUniform {
        seq![Command::CopyUniform { size: UNIFORM_BYTE_WIDTH }]
    } else {
        Seq::empty()
    };
    match state {
        NodeState::Loading => prologue,
        NodeState::Ready { .. } => prologue + seq![
            Command::SetBindGroup { index: spec_selected_bind_group(state, cfg.variant) },
            Command::SetPipeline,
            Command::Dispatch {
                x: (cfg.width as int / cfg.workgroup_size as int) as u32,
                y: (cfg.height as int / cfg.workgroup_size as int) as u32,
                z: 1,
            },
        ],
    }
}

/// Records the command sequence for this tick's state.
pub fn record_commands(state: NodeState, cfg: FrameConfig) -> (r: Vec<Command>)
    requires
        cfg.wf(),
    ensures
        r@ == spec_commands(state, cfg),
{
    let mut r: Vec<Command> = Vec::new();
    if matches!(cfg.variant, Variant::SingleUniform) {
        r.push(Command::CopyUniform { size: UNIFORM_BYTE_WIDTH });
    }
    match state {
        NodeState::Loading => {},
        NodeState::Ready { .. } => {
            let counts = workgroup_counts(cfg.width, cfg.height, cfg.workgroup_size);
            r.push(Command::SetBindGroup { index: selected_bind_group(state, cfg.variant) });
            r.push(Command::SetPipeline);
            r.push(Command::Dispatch { x: counts.x, y: counts.y, z: counts.z });
        },
    }
    proof {
        assert(r@ =~= spec_commands(state, cfg));
    }
    r
}

/// Readiness gate: while the node is loading, no dispatch command is
/// recorded, in either variant.
pub proof fn lemma_no_dispatch_while_loading(cfg: FrameConfig)
    ensures
        forall|i: int|
            0 <= i < spec_commands(NodeState::Loading, cfg).len() ==> !((
            #[trigger] spec_commands(NodeState::Loading, cfg)[i]) is Dispatch),
{
}

/// Copy-before-dispatch ordering: in every command sequence the
/// single-uniform variant records, the uniform buffer copy stands at the
/// front, strictly before any dispatch that reads it.
pub proof fn lemma_copy_precedes_dispatch(state: NodeState, cfg: FrameConfig)
    requires
        cfg.variant is SingleUniform,
    ensures
        spec_commands(state, cfg).len() > 0,
        spec_commands(state, cfg)[0] is CopyUniform,
        forall|j: int|
            0 <= j < spec_commands(state, cfg).len() && (#[trigger] spec_commands(state, cfg)[j])
                is Dispatch ==> 0 < j,
{
}

/// The node after the `n`th post-ready tick of the double-buffer variant,
/// counting the tick on which it first became ready as the zeroth.
pub open spec fn spec_after_ready_ticks(n: nat) -> NodeState
    decreases n,
{
    if n == 0 {
        NodeState::Ready { parity: 0 }
    } else {
        spec_advance(spec_after_ready_ticks((n - 1) as nat), Variant::DoubleBuffer)
    }
}

/// Parity correctness: on the `n`th post-ready tick (0-indexed) the node's
/// parity is exactly `n` modulo 2.
pub proof fn lemma_parity_after_ticks(n: nat)
    ensures
        spec_after_ready_ticks(n) == (NodeState::Ready { parity: (n % 2) as u32 }),
    decreases n,
{
    if n > 0 {
        lemma_parity_after_ticks((n - 1) as nat);
    }
}

/// Parity correctness, at the bind group: once ready, the double-buffer
/// variant selects on its `n`th post-ready tick the bind group associated
/// with parity `n` modulo 2.
pub proof fn lemma_bind_group_parity(n: nat)
    ensures
        spec_selected_bind_group(spec_after_ready_ticks(n), Variant::DoubleBuffer) == n % 2,
{
    lemma_parity_after_ticks(n);
}

/// Parity correctness, end to end: the command sequence recorded on the
/// `n`th post-ready tick of the double-buffer variant opens by binding the
/// bind group of parity `n` modulo 2.
pub proof fn lemma_recorded_bind_group_parity(n: nat, cfg: FrameConfig)
    requires
        cfg.variant is DoubleBuffer,
    ensures
        spec_commands(spec_after_ready_ticks(n), cfg)[0] == (Command::SetBindGroup {
            index: (n % 2) as u32,
        }),
{
    lemma_parity_after_ticks(n);
}

} // verus!
