//! The frame coordinator: one object owning the per-frame context, advanced
//! through the tick's phases in order.
//!
//! Each scheduling tick increments the uniform counter, polls the pipeline
//! gate and advances the node, records this tick's command sequence, flips
//! the parity after the dispatch, and runs the upload gate. The driver
//! performs the returned commands and host actions against the device and
//! reports the asynchronous map completion back through
//! [`FrameCoordinator::on_map_complete`].

use vstd::prelude::*;
use crate::bind::{BindGroupSpec, build_bind_groups, spec_bind_groups};
use crate::config::FrameConfig;
use crate::error::FatalError;
use crate::gate::{PipelineHandle, PipelineStatus, PollOutcome, classify_poll, spec_classify};
use crate::node::{
    Command, NodeState, advance_parity, record_commands, spec_advance, spec_commands,
    spec_transition, transition,
};
use crate::pool::ResourcePool;
use crate::sync::{GateEvent, HostAction, UniformSync, spec_apply_event};
use crate::uniforms::UniformBlock;

verus! {

/// What one tick hands the driver: the commands to record into this frame's
/// submission, in order, and the host actions to perform afterwards.
#[derive(Clone, PartialEq, Eq, Debug)]
pub struct TickOutput {
    pub commands: Vec<Command>,
    pub host_actions: Vec<HostAction>,
}

/// The per-frame context: configuration, resources, prepared bind groups,
/// and the three advancing pieces of state — node, counter, upload gate.
#[derive(Clone, PartialEq, Eq, Debug)]
pub struct FrameCoordinator {
    pub config: FrameConfig,
    pub shader_ref: String,
    /// The handle the compile request returned; every poll asks the cache
    /// about this handle.
    pub pipeline: PipelineHandle,
    pub pool: ResourcePool,
    pub bind_groups: Vec<BindGroupSpec>,
    pub state: NodeState,
    pub uniforms: UniformBlock,
    pub sync: UniformSync,
}

/// A tick is fatal exactly when the node is still loading and the pipeline gate
/// reports a terminal compile failure.
pub open spec fn spec_tick_fatal(state: NodeState, status: PipelineStatus) -> bool {
    state is Loading && status is Failed
}

impl FrameCoordinator {
    pub open spec fn wf(self) -> bool {
        &&& self.config.wf()
        &&& self.state.wf()
        &&& self.pool.wf()
        &&& self.pool.variant == self.config.variant
        &&& self.bind_groups@ == spec_bind_groups(self.pool)
    }

    /// Sets the context up: node loading, counter zero, gate clear, and the
    /// bind groups built once over the pool.
    pub fn new(
        config: FrameConfig,
        shader_ref: String,
        pipeline: PipelineHandle,
        pool: ResourcePool,
    ) -> (r: FrameCoordinator)
        requires
            config.wf(),
            pool.wf(),
            pool.variant == config.variant,
        ensures
            r.wf(),
            r.config == config,
            r.shader_ref == shader_ref,
            r.pipeline == pipeline,
            r.pool == pool,
            r.state == NodeState::Loading,
            r.uniforms.time == 0,
            !r.sync.in_flight,
            r.sync.staged == 0,
    {
        let bind_groups = build_bind_groups(&pool);
        FrameCoordinator {
            config,
            shader_ref,
            pipeline,
            pool,
            bind_groups,
            state: NodeState::initial(),
            uniforms: UniformBlock::new(),
            sync: UniformSync::new(),
        }
    }

    /// One scheduling tick, given what this tick's poll of the compilation
    /// cache observed.
    ///
    /// The counter always advances by exactly one. A terminal compile
    /// failure is fatal: the error names the shader reference, and the node
    /// and gate are left as they were. Otherwise the node steps by the
    /// observed status, the commands for the stepped state are recorded,
    /// the parity flips after the dispatch, and the upload gate runs: a new
    /// map request goes out only when none was outstanding, and the device
    /// wait is unconditional.
    pub fn tick(&mut self, poll: PollOutcome) -> (r: Result<TickOutput, FatalError>)
        requires
            old(self).wf(),
            old(self).uniforms.time < u32::MAX,
        ensures
            final(self).wf(),
            final(self).config == old(self).config,
            final(self).shader_ref == old(self).shader_ref,
            final(self).pipeline == old(self).pipeline,
            final(self).pool == old(self).pool,
            final(self).bind_groups == old(self).bind_groups,
            final(self).uniforms.time == old(self).uniforms.time + 1,
            spec_tick_fatal(old(self).state, spec_classify(poll)) ==> (r matches Err(e)
                && e matches FatalError::PipelineCompile { shader_ref: s, message: m } && s@ == old(
                self,
            ).shader_ref@ && m == spec_classify(poll)->message && final(self).state == old(
                self,
            ).state && final(self).sync == old(self).sync),
            !spec_tick_fatal(old(self).state, spec_classify(poll)) ==> (r matches Ok(out) && ({
                let stepped = spec_transition(old(self).state, spec_classify(poll));
                &&& out.commands@ == spec_commands(stepped, old(self).config)
                &&& final(self).state == spec_advance(stepped, old(self).config.variant)
                &&& final(self).sync == spec_apply_event(old(self).sync, GateEvent::Request)
                &&& old(self).sync.in_flight ==> out.host_actions@ == seq![HostAction::DeviceWait]
                &&& !old(self).sync.in_flight ==> out.host_actions@ == seq![
                    HostAction::RequestMap,
                    HostAction::DeviceWait,
                ]
            })),
    {
        self.uniforms.tick();
        let status = classify_poll(poll);
        let stepped = match transition(self.state, status, self.shader_ref.as_str()) {
            Ok(s) => s,
            Err(e) => {
                return Err(e);
            },
        };
        let commands = record_commands(stepped, self.config);
        self.state = advance_parity(stepped, self.config.variant);
        let host_actions = self.sync.advance();
        Ok(TickOutput { commands, host_actions })
    }

    /// The asynchronous map completion, reported by the driver whenever the
    /// callback fires. On success the counter value current now — not the
    /// one current at request time — is committed into the staging buffer
    /// and the in-flight gate clears; a map failure is fatal.
    pub fn on_map_complete(&mut self, outcome: Result<(), String>) -> (r: Result<(), FatalError>)
        requires
            old(self).wf(),
            old(self).sync.in_flight,
        ensures
            final(self).wf(),
            final(self).config == old(self).config,
            final(self).shader_ref == old(self).shader_ref,
            final(self).pipeline == old(self).pipeline,
            final(self).pool == old(self).pool,
            final(self).bind_groups == old(self).bind_groups,
            final(self).state == old(self).state,
            final(self).uniforms == old(self).uniforms,
            outcome is Ok ==> (r is Ok && !final(self).sync.in_flight && final(self).sync.staged
                == old(self).uniforms.time),
            outcome matches Err(m) ==> (r == Err::<(), FatalError>(
                FatalError::BufferMap { message: m },
            ) && final(self).sync == old(self).sync),
    {
        let current = self.uniforms;
        self.sync.complete_map(&current, outcome)
    }
}

} // verus!
