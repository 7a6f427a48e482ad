//! The shader/pipeline gate: classifying what one poll of the external
//! compilation cache observed.
//!
//! This pipeline gate is purely observational. Compilation is performed by an external
//! cache; the node polls it once per tick until the pipeline resolves. A
//! transient "shader not loaded yet" answer is not an error and is retried
//! silently; any other compile failure is fatal.

use vstd::prelude::*;
use crate::config::Variant;
use crate::layout::{LayoutEntry, required_layout, spec_required_layout};

verus! {

/// What `request_compile` hands the external compilation cache: the shader
/// reference, the entry point, and the resource layout the pipeline is
/// compiled against.
#[derive(Clone, PartialEq, Eq, Debug)]
pub struct PipelineDescriptor {
    pub shader_ref: String,
    pub entry_point: String,
    pub layout: Vec<LayoutEntry>,
}

/// Builds the one compile request issued at setup: the given shader
/// reference, the fixed entry point, and exactly the layout the variant
/// demands.
pub fn compute_pipeline_descriptor(shader_ref: &str, v: Variant) -> (r: PipelineDescriptor)
    ensures
        r.shader_ref@ == shader_ref@,
        r.entry_point@ == "checker_board"@,
        r.layout@ == spec_required_layout(v),
{
    PipelineDescriptor {
        shader_ref: shader_ref.to_owned(),
        entry_point: String::from_str("checker_board"),
        layout: required_layout(v),
    }
}

/// An opaque reference to a compute pipeline requested from the external
/// compilation cache at setup.
#[derive(Clone, Copy, PartialEq, Eq, Structural, Debug)]
pub struct PipelineHandle {
    pub id: u32,
}

/// What one poll of the compilation cache reported for a handle.
#[derive(Clone, PartialEq, Eq, Debug)]
pub enum PollOutcome {
    /// Still queued or compiling.
    Pending,
    /// The compiled pipeline object is available.
    Available,
    /// The shader module has not been loaded yet: transient, poll again
    /// next tick.
    ShaderNotLoaded,
    /// Compilation failed with the given compiler message: fatal.
    CompileError { message: String },
}

/// The pipeline's state as the node sees it.
#[derive(Clone, PartialEq, Eq, Debug)]
pub enum PipelineStatus {
    /// Not yet available; retry every tick.
    Compiling,
    /// Usable: a dispatch may be issued.
    Ready,
    /// Terminal compile failure, with the compiler's message.
    Failed { message: String },
}

/// How an observation classifies: "not loaded yet" and "still pending" are
/// both transient, an available pipeline is ready, and everything else is a
/// terminal failure.
pub open spec fn spec_classify(o: PollOutcome) -> PipelineStatus {
    match o {
        PollOutcome::Pending => PipelineStatus::Compiling,
        PollOutcome::ShaderNotLoaded => PipelineStatus::Compiling,
        PollOutcome::Available => PipelineStatus::Ready,
        PollOutcome::CompileError { message } => PipelineStatus::Failed { message },
    }
}

/// Classifies one poll of the compilation cache into the node's view of the
/// pipeline state.
pub fn classify_poll(o: PollOutcome) -> (s: PipelineStatus)
    ensures
        s == spec_classify(o),
{
    match o {
        PollOutcome::Pending => PipelineStatus::Compiling,
        PollOutcome::ShaderNotLoaded => PipelineStatus::Compiling,
        PollOutcome::Available => PipelineStatus::Ready,
        PollOutcome::CompileError { message } => PipelineStatus::Failed { message },
    }
}

} // verus!
