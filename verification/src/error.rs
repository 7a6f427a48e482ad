//! Fatal conditions of the compute node.
//!
//! Every fatal condition terminates the process: there is no retry, recovery
//! or degraded mode. The library never panics; it returns one of these values
//! and the unverified driver aborts with the diagnostic it carries.

use vstd::prelude::*;
use crate::pool::TextureUsageFlags;

verus! {

/// A condition from which the node cannot recover.
#[derive(Debug, Clone, PartialEq, Eq)]
pub enum FatalError {
    /// Pipeline compilation failed for a reason other than the transient
    /// "shader not loaded yet". Carries the shader reference and the
    /// underlying compiler message.
    PipelineCompile { shader_ref: String, message: String },
    /// The asynchronous staging-buffer map completed with an error. A broken
    /// mapping channel cannot self-heal.
    BufferMap { message: String },
    /// A texture was created without all three required usage capabilities
    /// (compute write, sampled read, copy destination).
    TextureCapability { flags: TextureUsageFlags },
}

} // verus!
