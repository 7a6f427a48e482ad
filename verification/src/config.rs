//! Fixed setup parameters of the compute node and the dispatch geometry
//! derived from them.
//!
//! The configuration surface is fixed at setup time: the compute texture
//! resolution and the workgroup size, uniform across both axes. No runtime
//! reconfiguration exists; changing any of these requires re-creating the
//! GPU resources.

use vstd::prelude::*;

verus! {

/// Which of the two coexisting pipeline variants a node drives.
///
/// The double-buffer variant ping-pongs between two textures, selecting a
/// bind group by frame parity. The single-uniform variant writes one texture
/// and reads a uniform buffer kept current through a staging copy.
#[derive(Clone, Copy, PartialEq, Eq, Structural, Debug)]
pub enum Variant {
    DoubleBuffer,
    SingleUniform,
}

/// Setup-time parameters of one compute node.
#[derive(Clone, Copy, PartialEq, Eq, Structural, Debug)]
pub struct FrameConfig {
    /// Width of the compute texture in texels.
    pub width: u32,
    /// Height of the compute texture in texels.
    pub height: u32,
    /// Workgroup size, the same in both axes.
    pub workgroup_size: u32,
    /// Which pipeline variant this node drives.
    pub variant: Variant,
}

impl FrameConfig {
    /// A configuration is usable only with a nonzero workgroup size.
    pub open spec fn wf(self) -> bool {
        self.workgroup_size > 0
    }
}

/// Workgroup counts of one compute dispatch, per axis.
#[derive(Clone, Copy, PartialEq, Eq, Structural, Debug)]
pub struct WorkgroupCounts {
    pub x: u32,
    pub y: u32,
    pub z: u32,
}

/// How many workgroups a dispatch covers in each axis: the texture dimension
/// divided by the workgroup size, truncated, with depth 1.
///
/// A dimension that is not an exact multiple of the workgroup size leaves a
/// remainder strip undispatched; that truncation is deliberate and kept.
pub fn workgroup_counts(width: u32, height: u32, workgroup_size: u32) -> (r: WorkgroupCounts)
    requires
        workgroup_size > 0,
    ensures
        r.x == width as int / workgroup_size as int,
        r.y == height as int / workgroup_size as int,
        r.z == 1,
{
    WorkgroupCounts { x: width / workgroup_size, y: height / workgroup_size, z: 1 }
}

} // verus!
