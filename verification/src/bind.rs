//! The bind group builder: the concrete resource bindings a dispatch needs,
//! prepared up front so the node can pick one by parity without rebuilding
//! per frame.
//!
//! The double-buffer variant builds exactly two bind groups — write into
//! one slot while reading the other, and the reverse — indexed by the
//! parity that selects them. The single-uniform variant builds one bind
//! group over its texture and the GPU-only uniform buffer; that bind group
//! must be rebuilt when the uniform buffer's backing allocation changes,
//! but not when only its contents change through a copy.

use vstd::prelude::*;
use crate::config::Variant;
use crate::pool::ResourcePool;

verus! {

/// One prepared bind group, by the identities of what it binds.
#[derive(Clone, Copy, PartialEq, Eq, Debug)]
pub struct BindGroupSpec {
    /// Index into the pool's textures of the slot the shader writes.
    pub write_texture: usize,
    /// Index of the slot read as the previous frame's output, in the
    /// double-buffer variant.
    pub read_texture: Option<usize>,
    /// Identity of the uniform buffer's backing allocation bound at the
    /// uniform slot, in the single-uniform variant.
    pub uniform_buffer: Option<u64>,
}

/// The bind groups a pool demands: two mirrored texture pairings for the
/// double-buffer variant, indexed by parity, or the one texture-and-uniform
/// binding for the single-uniform variant. Parity zero writes slot 1 while
/// reading slot 0.
pub open spec fn spec_bind_groups(pool: ResourcePool) -> Seq<BindGroupSpec> {
    match pool.variant {
        Variant::DoubleBuffer => seq![
            BindGroupSpec { write_texture: 1, read_texture: Some(0), uniform_buffer: None },
            BindGroupSpec { write_texture: 0, read_texture: Some(1), uniform_buffer: None },
        ],
        Variant::SingleUniform => seq![
            BindGroupSpec {
                write_texture: 0,
                read_texture: None,
                uniform_buffer: pool.uniform_buffer,
            },
        ],
    }
}

/// Builds the bind groups for a pool, once at setup and again only when a
/// backing allocation changed.
pub fn build_bind_groups(pool: &ResourcePool) -> (r: Vec<BindGroupSpec>)
    ensures
        r@ == spec_bind_groups(*pool),
{
    let mut r: Vec<BindGroupSpec> = Vec::new();
    match pool.variant {
        Variant::DoubleBuffer => {
            r.push(BindGroupSpec { write_texture: 1, read_texture: Some(0), uniform_buffer: None });
            r.push(BindGroupSpec { write_texture: 0, read_texture: Some(1), uniform_buffer: None });
        },
        Variant::SingleUniform => {
            r.push(
                BindGroupSpec {
                    write_texture: 0,
                    read_texture: None,
                    uniform_buffer: pool.uniform_buffer,
                },
            );
        },
    }
    proof {
        assert(r@ =~= spec_bind_groups(*pool));
    }
    r
}

/// Whether a prepared bind group must be rebuilt against the uniform
/// buffer whose backing allocation now has this identity: exactly when it
/// does not already bind that allocation. A copy into the buffer changes
/// its contents, not its identity, and forces no rebuild.
pub fn needs_rebuild(bg: &BindGroupSpec, uniform_buffer_id: u64) -> (r: bool)
    ensures
        r == !(bg.uniform_buffer == Some(uniform_buffer_id)),
{
    match bg.uniform_buffer {
        Some(id) => id != uniform_buffer_id,
        None => true,
    }
}

} // verus!
