//! The GPU resource pool: texture slots, the staging/uniform buffer pair,
//! and the bind groups built over them.
//!
//! The pool owns its objects for the pipeline's lifetime: everything is
//! created once at setup and lives until teardown. Resources here are
//! modelled by what the logic reads of them: dimensions, usage capabilities,
//! and buffer identities; the driver holds the device objects themselves.

use vstd::prelude::*;
use crate::config::Variant;
use crate::error::FatalError;

verus! {

/// The three capabilities a compute texture must carry at creation.
#[derive(Clone, Copy, PartialEq, Eq, Structural, Debug)]
pub struct TextureUsageFlags {
    /// The texture can be the destination of a copy.
    pub copy_dst: bool,
    /// A compute shader can write it as a storage texture.
    pub storage_binding: bool,
    /// It can be read as a sampled texture.
    pub texture_binding: bool,
}

impl TextureUsageFlags {
    /// All three capabilities at once; anything less is a fatal setup error.
    pub open spec fn complete(self) -> bool {
        self.copy_dst && self.storage_binding && self.texture_binding
    }

    /// The usage every compute texture is created with.
    pub fn required() -> (r: TextureUsageFlags)
        ensures
            r.complete(),
    {
        TextureUsageFlags { copy_dst: true, storage_binding: true, texture_binding: true }
    }
}

/// Rejects a texture creation request that lacks one of the three required
/// capabilities. Returns the incomplete flags in the error.
pub fn validate_texture_usage(flags: TextureUsageFlags) -> (r: Result<(), FatalError>)
    ensures
        r is Ok <==> flags.complete(),
        r matches Err(e) ==> e == (FatalError::TextureCapability { flags }),
{
    if flags.copy_dst && flags.storage_binding && flags.texture_binding {
        Ok(())
    } else {
        Err(FatalError::TextureCapability { flags })
    }
}

/// One GPU-resident 2D image of the fixed 32-bit-float, 4-channel format.
#[derive(Clone, Copy, PartialEq, Eq, Structural, Debug)]
pub struct TextureSlot {
    pub width: u32,
    pub height: u32,
    pub usage: TextureUsageFlags,
}

impl TextureSlot {
    pub open spec fn wf(self) -> bool {
        self.usage.complete()
    }
}

/// The textures and buffers one node owns.
///
/// The double-buffer variant owns two texture slots and no buffers; the
/// single-uniform variant owns one texture slot, a CPU-writable staging
/// buffer and a GPU-only uniform buffer, each named by the identity of its
/// backing allocation.
#[derive(Clone, PartialEq, Eq, Debug)]
pub struct ResourcePool {
    pub variant: Variant,
    pub textures: Vec<TextureSlot>,
    /// Identity of the staging buffer's backing allocation, if the variant
    /// has one.
    pub staging_buffer: Option<u64>,
    /// Identity of the uniform buffer's backing allocation, if the variant
    /// has one.
    pub uniform_buffer: Option<u64>,
}

impl ResourcePool {
    pub open spec fn wf(self) -> bool {
        &&& (forall|i: int| 0 <= i < self.textures@.len() ==> self.textures@[i].wf())
        &&& match self.variant {
            Variant::DoubleBuffer => {
                &&& self.textures@.len() == 2
                &&& self.staging_buffer is None
                &&& self.uniform_buffer is None
            },
            Variant::SingleUniform => {
                &&& self.textures@.len() == 1
                &&& self.staging_buffer is Some
                &&& self.uniform_buffer is Some
            },
        }
    }

    /// Builds the pool at setup, rejecting incomplete texture usage flags.
    ///
    /// Succeeds exactly when the flags carry all three capabilities; the
    /// buffer identities are those the driver allocated.
    pub fn build(
        variant: Variant,
        width: u32,
        height: u32,
        flags: TextureUsageFlags,
        staging_id: u64,
        uniform_id: u64,
    ) -> (r: Result<ResourcePool, FatalError>)
        ensures
            r is Ok <==> flags.complete(),
            r matches Err(e) ==> e == (FatalError::TextureCapability { flags }),
            r matches Ok(p) ==> {
                &&& p.wf()
                &&& p.variant == variant
                &&& forall|i: int|
                    0 <= i < p.textures@.len() ==> p.textures@[i] == (TextureSlot {
                        width,
                        height,
                        usage: flags,
                    })
                &&& variant is SingleUniform ==> p.staging_buffer == Some(staging_id)
                    && p.uniform_buffer == Some(uniform_id)
            },
    {
        validate_texture_usage(flags)?;
        let slot = TextureSlot { width, height, usage: flags };
        match variant {
            Variant::DoubleBuffer => {
                let mut textures: Vec<TextureSlot> = Vec::new();
                textures.push(slot);
                textures.push(slot);
                Ok(ResourcePool { variant, textures, staging_buffer: None, uniform_buffer: None })
            },
            Variant::SingleUniform => {
                let mut textures: Vec<TextureSlot> = Vec::new();
                textures.push(slot);
                Ok(ResourcePool {
                    variant,
                    textures,
                    staging_buffer: Some(staging_id),
                    uniform_buffer: Some(uniform_id),
                })
            },
        }
    }
}

} // verus!
