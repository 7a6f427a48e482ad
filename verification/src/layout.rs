//! The resource layout the compute shader must expose, and its validation.
//!
//! The shader module is loaded by an external collaborator; the node only
//! requires that its named entry point exposes exactly the layout the
//! variant demands. A module whose layout deviates — for instance one that
//! omits the required uniform binding — fails compilation fatally, with a
//! diagnostic naming the shader reference.

use vstd::prelude::*;
use crate::config::Variant;
use crate::error::FatalError;

verus! {

/// One binding slot of the pipeline's resource layout.
#[derive(Clone, Copy, PartialEq, Eq, Structural, Debug)]
pub enum LayoutEntry {
    /// A write-only 2D storage image of 32-bit-float, 4-channel format.
    StorageTextureWriteOnly,
    /// A sampled 2D texture, read by the shader.
    SampledTexture,
    /// A uniform buffer holding one 32-bit field.
    UniformBuffer,
}

/// The layout each variant demands of the shader's entry point: binding 0
/// is always the write-only storage image; binding 1 is the previous frame's
/// texture in the double-buffer variant and the uniform buffer in the
/// single-uniform variant.
pub open spec fn spec_required_layout(v: Variant) -> Seq<LayoutEntry> {
    match v {
        Variant::DoubleBuffer => seq![
            LayoutEntry::StorageTextureWriteOnly,
            LayoutEntry::SampledTexture,
        ],
        Variant::SingleUniform => seq![
            LayoutEntry::StorageTextureWriteOnly,
            LayoutEntry::UniformBuffer,
        ],
    }
}

/// Builds the required layout for a variant.
pub fn required_layout(v: Variant) -> (r: Vec<LayoutEntry>)
    ensures
        r@ == spec_required_layout(v),
{
    let mut r: Vec<LayoutEntry> = Vec::new();
    r.push(LayoutEntry::StorageTextureWriteOnly);
    match v {
        Variant::DoubleBuffer => r.push(LayoutEntry::SampledTexture),
        Variant::SingleUniform => r.push(LayoutEntry::UniformBuffer),
    }
    proof {
        assert(r@ =~= spec_required_layout(v));
    }
    r
}

/// Accepts a shader module's layout exactly when it matches what the
/// variant demands, binding for binding; any deviation is a fatal compile
/// failure whose diagnostic names the shader reference.
pub fn validate_shader_layout(shader_ref: &str, provided: &Vec<LayoutEntry>, v: Variant) -> (r:
    Result<(), FatalError>)
    ensures
        r is Ok <==> provided@ == spec_required_layout(v),
        r matches Err(e) ==> e matches FatalError::PipelineCompile { shader_ref: s, .. }
            && s@ == shader_ref@,
{
    let required = required_layout(v);
    let mut matches_required = provided.len() == required.len();
    if matches_required {
        let mut i: usize = 0;
        while i < required.len()
            invariant
                provided@.len() == required@.len(),
                0 <= i <= required@.len(),
                matches_required <==> (forall|j: int| 0 <= j < i ==> provided@[j] == required@[j]),
            decreases required@.len() - i,
        {
            if provided[i] != required[i] {
                matches_required = false;
            }
            i = i + 1;
        }
    }
    if matches_required {
        proof {
            assert(provided@ =~= spec_required_layout(v));
        }
        Ok(())
    } else {
        Err(
            FatalError::PipelineCompile {
                shader_ref: shader_ref.to_owned(),
                message: String::from_str("shader resource layout does not match the pipeline"),
            },
        )
    }
}

} // verus!
