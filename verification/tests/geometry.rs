use compute_node::config::{workgroup_counts, Variant};
use compute_node::error::FatalError;
use compute_node::gate::compute_pipeline_descriptor;
use compute_node::layout::{required_layout, validate_shader_layout, LayoutEntry};
use compute_node::pool::{validate_texture_usage, ResourcePool, TextureUsageFlags};
use compute_node::uniforms::{from_le_bytes, UniformBlock, UNIFORM_BYTE_WIDTH};

#[test]
fn dispatch_dimensions_320x180_wg8() {
    // 180 / 8 truncates: the bottom strip stays undispatched, deliberately.
    let c = workgroup_counts(320, 180, 8);
    assert_eq!((c.x, c.y, c.z), (40, 22, 1));
}

#[test]
fn dispatch_dimensions_exact_multiple() {
    let c = workgroup_counts(1280, 720, 8);
    assert_eq!((c.x, c.y, c.z), (160, 90, 1));
}

#[test]
fn dispatch_dimensions_texture_smaller_than_workgroup() {
    let c = workgroup_counts(4, 4, 8);
    assert_eq!((c.x, c.y, c.z), (0, 0, 1));
}

#[test]
fn texture_usage_requires_all_three_capabilities() {
    assert!(validate_texture_usage(TextureUsageFlags::required()).is_ok());
    let missing_copy = TextureUsageFlags {
        copy_dst: false,
        storage_binding: true,
        texture_binding: true,
    };
    match validate_texture_usage(missing_copy) {
        Err(FatalError::TextureCapability { flags }) => assert_eq!(flags, missing_copy),
        other => panic!("expected a texture capability error, got {:?}", other),
    }
}

#[test]
fn pool_build_rejects_incomplete_usage() {
    let flags = TextureUsageFlags {
        copy_dst: true,
        storage_binding: false,
        texture_binding: true,
    };
    assert!(ResourcePool::build(Variant::SingleUniform, 320, 180, flags, 1, 2).is_err());
}

#[test]
fn pool_build_shapes_per_variant() {
    let flags = TextureUsageFlags::required();
    let double = ResourcePool::build(Variant::DoubleBuffer, 320, 180, flags, 1, 2).unwrap();
    assert_eq!(double.textures.len(), 2);
    assert_eq!(double.staging_buffer, None);
    assert_eq!(double.uniform_buffer, None);

    let single = ResourcePool::build(Variant::SingleUniform, 320, 180, flags, 1, 2).unwrap();
    assert_eq!(single.textures.len(), 1);
    assert_eq!(single.staging_buffer, Some(1));
    assert_eq!(single.uniform_buffer, Some(2));
    assert_eq!(single.textures[0].width, 320);
    assert_eq!(single.textures[0].height, 180);
}

#[test]
fn required_layout_per_variant() {
    assert_eq!(
        required_layout(Variant::SingleUniform),
        vec![LayoutEntry::StorageTextureWriteOnly, LayoutEntry::UniformBuffer]
    );
    assert_eq!(
        required_layout(Variant::DoubleBuffer),
        vec![LayoutEntry::StorageTextureWriteOnly, LayoutEntry::SampledTexture]
    );
}

#[test]
fn layout_missing_uniform_binding_is_fatal_and_names_shader() {
    // A module exposing only the storage image, without the uniform
    // binding the single-uniform variant demands.
    let provided = vec![LayoutEntry::StorageTextureWriteOnly];
    match validate_shader_layout("mandelbrot.wgsl", &provided, Variant::SingleUniform) {
        Err(FatalError::PipelineCompile { shader_ref, .. }) => {
            assert_eq!(shader_ref, "mandelbrot.wgsl");
        }
        other => panic!("expected a fatal compile error, got {:?}", other),
    }
}

#[test]
fn layout_matching_is_accepted() {
    let provided = vec![LayoutEntry::StorageTextureWriteOnly, LayoutEntry::UniformBuffer];
    assert!(validate_shader_layout("mandelbrot.wgsl", &provided, Variant::SingleUniform).is_ok());
}

#[test]
fn layout_with_swapped_bindings_is_rejected() {
    let provided = vec![LayoutEntry::UniformBuffer, LayoutEntry::StorageTextureWriteOnly];
    assert!(validate_shader_layout("mandelbrot.wgsl", &provided, Variant::SingleUniform).is_err());
}

#[test]
fn pipeline_descriptor_names_entry_point_and_layout() {
    let d = compute_pipeline_descriptor("mandelbrot.wgsl", Variant::SingleUniform);
    assert_eq!(d.shader_ref, "mandelbrot.wgsl");
    assert_eq!(d.entry_point, "checker_board");
    assert_eq!(
        d.layout,
        vec![LayoutEntry::StorageTextureWriteOnly, LayoutEntry::UniformBuffer]
    );
}

#[test]
fn uniform_block_little_endian_wire_form() {
    let u = UniformBlock { time: 0x0102_0304 };
    let bytes = u.to_le_bytes();
    assert_eq!(bytes, vec![0x04, 0x03, 0x02, 0x01]);
    assert_eq!(bytes.len() as u64, UNIFORM_BYTE_WIDTH);
    let back = from_le_bytes(&bytes);
    assert_eq!(back.time, 0x0102_0304);
}

#[test]
fn uniform_block_wire_form_round_trips_at_edges() {
    for time in [0u32, 1, 0xff, 0x100, u32::MAX] {
        let u = UniformBlock { time };
        assert_eq!(from_le_bytes(&u.to_le_bytes()).time, time);
    }
}
