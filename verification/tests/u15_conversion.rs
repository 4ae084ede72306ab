use tweak_shader::wgpu::TextureFormat;
use tweak_shader_ae::u15_conversion::{
    readback_format, readback_row_bytes, source_format, target_desc, working_format, Action,
    LayerInput, TargetDimension, TargetUsage, U16ConversionContext, HEIGHT_INPUT,
    READBACK_PIXEL_BYTES, SOURCE_TEXTURE, WIDTH_INPUT,
};

fn layer(name: &str, width: u32, height: u32, row_bytes: i32) -> LayerInput {
    LayerInput { name: name.to_string(), width, height, row_bytes }
}

fn creations(plan: &[Action]) -> Vec<Action> {
    plan.iter()
        .copied()
        .filter(|a| matches!(a, Action::CreateStaging { .. } | Action::CreateOutput { .. }))
        .collect()
}

#[test]
fn a_new_bridge_holds_nothing() {
    let bridge = U16ConversionContext::new();
    assert_eq!(bridge.staging_count(), 0);
    assert_eq!(bridge.output_size(), None);
    assert_eq!(bridge.find_staging("image"), None);
    assert_eq!(bridge.staging_name(0), None);
    assert_eq!(bridge.staging_size(0), None);
}

#[test]
fn first_frame_creates_converts_and_submits_once() {
    let mut bridge = U16ConversionContext::new();
    let plan = bridge.prepare_cpu_layer_inputs(&vec![layer("image", 2, 2, 16)]);
    assert_eq!(
        plan,
        vec![
            Action::CreateStaging { slot: 0, width: 2, height: 2 },
            Action::LoadSource { layer: 0, width: 2, height: 2, stride: 16 },
            Action::SetInputHeight { height: 2 },
            Action::SetInputWidth { width: 2 },
            Action::ConvertInput { slot: 0, width: 2, height: 2 },
            Action::Submit,
        ]
    );
    assert_eq!(bridge.staging_count(), 1);
    assert_eq!(bridge.staging_name(0), Some("image".to_string()));
    assert_eq!(bridge.staging_size(0), Some((2, 2)));
}

#[test]
fn same_size_reuses_and_other_height_replaces() {
    let mut bridge = U16ConversionContext::new();
    let first = bridge.prepare_cpu_layer_inputs(&vec![layer("image", 640, 480, 5120)]);
    assert_eq!(creations(&first), vec![Action::CreateStaging { slot: 0, width: 640, height: 480 }]);
    let slot = bridge.find_staging("image");
    assert_eq!(slot, Some(0));

    let second = bridge.prepare_cpu_layer_inputs(&vec![layer("image", 640, 480, 5120)]);
    assert_eq!(creations(&second), vec![]);
    assert_eq!(bridge.find_staging("image"), slot);
    assert_eq!(bridge.staging_size(0), Some((640, 480)));
    assert_eq!(
        second,
        vec![
            Action::LoadSource { layer: 0, width: 640, height: 480, stride: 5120 },
            Action::SetInputHeight { height: 480 },
            Action::SetInputWidth { width: 640 },
            Action::ConvertInput { slot: 0, width: 640, height: 480 },
            Action::Submit,
        ]
    );

    let third = bridge.prepare_cpu_layer_inputs(&vec![layer("image", 640, 360, 5120)]);
    assert_eq!(creations(&third), vec![Action::CreateStaging { slot: 0, width: 640, height: 360 }]);
    assert_eq!(bridge.staging_count(), 1);
    assert_eq!(bridge.find_staging("image"), slot);
    assert_eq!(bridge.staging_size(0), Some((640, 360)));
}

#[test]
fn other_width_replaces_too() {
    let mut bridge = U16ConversionContext::new();
    assert_eq!(bridge.resolve_staging("a", 4, 4), (0, true));
    assert_eq!(bridge.resolve_staging("a", 4, 4), (0, false));
    assert_eq!(bridge.resolve_staging("a", 5, 4), (0, true));
    assert_eq!(bridge.resolve_staging("a", 4, 4), (0, true));
    assert_eq!(bridge.staging_count(), 1);
}

#[test]
fn each_name_has_its_own_slot() {
    let mut bridge = U16ConversionContext::new();
    let plan = bridge.prepare_cpu_layer_inputs(&vec![
        layer("front", 8, 4, 64),
        layer("back", 2, 2, 16),
        layer("front", 8, 4, 64),
    ]);
    assert_eq!(
        creations(&plan),
        vec![
            Action::CreateStaging { slot: 0, width: 8, height: 4 },
            Action::CreateStaging { slot: 1, width: 2, height: 2 },
        ]
    );
    assert_eq!(plan.iter().filter(|a| matches!(a, Action::Submit)).count(), 1);
    assert_eq!(plan.last(), Some(&Action::Submit));
    assert_eq!(plan[plan.len() - 2], Action::ConvertInput { slot: 0, width: 8, height: 4 });
    assert_eq!(bridge.find_staging("front"), Some(0));
    assert_eq!(bridge.find_staging("back"), Some(1));
    assert_eq!(bridge.find_staging("Back"), None);
    assert_eq!(bridge.staging_name(1), Some("back".to_string()));
}

#[test]
fn a_frame_without_inputs_only_submits() {
    let mut bridge = U16ConversionContext::new();
    assert_eq!(bridge.prepare_cpu_layer_inputs(&vec![]), vec![Action::Submit]);
    assert_eq!(bridge.staging_count(), 0);
}

#[test]
fn stride_is_the_row_distance_without_its_sign() {
    assert_eq!(layer("a", 1, 1, 24).stride(), 24);
    assert_eq!(layer("a", 1, 1, -24).stride(), 24);
    assert_eq!(layer("a", 1, 1, 0).stride(), 0);
    assert_eq!(layer("a", 1, 1, i32::MAX).stride(), 2147483647);
    assert_eq!(layer("a", 1, 1, i32::MIN).stride(), 2147483648);
    let mut bridge = U16ConversionContext::new();
    let plan = bridge.prepare_cpu_layer_inputs(&vec![layer("a", 3, 1, -32)]);
    assert_eq!(plan[1], Action::LoadSource { layer: 0, width: 3, height: 1, stride: 32 });
}

#[test]
fn rendering_shares_every_input_and_honours_the_stride() {
    let mut bridge = U16ConversionContext::new();
    bridge.prepare_cpu_layer_inputs(&vec![layer("a", 2, 2, 16), layer("b", 4, 4, 32)]);
    let plan = bridge.render_u15_to_cpu_buffer(2, 2, 24);
    assert_eq!(
        plan,
        vec![
            Action::ShareStaging { slot: 0 },
            Action::ShareStaging { slot: 1 },
            Action::CreateOutput { width: 2, height: 2 },
            Action::RenderMain { width: 2, height: 2 },
            Action::SetOutputHeight { height: 2 },
            Action::SetOutputWidth { width: 2 },
            Action::ShareOutput,
            Action::ReadBack { width: 2, height: 2, stride: 24 },
        ]
    );
    assert_eq!(bridge.output_size(), Some((2, 2)));
    assert_eq!(bridge.staging_count(), 2);
}

#[test]
fn output_texture_is_reused_while_its_size_stays() {
    let mut bridge = U16ConversionContext::new();
    assert_eq!(creations(&bridge.render_u15_to_cpu_buffer(16, 9, 128)).len(), 1);
    assert_eq!(creations(&bridge.render_u15_to_cpu_buffer(16, 9, 128)), vec![]);
    assert_eq!(creations(&bridge.render_u15_to_cpu_buffer(16, 9, 256)), vec![]);
    assert_eq!(
        creations(&bridge.render_u15_to_cpu_buffer(16, 10, 128)),
        vec![Action::CreateOutput { width: 16, height: 10 }]
    );
    assert_eq!(
        creations(&bridge.render_u15_to_cpu_buffer(9, 10, 128)),
        vec![Action::CreateOutput { width: 9, height: 10 }]
    );
    assert_eq!(bridge.output_size(), Some((9, 10)));
    assert!(bridge.resolve_output(1, 1));
    assert!(!bridge.resolve_output(1, 1));
}

#[test]
fn target_description_is_a_flat_single_sample_image() {
    let desc = target_desc(640, 480, TextureFormat::Rgba16Float);
    assert_eq!(desc.width, 640);
    assert_eq!(desc.height, 480);
    assert_eq!(desc.depth_or_array_layers, 1);
    assert_eq!(desc.mip_level_count, 1);
    assert_eq!(desc.sample_count, 1);
    assert_eq!(desc.dimension, TargetDimension::D2);
    assert!(!desc.labelled);
    assert_eq!(desc.view_formats, 0);
    assert_eq!(desc.format, TextureFormat::Rgba16Float);
    assert_eq!(
        desc.usage,
        TargetUsage { copy_dst: true, texture_binding: true, render_attachment: true, copy_src: true }
    );
}

#[test]
fn converter_formats_and_input_names() {
    assert_eq!(source_format(), TextureFormat::Rgba16Unorm);
    assert_eq!(working_format(), TextureFormat::Rgba16Float);
    assert_eq!(readback_format(), TextureFormat::Rgba16Uint);
    assert_eq!(SOURCE_TEXTURE, "input_image");
    assert_eq!(WIDTH_INPUT, "width");
    assert_eq!(HEIGHT_INPUT, "height");
}

#[test]
fn a_row_that_is_read_back_takes_eight_bytes_for_each_pixel() {
    assert_eq!(READBACK_PIXEL_BYTES, 8);
    assert_eq!(readback_row_bytes(0), 0);
    assert_eq!(readback_row_bytes(2), 16);
    assert_eq!(readback_row_bytes(1920), 15360);
    assert_eq!(readback_row_bytes(u32::MAX), 34359738360);
}
