use tweak_shader::input_type::{BoundedInput, InputType, TextureStatus};
use tweak_shader::wgpu::TextureFormat;
use tweak_shader_ae::render::{render, load_parameters, upload_format, RenderPath};
use tweak_shader_ae::types::{LocalInit, ParamIdx, PixelFormat};

fn float() -> InputType {
    InputType::Float(BoundedInput { current: 0.5, min: 0.0, max: 1.0, default: 0.5 })
}

fn image() -> InputType {
    InputType::Image(TextureStatus::Uninit)
}

#[test]
fn a_frame_needs_a_gpu_and_a_shader() {
    let direct = Some(LocalInit::new(TextureFormat::Rgba8Unorm, None));
    let bridged = Some(LocalInit::new(TextureFormat::Rgba16Float, None));
    assert_eq!(render(true, &direct), Ok(RenderPath::Direct));
    assert_eq!(render(true, &bridged), Ok(RenderPath::Bridged));
    assert_eq!(render(false, &direct), Err(()));
    assert_eq!(render(false, &bridged), Err(()));
    assert_eq!(render(true, &None), Err(()));
    assert_eq!(render(false, &None), Err(()));
}

#[test]
fn layers_are_uploaded_in_their_own_format_where_they_have_one() {
    assert_eq!(
        upload_format(PixelFormat::Bgra32, TextureFormat::Rgba32Float),
        TextureFormat::Bgra8Unorm
    );
    assert_eq!(
        upload_format(PixelFormat::Argb128, TextureFormat::Rgba8Unorm),
        TextureFormat::Rgba32Float
    );
    assert_eq!(
        upload_format(PixelFormat::Vuya32, TextureFormat::Rgba16Float),
        TextureFormat::Rgba16Float
    );
    assert_eq!(
        upload_format(PixelFormat::Invalid, TextureFormat::Rgba8Unorm),
        TextureFormat::Rgba8Unorm
    );
}

#[test]
fn a_filter_reads_its_own_layer_through_the_first_image() {
    let inputs = vec![float(), image(), image(), float(), image()];
    let plan = load_parameters(&inputs, &vec![false, false, true, false, false], true);
    assert_eq!(
        plan.checkout,
        vec![(1, ParamIdx::Dynamic(240)), (2, ParamIdx::Dynamic(27))]
    );
    assert_eq!(plan.remove, vec![4]);
    // the first image reads the filtered layer whatever its parameter holds
    let plan = load_parameters(&inputs, &vec![true, true, true, true, true], true);
    assert_eq!(
        plan.checkout,
        vec![(1, ParamIdx::Dynamic(240)), (2, ParamIdx::Dynamic(27)), (4, ParamIdx::Dynamic(41))]
    );
    assert_eq!(plan.remove, vec![]);
}

#[test]
fn without_the_filter_every_image_reads_its_own_layer() {
    let inputs = vec![image(), float(), image()];
    let plan = load_parameters(&inputs, &vec![false, true, true], false);
    assert_eq!(plan.checkout, vec![(2, ParamIdx::Dynamic(27))]);
    assert_eq!(plan.remove, vec![0]);
}

#[test]
fn an_input_that_the_list_does_not_reach_has_no_layer() {
    let inputs = vec![image(), image()];
    let plan = load_parameters(&inputs, &vec![true], false);
    assert_eq!(plan.checkout, vec![(0, ParamIdx::Dynamic(13))]);
    assert_eq!(plan.remove, vec![1]);
    let plan = load_parameters(&vec![], &vec![true], true);
    assert_eq!(plan.checkout, vec![]);
    assert_eq!(plan.remove, vec![]);
}
