use tweak_shader::wgpu::TextureFormat;
use tweak_shader_ae::sequence_data::SERDE_ID;
use tweak_shader_ae::types::{
    try_into, BitDepth, Local, LocalInit, ParamIdx, PixelFormat, PixelFormatConversionError,
    TweakError,
};

#[test]
fn fixed_controls_have_fixed_indices() {
    assert_eq!(ParamIdx::LoadButton.idx(), 1);
    assert_eq!(ParamIdx::UnloadButton.idx(), 2);
    assert_eq!(ParamIdx::ReloadButton.idx(), 3);
    assert_eq!(ParamIdx::Time.idx(), 4);
    assert_eq!(ParamIdx::IsImageFilter.idx(), 5);
    assert_eq!(ParamIdx::UseLayerTime.idx(), 6);
    assert_eq!(ParamIdx::Dynamic(0).idx(), 0);
    assert_eq!(ParamIdx::Dynamic(40).idx(), 40);
    assert_eq!(ParamIdx::Dynamic(255).idx(), 255);
}

#[test]
fn parameter_from_number() {
    assert_eq!(ParamIdx::from(1), ParamIdx::LoadButton);
    assert_eq!(ParamIdx::from(2), ParamIdx::UnloadButton);
    assert_eq!(ParamIdx::from(3), ParamIdx::ReloadButton);
    assert_eq!(ParamIdx::from(4), ParamIdx::Time);
    assert_eq!(ParamIdx::from(5), ParamIdx::IsImageFilter);
    assert_eq!(ParamIdx::from(6), ParamIdx::UseLayerTime);
    assert_eq!(ParamIdx::from(0), ParamIdx::Dynamic(0));
    assert_eq!(ParamIdx::from(7), ParamIdx::Dynamic(7));
    assert_eq!(ParamIdx::from(255), ParamIdx::Dynamic(255));
}

#[test]
fn number_and_parameter_round_trip() {
    for n in 0..=255u8 {
        let p = ParamIdx::from(n);
        assert_eq!(u8::from(p), n);
        assert_eq!(p.idx(), n as i32);
    }
    assert_eq!(u8::from(ParamIdx::Dynamic(3)), 3);
    assert_eq!(ParamIdx::from(u8::from(ParamIdx::Dynamic(3))), ParamIdx::ReloadButton);
}

#[test]
fn error_message_is_the_text_it_carries() {
    let e = TweakError::SetUp("no device".to_string());
    assert_eq!(e.message(), "no device");
}

#[test]
fn bit_depth_from_number() {
    assert!(matches!(BitDepth::from(8i16), BitDepth::U8));
    assert!(matches!(BitDepth::from(16i16), BitDepth::U16));
    assert!(matches!(BitDepth::from(32i16), BitDepth::F32));
    assert!(matches!(BitDepth::from(0i16), BitDepth::Invalid(0)));
    assert!(matches!(BitDepth::from(-16i16), BitDepth::Invalid(-16)));
    assert!(matches!(BitDepth::from(i16::MAX), BitDepth::Invalid(i16::MAX)));
}

#[test]
fn bit_depth_and_texture_format() {
    assert_eq!(TextureFormat::try_from(BitDepth::U8), Ok(TextureFormat::Rgba8Unorm));
    assert_eq!(TextureFormat::try_from(BitDepth::U16), Ok(TextureFormat::Rgba16Float));
    assert_eq!(TextureFormat::try_from(BitDepth::F32), Ok(TextureFormat::Rgba32Float));
    assert_eq!(TextureFormat::try_from(BitDepth::Invalid(12)), Err(12));
    assert!(matches!(BitDepth::from(TextureFormat::Rgba8Unorm), BitDepth::U8));
    assert!(matches!(BitDepth::from(TextureFormat::Rgba16Float), BitDepth::U16));
    assert!(matches!(BitDepth::from(TextureFormat::Rgba32Float), BitDepth::F32));
    assert!(matches!(BitDepth::from(TextureFormat::Bgra8Unorm), BitDepth::Invalid(-42)));
    assert!(matches!(BitDepth::from(TextureFormat::Rgba16Unorm), BitDepth::Invalid(-42)));
}

#[test]
fn host_pixel_layouts_and_texture_formats() {
    assert!(matches!(try_into(PixelFormat::Argb32), Ok(TextureFormat::Rgba8Unorm)));
    assert!(matches!(try_into(PixelFormat::Argb64), Ok(TextureFormat::Rgba16Float)));
    assert!(matches!(try_into(PixelFormat::Argb128), Ok(TextureFormat::Rgba32Float)));
    assert!(matches!(try_into(PixelFormat::Bgra32), Ok(TextureFormat::Bgra8Unorm)));
    for other in [
        PixelFormat::GpuBgra128,
        PixelFormat::Reserved,
        PixelFormat::Vuya32,
        PixelFormat::NtscDv25,
        PixelFormat::PalDv25,
        PixelFormat::Invalid,
        PixelFormat::ForceLongInt,
    ] {
        assert!(matches!(try_into(other), Err(PixelFormatConversionError::InvalidFormat)));
    }
}

#[test]
fn a_set_up_shader_queues_the_parameters() {
    let mut init = LocalInit::new(TextureFormat::Rgba8Unorm, None);
    assert!(init.needs_param_visibility_reset());
    assert!(init.u16_converter.is_none());
    assert!(init.build_error.is_none());
    init.finish_param_visibility_reset();
    assert!(!init.needs_param_visibility_reset());
    init.finish_param_visibility_reset();
    assert!(!init.needs_param_visibility_reset());
    init.queue_param_visibility_reset();
    assert!(init.needs_param_visibility_reset());
    assert_eq!(init.fmt, TextureFormat::Rgba8Unorm);
}

#[test]
fn only_sixteen_bit_frames_get_a_bridge() {
    let bridged = LocalInit::new(TextureFormat::Rgba16Float, Some("broken".to_string()));
    assert_eq!(bridged.build_error, Some("broken".to_string()));
    let bridge = bridged.u16_converter.expect("16-bit frames are bridged");
    assert_eq!(bridge.staging_count(), 0);
    assert_eq!(bridge.output_size(), None);
    assert!(LocalInit::new(TextureFormat::Rgba32Float, None).u16_converter.is_none());
    assert!(LocalInit::new(TextureFormat::Rgba16Unorm, None).u16_converter.is_none());
}

#[test]
fn an_instance_is_set_up_when_the_depth_asks_for_another_format() {
    let mut local = Local::new();
    assert_eq!(local.current_format(), TextureFormat::Rgba8Unorm);
    assert_eq!(local.init_or_update(BitDepth::U16), Some(TextureFormat::Rgba16Float));
    assert_eq!(local.init_or_update(BitDepth::Invalid(3)), Some(TextureFormat::Rgba8Unorm));
    local.install(TextureFormat::Rgba16Float, None);
    assert_eq!(local.current_format(), TextureFormat::Rgba16Float);
    assert_eq!(local.init_or_update(BitDepth::U16), None);
    assert_eq!(local.init_or_update(BitDepth::Invalid(3)), None);
    assert_eq!(local.init_or_update(BitDepth::U8), Some(TextureFormat::Rgba8Unorm));
    assert_eq!(local.init_or_update(BitDepth::F32), Some(TextureFormat::Rgba32Float));
    local.install(TextureFormat::Bgra8Unorm, None);
    assert_eq!(local.init_or_update(BitDepth::U8), Some(TextureFormat::Rgba8Unorm));
}

#[test]
fn loading_and_unloading() {
    let mut local = Local::new();
    let reason = local.load(
        Some("void main() {}".to_string()),
        TextureFormat::Rgba16Float,
        Some("did not build".to_string()),
    );
    assert_eq!(reason, Some("did not build".to_string()));
    assert_eq!(local.src, Some("void main() {}".to_string()));
    let init = local.local_init.as_ref().expect("a shader is set up");
    assert!(init.needs_param_visibility_reset());
    assert!(init.u16_converter.is_some());
    assert_eq!(init.build_error, Some("did not build".to_string()));
    assert_eq!(local.load(None, TextureFormat::Rgba8Unorm, None), None);
    assert_eq!(local.src, None);
    assert!(local.local_init.is_some());
    local.unload_scene();
    assert!(local.src.is_none());
    assert!(local.local_init.is_none());
}

#[test]
fn an_instance_shows_its_shader_once_it_has_built() {
    let mut local = Local::new();
    assert!(!local.shows_shader());
    local.src = Some("void main() {}".to_string());
    assert!(!local.shows_shader());
    local.install(TextureFormat::Rgba8Unorm, Some("did not build".to_string()));
    assert!(!local.shows_shader());
    local.install(TextureFormat::Rgba8Unorm, None);
    assert!(local.shows_shader());
    local.src = None;
    assert!(!local.shows_shader());
}

#[test]
fn the_source_to_build_is_the_rewritten_source() {
    let mut local = Local::new();
    assert_eq!(local.source_to_build(), Err("No Source in initialization".to_string()));
    local.src = Some("out vec4 o;\nvoid main() {\n  o = vec4(1.0);\n}\n".to_string());
    let built = local.source_to_build().expect("the source parses");
    assert_eq!(built.matches("o = o.argb;").count(), 1);
    local.src = Some("void main( {".to_string());
    let reason = local.source_to_build().unwrap_err();
    assert!(!reason.is_empty());
    assert_ne!(reason, "No Source in initialization");
}

#[test]
fn stored_form_round_trips() {
    let mut local = Local::new();
    local.src = Some("void main() {}".to_string());
    local.install(TextureFormat::Rgba8Unorm, None);
    let (version, bytes) = local.flatten().expect("a source can be stored");
    assert_eq!(version, SERDE_ID);
    assert_eq!(version, 1);
    // one byte for `Some`, eight for the length, then the text
    assert_eq!(bytes.len(), 1 + 8 + 14);
    assert_eq!(bytes[0], 1);
    assert_eq!(&bytes[9..], b"void main() {}");
    let back = Local::unflatten(version, &bytes).expect("what was stored can be read");
    assert_eq!(back.src, local.src);
    assert!(back.local_init.is_none());

    let empty = Local::new();
    let (_, bytes) = empty.flatten().expect("no source can be stored");
    assert_eq!(bytes, vec![0]);
    assert_eq!(Local::unflatten(1, &bytes).expect("it can be read").src, None);
}

#[test]
fn other_versions_and_broken_bytes_are_refused() {
    let stored = [1u8, 2, 0, 0, 0, 0, 0, 0, 0, b'o', b'k'];
    assert_eq!(Local::unflatten(1, &stored).expect("readable").src, Some("ok".to_string()));
    assert!(Local::unflatten(0, &stored).is_err());
    assert!(Local::unflatten(2, &stored).is_err());
    assert!(Local::unflatten(1, &[]).is_err());
    assert!(Local::unflatten(1, &[2]).is_err());
    assert!(Local::unflatten(1, &[1, 9, 0, 0, 0, 0, 0, 0, 0, b'o', b'k']).is_err());
    assert!(Local::unflatten(1, &[1, 1, 0, 0, 0, 0, 0, 0, 0, 0xFF]).is_err());
    assert!(Local::restore(1, None).is_err());
    assert!(Local::restore(3, Some(None)).is_err());
    assert_eq!(Local::restore(1, Some(Some("x".to_string()))).expect("restored").src.as_deref(), Some("x"));
}

#[test]
fn written_bytes_are_stored_under_the_version() {
    assert_eq!(Local::stored_form(Some(vec![1, 0, 0])), Ok((1, vec![1, 0, 0])));
    assert_eq!(Local::stored_form(Some(vec![])), Ok((SERDE_ID, vec![])));
    assert_eq!(Local::stored_form(None), Err(()));
}

#[test]
fn the_stored_bytes_are_tag_length_and_text() {
    let mut local = Local::new();
    local.src = Some("h\u{e9}".to_string());
    let (_, bytes) = local.flatten().expect("a source can be stored");
    assert_eq!(bytes, vec![1, 3, 0, 0, 0, 0, 0, 0, 0, b'h', 0xC3, 0xA9]);
    local.src = Some(String::new());
    assert_eq!(local.flatten(), Ok((1, vec![1, 0, 0, 0, 0, 0, 0, 0, 0])));
    local.src = Some("a".repeat(300));
    let (_, bytes) = local.flatten().expect("a source can be stored");
    assert_eq!(bytes[..9], [1, 44, 1, 0, 0, 0, 0, 0, 0]);
    assert_eq!(bytes.len(), 309);
}

#[test]
fn a_newly_set_up_bridge_is_empty() {
    let mut local = Local::new();
    local.install(tweak_shader::wgpu::TextureFormat::Rgba16Float, None);
    let bridge = local.local_init.as_mut().unwrap().u16_converter.as_mut().unwrap();
    bridge.resolve_staging("a", 2, 2);
    assert_eq!(bridge.staging_count(), 1);
    local.install(tweak_shader::wgpu::TextureFormat::Rgba16Float, None);
    let bridge = local.local_init.as_ref().unwrap().u16_converter.as_ref().unwrap();
    assert_eq!(bridge.staging_count(), 0);
    assert_eq!(bridge.output_size(), None);
    local.load(None, tweak_shader::wgpu::TextureFormat::Rgba16Float, None);
    let bridge = local.local_init.as_ref().unwrap().u16_converter.as_ref().unwrap();
    assert_eq!(bridge.staging_count(), 0);
}
