use tweak_shader::input_type::{
    BoundedInput, DiscreteInput, InputType, InputVariant, RawBytes, ShaderBool, TextureStatus,
};
use tweak_shader_ae::param_util::{
    as_param_index, create_variant_backing, first_image_input, index_from_mut, input_variant,
    param_index, reads_filter_switch, setup_static_params, update_param_defaults_and_labels,
    update_param_ui, Backing,
    ControlKind, UiState, UiStep, Variant, MAX_INPUTS, PARAM_COUNT, PARAM_TYPE_COUNT,
    STATIC_PARAMS_OFFSET,
};
use tweak_shader_ae::types::{Local, ParamIdx};

fn float() -> InputType {
    InputType::Float(BoundedInput { current: 0.5, min: 0.0, max: 1.0, default: 0.5 })
}

fn integer() -> InputType {
    InputType::Int(BoundedInput { current: 1, min: 0, max: 9, default: 1 }, None)
}

fn int_list() -> InputType {
    InputType::Int(
        BoundedInput { current: 1, min: 0, max: 9, default: 1 },
        Some(vec![("one".to_string(), 1), ("two".to_string(), 2)]),
    )
}

fn point() -> InputType {
    InputType::Point(BoundedInput {
        current: [0.0, 0.0],
        min: [-1.0, -1.0],
        max: [1.0, 1.0],
        default: [0.0, 0.0],
    })
}

fn boolean() -> InputType {
    InputType::Bool(DiscreteInput { current: ShaderBool::True, default: ShaderBool::False })
}

fn color() -> InputType {
    InputType::Color(DiscreteInput { current: [0.0, 0.0, 0.0, 1.0], default: [0.0, 0.0, 0.0, 1.0] })
}

fn image() -> InputType {
    InputType::Image(TextureStatus::Uninit)
}

fn bytes() -> InputType {
    InputType::RawBytes(RawBytes { inner: vec![0, 0, 0, 0] })
}

fn shown(index: ParamIdx) -> UiStep {
    UiStep::SetVisible { index, visible: true }
}

fn hidden(index: ParamIdx) -> UiStep {
    UiStep::SetVisible { index, visible: false }
}

fn state() -> UiState {
    UiState {
        loaded: true,
        has_source: true,
        build_failed: false,
        needs_reset: true,
        use_layer_time: true,
        is_image_filter: true,
    }
}

#[test]
fn parameter_counts() {
    assert_eq!(MAX_INPUTS, 32);
    assert_eq!(PARAM_TYPE_COUNT, 7);
    assert_eq!(STATIC_PARAMS_OFFSET, ParamIdx::UseLayerTime.idx() + 1);
    assert_eq!(PARAM_COUNT, 231);
}

#[test]
fn kinds_have_their_place_in_a_block() {
    let kinds = [
        Variant::Float,
        Variant::Int,
        Variant::IntList,
        Variant::Point,
        Variant::Bool,
        Variant::Color,
        Variant::Image,
    ];
    for (place, kind) in kinds.iter().enumerate() {
        assert_eq!(kind.offset(), place);
        assert_eq!(Variant::from_offset(place), *kind);
    }
    assert_eq!(Variant::from_offset(7), Variant::Float);
    assert_eq!(Variant::from_offset(usize::MAX), Variant::Float);
}

#[test]
fn inputs_map_to_kinds() {
    assert_eq!(input_variant(&float()), Variant::Float);
    assert_eq!(input_variant(&integer()), Variant::Int);
    assert_eq!(input_variant(&int_list()), Variant::IntList);
    assert_eq!(input_variant(&point()), Variant::Point);
    assert_eq!(input_variant(&boolean()), Variant::Bool);
    assert_eq!(input_variant(&color()), Variant::Color);
    assert_eq!(input_variant(&image()), Variant::Image);
    assert_eq!(input_variant(&bytes()), Variant::Float);
}

#[test]
fn input_parameters_follow_the_fixed_controls() {
    assert_eq!(as_param_index(0, &float()), ParamIdx::Dynamic(7));
    assert_eq!(as_param_index(0, &image()), ParamIdx::Dynamic(13));
    assert_eq!(as_param_index(1, &float()), ParamIdx::Dynamic(14));
    assert_eq!(as_param_index(1, &int_list()), ParamIdx::Dynamic(16));
    assert_eq!(as_param_index(2, &color()), ParamIdx::Dynamic(26));
    assert_eq!(as_param_index(31, &image()), ParamIdx::Dynamic(230));
    assert_eq!(as_param_index(3, &bytes()), ParamIdx::Dynamic(28));
}

#[test]
fn parameter_numbers_are_kept_to_eight_bits() {
    assert_eq!(param_index(35, Variant::Float), ParamIdx::Dynamic(252));
    assert_eq!(param_index(35, Variant::Point), ParamIdx::Dynamic(255));
    assert_eq!(param_index(35, Variant::Bool), ParamIdx::Dynamic(0));
    assert_eq!(param_index(36, Variant::Float), ParamIdx::Dynamic(3));
    assert_eq!(param_index(256, Variant::Float), ParamIdx::Dynamic(7));
    // 7 * (2^64 - 1) + 7 = 7 * 2^64, a multiple of 256
    assert_eq!(param_index(usize::MAX, Variant::Float), ParamIdx::Dynamic(0));
}

#[test]
fn the_two_ways_of_naming_a_parameter_agree() {
    assert_eq!(index_from_mut(4, InputVariant::Float, false), as_param_index(4, &float()));
    assert_eq!(index_from_mut(4, InputVariant::Int, false), as_param_index(4, &integer()));
    assert_eq!(index_from_mut(4, InputVariant::Int, true), as_param_index(4, &int_list()));
    assert_eq!(index_from_mut(4, InputVariant::Point, false), as_param_index(4, &point()));
    assert_eq!(index_from_mut(4, InputVariant::Bool, false), as_param_index(4, &boolean()));
    assert_eq!(index_from_mut(4, InputVariant::Color, true), as_param_index(4, &color()));
    assert_eq!(index_from_mut(4, InputVariant::Image, false), as_param_index(4, &image()));
    assert_eq!(index_from_mut(4, InputVariant::Bytes, false), as_param_index(4, &bytes()));
    assert_eq!(index_from_mut(4, InputVariant::Int, true), ParamIdx::Dynamic(37));
}

#[test]
fn no_two_of_the_32_inputs_share_a_parameter() {
    let kinds = [
        Variant::Float,
        Variant::Int,
        Variant::IntList,
        Variant::Point,
        Variant::Bool,
        Variant::Color,
        Variant::Image,
    ];
    let mut seen = std::collections::HashSet::new();
    for index in 0..32 {
        for kind in kinds {
            let number = param_index(index, kind).idx();
            assert!((7..231).contains(&number));
            assert!(seen.insert(number));
        }
    }
    assert_eq!(seen.len(), 224);
}

#[test]
fn nothing_changes_before_a_shader_is_set_up() {
    let mut s = state();
    s.loaded = false;
    assert_eq!(update_param_ui(&s, &vec![float(), image()]), vec![]);
}

#[test]
fn without_a_working_shader_only_the_load_button_shows() {
    for (has_source, build_failed) in [(false, false), (true, true), (false, true)] {
        let mut s = state();
        s.has_source = has_source;
        s.build_failed = build_failed;
        let plan = update_param_ui(&s, &vec![float(), image()]);
        assert_eq!(plan.len(), 225 + 5);
        for (i, step) in plan[..225].iter().enumerate() {
            assert_eq!(*step, hidden(ParamIdx::Dynamic(6 + i as u8)));
        }
        assert_eq!(
            plan[225..],
            [
                shown(ParamIdx::LoadButton),
                hidden(ParamIdx::Time),
                hidden(ParamIdx::UnloadButton),
                hidden(ParamIdx::ReloadButton),
                hidden(ParamIdx::IsImageFilter),
            ]
        );
    }
}

#[test]
fn a_filter_hides_the_parameter_of_its_first_image() {
    let inputs = vec![float(), image(), int_list(), image()];
    let plan = update_param_ui(&state(), &inputs);
    assert_eq!(
        plan[225..],
        [
            hidden(ParamIdx::LoadButton),
            shown(ParamIdx::UnloadButton),
            shown(ParamIdx::ReloadButton),
            shown(ParamIdx::UseLayerTime),
            hidden(ParamIdx::Time),
            shown(ParamIdx::Dynamic(7)),
            shown(ParamIdx::Dynamic(20)),
            shown(ParamIdx::Dynamic(23)),
            shown(ParamIdx::Dynamic(34)),
            shown(ParamIdx::IsImageFilter),
            hidden(ParamIdx::Dynamic(20)),
        ]
    );
    let mut s = state();
    s.is_image_filter = false;
    s.use_layer_time = false;
    let plan = update_param_ui(&s, &inputs);
    assert_eq!(plan[225 + 4], shown(ParamIdx::Time));
    assert_eq!(plan[plan.len() - 1], shown(ParamIdx::Dynamic(20)));
}

#[test]
fn without_an_image_input_there_is_no_filter_switch() {
    let plan = update_param_ui(&state(), &vec![float(), color()]);
    assert_eq!(
        plan[225 + 5..],
        [shown(ParamIdx::Dynamic(7)), shown(ParamIdx::Dynamic(19)), hidden(ParamIdx::IsImageFilter)]
    );
    assert_eq!(first_image_input(&vec![float(), color()]), None);
    assert_eq!(first_image_input(&vec![]), None);
    assert_eq!(first_image_input(&vec![float(), image(), image()]), Some(1));
}

#[test]
fn labels_of_an_unloaded_instance() {
    let mut s = state();
    s.loaded = false;
    let plan = update_param_defaults_and_labels(&s, &vec![float()]);
    assert_eq!(plan.len(), 229 + 1);
    for (i, step) in plan[..229].iter().enumerate() {
        assert_eq!(*step, hidden(ParamIdx::Dynamic(2 + i as u8)));
    }
    assert_eq!(plan[229], shown(ParamIdx::LoadButton));
}

#[test]
fn labels_are_configured_once_per_reset() {
    let inputs = vec![boolean(), image()];
    let mut s = state();
    s.use_layer_time = false;
    assert_eq!(
        update_param_defaults_and_labels(&s, &inputs),
        vec![
            shown(ParamIdx::Time),
            shown(ParamIdx::Dynamic(11)),
            UiStep::Configure { input: 0, index: ParamIdx::Dynamic(11) },
            shown(ParamIdx::Dynamic(20)),
            UiStep::Configure { input: 1, index: ParamIdx::Dynamic(20) },
            UiStep::FinishReset,
        ]
    );
    s.needs_reset = false;
    assert_eq!(update_param_defaults_and_labels(&s, &inputs), vec![shown(ParamIdx::Time)]);
    s.use_layer_time = true;
    assert_eq!(update_param_defaults_and_labels(&s, &inputs), vec![]);
    s.needs_reset = true;
    assert_eq!(update_param_defaults_and_labels(&s, &vec![]), vec![UiStep::FinishReset]);
}

#[test]
fn every_input_is_backed_by_one_parameter_of_each_kind() {
    let plan = create_variant_backing();
    assert_eq!(plan.len(), 224);
    assert_eq!(
        plan[0],
        Backing { number: 7, index: ParamIdx::Dynamic(7), variant: Variant::Float }
    );
    assert_eq!(
        plan[6],
        Backing { number: 13, index: ParamIdx::Dynamic(13), variant: Variant::Image }
    );
    assert_eq!(
        plan[7],
        Backing { number: 14, index: ParamIdx::Dynamic(14), variant: Variant::Float }
    );
    assert_eq!(
        plan[223],
        Backing { number: 230, index: ParamIdx::Dynamic(230), variant: Variant::Image }
    );
    for (k, backing) in plan.iter().enumerate() {
        assert_eq!(backing.index, param_index(k / 7, backing.variant));
        assert_eq!(backing.number, 7 + k as i32);
        assert_eq!(backing.variant.offset(), k % 7);
    }
}

#[test]
fn fixed_controls_are_registered_in_the_order_of_their_indices() {
    let plan = setup_static_params();
    assert_eq!(plan.len(), 6);
    let listed: Vec<(ParamIdx, &str, &str, ControlKind, bool)> = plan
        .iter()
        .map(|p| (p.index, p.name, p.label, p.kind, p.supervised))
        .collect();
    assert_eq!(
        listed,
        vec![
            (ParamIdx::LoadButton, "Select Source", "Select Source", ControlKind::Button, true),
            (ParamIdx::UnloadButton, "Unload Source", "Unload Source", ControlKind::Button, true),
            (ParamIdx::ReloadButton, "Realod Source", "Resload Source", ControlKind::Button, true),
            (ParamIdx::Time, "Time", "", ControlKind::TimeSlider, false),
            (ParamIdx::IsImageFilter, "Is Image Filter", "Enabled", ControlKind::CheckedBox, true),
            (ParamIdx::UseLayerTime, "Use Layer Time", "Enabled", ControlKind::CheckedBox, true),
        ]
    );
}

#[test]
fn the_filter_switch_is_read_for_a_working_shader_with_an_image() {
    let mut local = Local::new();
    assert!(!reads_filter_switch(&local, &vec![image()]));
    local.src = Some("void main() {}".to_string());
    local.install(tweak_shader::wgpu::TextureFormat::Rgba8Unorm, None);
    assert!(reads_filter_switch(&local, &vec![float(), image()]));
    assert!(!reads_filter_switch(&local, &vec![float()]));
    assert!(!reads_filter_switch(&local, &vec![]));
    local.install(tweak_shader::wgpu::TextureFormat::Rgba8Unorm, Some("broken".to_string()));
    assert!(!reads_filter_switch(&local, &vec![image()]));
}
