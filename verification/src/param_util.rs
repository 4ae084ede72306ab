//! The host's parameters: which of them stands for which shader input, and
//! which of them the user sees.
//!
//! The host knows a fixed list of parameters. After the six fixed controls
//! come 32 blocks of seven, one parameter of each kind in a block; shader
//! input number `i` is shown through the parameter of its kind in block `i`.

use vstd::prelude::*;
use vstd::arithmetic::div_mod::{lemma_add_mod_noop, lemma_mul_mod_noop_left};
use tweak_shader::input_type::{
    BoundedInput, DiscreteInput, InputType, InputVariant, RawBytes, ShaderBool, TextureStatus,
};
use crate::types::{Local, ParamIdx};

verus! {

/// `tweak_shader::input_type::InputType`, with its variants open.
#[verifier::external_type_specification]
pub struct ExInputType(InputType);

/// `tweak_shader::input_type::InputVariant`, with its variants open.
#[verifier::external_type_specification]
pub struct ExInputVariant(InputVariant);

/// `tweak_shader::input_type::BoundedInput`, with its fields open.
#[verifier::external_type_specification]
pub struct ExBoundedInput<T: Clone + Copy>(BoundedInput<T>);

/// `tweak_shader::input_type::DiscreteInput`, with its fields open.
#[verifier::external_type_specification]
pub struct ExDiscreteInput<T: Clone + Copy + PartialEq>(DiscreteInput<T>);

/// `tweak_shader::input_type::ShaderBool`, with its variants open.
#[verifier::external_type_specification]
pub struct ExShaderBool(ShaderBool);

/// `tweak_shader::input_type::TextureStatus`, with its variants open.
#[verifier::external_type_specification]
pub struct ExTextureStatus(TextureStatus);

/// `tweak_shader::input_type::RawBytes`, with its field open.
#[verifier::external_type_specification]
pub struct ExRawBytes(RawBytes);

/// How many shader inputs the host has parameters for.
pub const MAX_INPUTS: i32 = 32;

/// How many kinds of parameter a block holds.
pub const PARAM_TYPE_COUNT: i32 = 7;

/// The number of the first parameter behind the fixed controls.
pub const STATIC_PARAMS_OFFSET: i32 = 7;

/// One more than the number of the last parameter.
pub const PARAM_COUNT: i32 = (PARAM_TYPE_COUNT * MAX_INPUTS) + STATIC_PARAMS_OFFSET;

/// The kinds of host parameter, in the order in which a block holds them.
#[derive(Debug, Clone, Copy, PartialEq, Eq, Structural)]
pub enum Variant {
    Float,
    Int,
    IntList,
    Point,
    Bool,
    Color,
    Image,
}

impl Variant {
    /// The place of the kind in a block.
    pub open spec fn place(self) -> int {
        match self {
            Variant::Float => 0,
            Variant::Int => 1,
            Variant::IntList => 2,
            Variant::Point => 3,
            Variant::Bool => 4,
            Variant::Color => 5,
            Variant::Image => 6,
        }
    }

    /// The kind at a place of a block; `Float` where there is none.
    pub open spec fn at(place: int) -> Variant {
        if place == 1 {
            Variant::Int
        } else if place == 2 {
            Variant::IntList
        } else if place == 3 {
            Variant::Point
        } else if place == 4 {
            Variant::Bool
        } else if place == 5 {
            Variant::Color
        } else if place == 6 {
            Variant::Image
        } else {
            Variant::Float
        }
    }

    /// The place of the kind in a block.
    pub fn offset(&self) -> (r: usize)
        ensures
            r == self.place(),
            r < 7,
    {
        match self {
            Variant::Float => 0,
            Variant::Int => 1,
            Variant::IntList => 2,
            Variant::Point => 3,
            Variant::Bool => 4,
            Variant::Color => 5,
            Variant::Image => 6,
        }
    }

    /// The kind at a place of a block; `Float` where there is none.
    pub fn from_offset(place: usize) -> (r: Variant)
        ensures
            r == Variant::at(place as int),
    {
        match place {
            1 => Variant::Int,
            2 => Variant::IntList,
            3 => Variant::Point,
            4 => Variant::Bool,
            5 => Variant::Color,
            6 => Variant::Image,
            _ => Variant::Float,
        }
    }
}

/// The kind of host parameter that shows a shader input. An integer with
/// labels is a list of choices; an input of no known kind counts as a float.
pub open spec fn variant_of(input: InputType) -> Variant {
    match input {
        InputType::Float(_) => Variant::Float,
        InputType::Int(_, None) => Variant::Int,
        InputType::Int(_, Some(_)) => Variant::IntList,
        InputType::Point(_) => Variant::Point,
        InputType::Bool(_) => Variant::Bool,
        InputType::Color(_) => Variant::Color,
        InputType::Image(_) => Variant::Image,
        _ => Variant::Float,
    }
}

/// The same, from the kind of the input and whether it has labels.
pub open spec fn variant_of_kind(kind: InputVariant, labelled: bool) -> Variant {
    match kind {
        InputVariant::Float => Variant::Float,
        InputVariant::Int => if labelled {
            Variant::IntList
        } else {
            Variant::Int
        },
        InputVariant::Point => Variant::Point,
        InputVariant::Bool => Variant::Bool,
        InputVariant::Color => Variant::Color,
        InputVariant::Image => Variant::Image,
        _ => Variant::Float,
    }
}

/// The parameter for input number `index` of a kind: the block's first
/// parameter is number 7 + 7 * `index`; the number is kept to eight bits.
pub open spec fn index_of(index: int, variant: Variant) -> ParamIdx {
    ParamIdx::Dynamic(((index * 7 + 7 + variant.place()) % 256) as u8)
}

/// Whether a shader input is fed from a layer of the host.
pub open spec fn is_image(input: InputType) -> bool {
    input is Image
}

/// The kind of host parameter that shows a shader input.
pub fn input_variant(input: &InputType) -> (r: Variant)
    ensures
        r == variant_of(*input),
{
    match input {
        InputType::Float(_) => Variant::Float,
        InputType::Int(_, None) => Variant::Int,
        InputType::Int(_, Some(_)) => Variant::IntList,
        InputType::Point(_) => Variant::Point,
        InputType::Bool(_) => Variant::Bool,
        InputType::Color(_) => Variant::Color,
        InputType::Image(_) => Variant::Image,
        _ => Variant::Float,
    }
}

/// The parameter for input number `index` of a kind.
pub fn param_index(index: usize, variant: Variant) -> (r: ParamIdx)
    ensures
        r == index_of(index as int, variant),
        index < MAX_INPUTS ==> r.index() == 7 + 7 * index + variant.place(),
{
    let low: usize = index % 256;
    let sum: usize = low * 7 + 7 + variant.offset();
    proof {
        let rest = 7 + variant.place();
        lemma_mul_mod_noop_left(index as int, 7, 256);
        lemma_add_mod_noop(index as int * 7, rest, 256);
        lemma_add_mod_noop(low as int * 7, rest, 256);
    }
    ParamIdx::Dynamic((sum % 256) as u8)
}

/// The parameter that shows input number `index`.
pub fn as_param_index(index: usize, variant: &InputType) -> (r: ParamIdx)
    ensures
        r == index_of(index as int, variant_of(*variant)),
{
    param_index(index, input_variant(variant))
}

/// The parameter that shows input number `index`, from the kind of the
/// input and whether it has labels.
pub fn index_from_mut(index: usize, kind: InputVariant, labelled: bool) -> (r: ParamIdx)
    ensures
        r == index_of(index as int, variant_of_kind(kind, labelled)),
{
    let variant = match kind {
        InputVariant::Float => Variant::Float,
        InputVariant::Int => if labelled {
            Variant::IntList
        } else {
            Variant::Int
        },
        InputVariant::Point => Variant::Point,
        InputVariant::Bool => Variant::Bool,
        InputVariant::Color => Variant::Color,
        InputVariant::Image => Variant::Image,
        _ => Variant::Float,
    };
    param_index(index, variant)
}

/// Within the host's 32 inputs, no two inputs share a parameter, and none
/// takes a fixed control.
pub proof fn lemma_indices_distinct(i: int, a: Variant, j: int, b: Variant)
    requires
        0 <= i < MAX_INPUTS,
        0 <= j < MAX_INPUTS,
    ensures
        index_of(i, a).index() >= STATIC_PARAMS_OFFSET,
        index_of(i, a).index() < PARAM_COUNT,
        index_of(i, a) == index_of(j, b) ==> i == j && a == b,
{
}

/// One step in bringing the host's parameters in line with a shader.
#[derive(Debug, Clone, Copy, PartialEq, Eq, Structural)]
pub enum UiStep {
    /// Show or hide a parameter.
    SetVisible { index: ParamIdx, visible: bool },
    /// Give a parameter the name, the default, the value and the limits of
    /// shader input number `input`, and tell the host that it changed.
    Configure { input: usize, index: ParamIdx },
    /// Note that the parameters are now in line with the shader.
    FinishReset,
}

/// What is known when the parameters are brought in line.
pub struct UiState {
    /// Whether a shader was set up on this instance.
    pub loaded: bool,
    /// Whether the instance holds a shader source.
    pub has_source: bool,
    /// Whether the source failed to build.
    pub build_failed: bool,
    /// Whether the parameters were changed since they were last configured.
    pub needs_reset: bool,
    /// The host's checkbox "Use Layer Time".
    pub use_layer_time: bool,
    /// The host's checkbox "Is Image Filter".
    pub is_image_filter: bool,
}

/// Hiding the parameters numbered `from` up to, not including, `to`.
pub open spec fn hide_range(from: int, to: int) -> Seq<UiStep> {
    Seq::new(
        (to - from) as nat,
        |i: int| UiStep::SetVisible { index: ParamIdx::Dynamic((from + i) as u8), visible: false },
    )
}

/// Showing the parameter of each of the first `n` inputs.
pub open spec fn show_inputs(inputs: Seq<InputType>, n: int) -> Seq<UiStep> {
    Seq::new(
        n as nat,
        |i: int| UiStep::SetVisible { index: index_of(i, variant_of(inputs[i])), visible: true },
    )
}

/// The first input at or after `from` that is fed from a layer.
pub open spec fn first_image_from(inputs: Seq<InputType>, from: int) -> Option<int>
    decreases inputs.len() - from,
{
    if from < 0 || from >= inputs.len() {
        None
    } else if is_image(inputs[from]) {
        Some(from)
    } else {
        first_image_from(inputs, from + 1)
    }
}

/// The steps that show a built shader: its controls, its inputs, and the
/// filter switch if an input is fed from a layer. As a filter the shader takes
/// the layer it is applied to as its first image, whose parameter is hidden.
pub open spec fn loaded_steps(state: UiState, inputs: Seq<InputType>) -> Seq<UiStep> {
    let controls = seq![
        UiStep::SetVisible { index: ParamIdx::LoadButton, visible: false },
        UiStep::SetVisible { index: ParamIdx::UnloadButton, visible: true },
        UiStep::SetVisible { index: ParamIdx::ReloadButton, visible: true },
        UiStep::SetVisible { index: ParamIdx::UseLayerTime, visible: true },
        UiStep::SetVisible { index: ParamIdx::Time, visible: !state.use_layer_time },
    ];
    let first = first_image_from(inputs, 0);
    let filter = seq![UiStep::SetVisible { index: ParamIdx::IsImageFilter, visible: first is Some }];
    let image = match first {
        Some(i) => seq![
            UiStep::SetVisible {
                index: index_of(i, variant_of(inputs[i])),
                visible: !state.is_image_filter,
            },
        ],
        None => Seq::<UiStep>::empty(),
    };
    controls + show_inputs(inputs, inputs.len() as int) + filter + image
}

/// The steps that show an instance without a working shader: only the button
/// that loads one.
pub open spec fn failed_steps() -> Seq<UiStep> {
    seq![
        UiStep::SetVisible { index: ParamIdx::LoadButton, visible: true },
        UiStep::SetVisible { index: ParamIdx::Time, visible: false },
        UiStep::SetVisible { index: ParamIdx::UnloadButton, visible: false },
        UiStep::SetVisible { index: ParamIdx::ReloadButton, visible: false },
        UiStep::SetVisible { index: ParamIdx::IsImageFilter, visible: false },
    ]
}

/// The steps of `update_param_ui`.
pub open spec fn ui_steps(state: UiState, inputs: Seq<InputType>) -> Seq<UiStep> {
    if !state.loaded {
        Seq::<UiStep>::empty()
    } else {
        hide_range(6, PARAM_COUNT as int) + (if !state.has_source || state.build_failed {
            failed_steps()
        } else {
            loaded_steps(state, inputs)
        })
    }
}

/// The steps that configure the first `n` inputs.
pub open spec fn configure_inputs(inputs: Seq<InputType>, n: int) -> Seq<UiStep>
    decreases n,
{
    if n <= 0 || n > inputs.len() {
        Seq::<UiStep>::empty()
    } else {
        let index = index_of(n - 1, variant_of(inputs[n - 1]));
        configure_inputs(inputs, n - 1) + seq![
            UiStep::SetVisible { index, visible: true },
            UiStep::Configure { input: (n - 1) as usize, index },
        ]
    }
}

/// The steps of `update_param_defaults_and_labels`.
pub open spec fn label_steps(state: UiState, inputs: Seq<InputType>) -> Seq<UiStep> {
    if !state.loaded {
        hide_range(2, PARAM_COUNT as int).push(
            UiStep::SetVisible { index: ParamIdx::LoadButton, visible: true },
        )
    } else {
        let time = if !state.use_layer_time {
            seq![UiStep::SetVisible { index: ParamIdx::Time, visible: true }]
        } else {
            Seq::<UiStep>::empty()
        };
        if !state.needs_reset {
            time
        } else {
            (time + configure_inputs(inputs, inputs.len() as int)).push(UiStep::FinishReset)
        }
    }
}

fn push_hidden(plan: &mut Vec<UiStep>, from: u8, to: u8)
    requires
        from <= to,
    ensures
        final(plan)@ == old(plan)@ + hide_range(from as int, to as int),
{
    let mut i: u8 = from;
    while i < to
        invariant
            from <= i <= to,
            plan@ == old(plan)@ + hide_range(from as int, i as int),
        decreases to - i,
    {
        plan.push(UiStep::SetVisible { index: ParamIdx::Dynamic(i), visible: false });
        i += 1;
        assert(plan@ =~= old(plan)@ + hide_range(from as int, i as int));
    }
    assert(plan@ =~= old(plan)@ + hide_range(from as int, to as int));
}

/// The first input that is fed from a layer, if there is one.
pub fn first_image_input(inputs: &Vec<InputType>) -> (r: Option<usize>)
    ensures
        match r {
            Some(i) => first_image_from(inputs@, 0) == Some(i as int) && i < inputs@.len()
                && is_image(inputs@[i as int]),
            None => first_image_from(inputs@, 0) is None,
        },
{
    let n = inputs.len();
    for i in 0..n
        invariant
            n == inputs@.len(),
            first_image_from(inputs@, 0) == first_image_from(inputs@, i as int),
    {
        match &inputs[i] {
            InputType::Image(_) => {
                return Some(i);
            },
            _ => {},
        }
    }
    None
}

/// Whether the host's filter switch is asked for when the parameters are
/// shown: only where the instance shows its shader, and the shader has an
/// input that is fed from a layer.
pub fn reads_filter_switch(local: &Local, inputs: &Vec<InputType>) -> (r: bool)
    ensures
        r == (local.src is Some && (local.local_init matches Some(init) && init.build_error
            is None) && first_image_from(inputs@, 0) is Some),
{
    local.shows_shader() && first_image_input(inputs).is_some()
}

/// Which parameters to show and which to hide, in the order in which the host
/// is told. Every parameter of a block is hidden first; then the instance
/// shows either its shader or the button that loads one.
pub fn update_param_ui(state: &UiState, inputs: &Vec<InputType>) -> (plan: Vec<UiStep>)
    ensures
        plan@ == ui_steps(*state, inputs@),
{
    let mut plan: Vec<UiStep> = Vec::new();
    if !state.loaded {
        return plan;
    }
    push_hidden(&mut plan, 6, 231);
    let ghost hidden = plan@;
    if !state.has_source || state.build_failed {
        plan.push(UiStep::SetVisible { index: ParamIdx::LoadButton, visible: true });
        plan.push(UiStep::SetVisible { index: ParamIdx::Time, visible: false });
        plan.push(UiStep::SetVisible { index: ParamIdx::UnloadButton, visible: false });
        plan.push(UiStep::SetVisible { index: ParamIdx::ReloadButton, visible: false });
        plan.push(UiStep::SetVisible { index: ParamIdx::IsImageFilter, visible: false });
        assert(plan@ =~= hidden + failed_steps());
        return plan;
    }
    plan.push(UiStep::SetVisible { index: ParamIdx::LoadButton, visible: false });
    plan.push(UiStep::SetVisible { index: ParamIdx::UnloadButton, visible: true });
    plan.push(UiStep::SetVisible { index: ParamIdx::ReloadButton, visible: true });
    plan.push(UiStep::SetVisible { index: ParamIdx::UseLayerTime, visible: true });
    plan.push(UiStep::SetVisible { index: ParamIdx::Time, visible: !state.use_layer_time });
    let ghost controls = plan@;
    let n = inputs.len();
    for i in 0..n
        invariant
            n == inputs@.len(),
            plan@ == controls + show_inputs(inputs@, i as int),
    {
        plan.push(UiStep::SetVisible { index: as_param_index(i, &inputs[i]), visible: true });
        assert(plan@ =~= controls + show_inputs(inputs@, i + 1));
    }
    let first = first_image_input(inputs);
    plan.push(UiStep::SetVisible { index: ParamIdx::IsImageFilter, visible: first.is_some() });
    match first {
        Some(i) => {
            plan.push(
                UiStep::SetVisible {
                    index: as_param_index(i, &inputs[i]),
                    visible: !state.is_image_filter,
                },
            );
        },
        None => {},
    }
    assert(plan@ =~= hidden + loaded_steps(*state, inputs@));
    plan
}

/// Which parameters to show, and which to give the name and the values of a
/// shader input, when a shader was loaded or unloaded.
pub fn update_param_defaults_and_labels(state: &UiState, inputs: &Vec<InputType>) -> (plan: Vec<
    UiStep,
>)
    ensures
        plan@ == label_steps(*state, inputs@),
{
    let mut plan: Vec<UiStep> = Vec::new();
    if !state.loaded {
        push_hidden(&mut plan, 2, 231);
        plan.push(UiStep::SetVisible { index: ParamIdx::LoadButton, visible: true });
        return plan;
    }
    if !state.use_layer_time {
        plan.push(UiStep::SetVisible { index: ParamIdx::Time, visible: true });
    }
    if !state.needs_reset {
        return plan;
    }
    let ghost time = plan@;
    let n = inputs.len();
    for i in 0..n
        invariant
            n == inputs@.len(),
            plan@ == time + configure_inputs(inputs@, i as int),
    {
        let index = as_param_index(i, &inputs[i]);
        plan.push(UiStep::SetVisible { index, visible: true });
        plan.push(UiStep::Configure { input: i, index });
        assert(plan@ =~= time + configure_inputs(inputs@, i + 1));
    }
    plan.push(UiStep::FinishReset);
    plan
}

/// One host parameter that backs shader inputs of one kind.
#[derive(Debug, Clone, Copy, PartialEq, Eq, Structural)]
pub struct Backing {
    /// The number in the parameter's name, `INPUT` and the number.
    pub number: i32,
    pub index: ParamIdx,
    pub variant: Variant,
}

/// The parameters that back the shader inputs: for each of the 32 inputs one
/// of each kind, numbered on from the fixed controls.
pub open spec fn backing_params(n: int) -> Seq<Backing> {
    Seq::new(
        n as nat,
        |k: int|
            Backing {
                number: (7 + k) as i32,
                index: ParamIdx::Dynamic((7 + k) as u8),
                variant: Variant::at(k % 7),
            },
    )
}

/// The parameters that back the shader inputs, in the order in which the
/// host is told of them.
pub fn create_variant_backing() -> (plan: Vec<Backing>)
    ensures
        plan@ == backing_params(7 * MAX_INPUTS),
{
    let mut plan: Vec<Backing> = Vec::new();
    let mut block: usize = 0;
    while block < 32
        invariant
            block <= 32,
            plan@ == backing_params(7 * block),
        decreases 32 - block,
    {
        let base: usize = 7 + 7 * block;
        let mut offset: usize = 0;
        while offset < 7
            invariant
                block < 32,
                base == 7 + 7 * block,
                offset <= 7,
                plan@ == backing_params(7 * block + offset),
            decreases 7 - offset,
        {
            let number: usize = base + offset;
            plan.push(
                Backing {
                    number: number as i32,
                    index: ParamIdx::Dynamic(number as u8),
                    variant: Variant::from_offset(offset),
                },
            );
            assert((7 * block + offset) % 7 == offset as int) by (nonlinear_arith)
                requires
                    0 <= offset < 7,
                    block >= 0,
            ;
            offset += 1;
            assert(plan@ =~= backing_params(7 * block + offset));
        }
        block += 1;
    }
    plan
}

/// The kinds of the fixed controls.
#[derive(Debug, Clone, Copy, PartialEq, Eq, Structural)]
pub enum ControlKind {
    /// A button with a label.
    Button,
    /// The slider for the shader's time.
    TimeSlider,
    /// A checkbox labelled "Enabled" that starts checked.
    CheckedBox,
}

/// One of the fixed controls, as the host is told of it.
#[derive(Debug, Clone, Copy)]
pub struct StaticParam {
    pub index: ParamIdx,
    pub name: &'static str,
    pub label: &'static str,
    pub kind: ControlKind,
    /// Whether the control is supervised, collapsed and fixed in time; the
    /// time slider is none of these.
    pub supervised: bool,
}

/// The fixed controls, in the order of their indices.
pub fn setup_static_params() -> (plan: Vec<StaticParam>)
    ensures
        plan@.len() == 6,
        forall|i: int| 0 <= i < 6 ==> (#[trigger] plan@[i]).index.index() == i + 1,
        forall|i: int| 0 <= i < 6 ==> (#[trigger] plan@[i]).supervised == (i != 3),
        plan@[0].kind == ControlKind::Button && plan@[0].name@ == "Select Source"@
            && plan@[0].label@ == "Select Source"@,
        plan@[1].kind == ControlKind::Button && plan@[1].name@ == "Unload Source"@
            && plan@[1].label@ == "Unload Source"@,
        plan@[2].kind == ControlKind::Button && plan@[2].name@ == "Realod Source"@
            && plan@[2].label@ == "Resload Source"@,
        plan@[3].kind == ControlKind::TimeSlider && plan@[3].name@ == "Time"@ && plan@[3].label@
            == ""@,
        plan@[4].kind == ControlKind::CheckedBox && plan@[4].name@ == "Is Image Filter"@
            && plan@[4].label@ == "Enabled"@,
        plan@[5].kind == ControlKind::CheckedBox && plan@[5].name@ == "Use Layer Time"@
            && plan@[5].label@ == "Enabled"@,
{
    let mut plan: Vec<StaticParam> = Vec::new();
    plan.push(
        StaticParam {
            index: ParamIdx::LoadButton,
            name: "Select Source",
            label: "Select Source",
            kind: ControlKind::Button,
            supervised: true,
        },
    );
    plan.push(
        StaticParam {
            index: ParamIdx::UnloadButton,
            name: "Unload Source",
            label: "Unload Source",
            kind: ControlKind::Button,
            supervised: true,
        },
    );
    plan.push(
        StaticParam {
            index: ParamIdx::ReloadButton,
            name: "Realod Source",
            label: "Resload Source",
            kind: ControlKind::Button,
            supervised: true,
        },
    );
    plan.push(
        StaticParam {
            index: ParamIdx::Time,
            name: "Time",
            label: "",
            kind: ControlKind::TimeSlider,
            supervised: false,
        },
    );
    plan.push(
        StaticParam {
            index: ParamIdx::IsImageFilter,
            name: "Is Image Filter",
            label: "Enabled",
            kind: ControlKind::CheckedBox,
            supervised: true,
        },
    );
    plan.push(
        StaticParam {
            index: ParamIdx::UseLayerTime,
            name: "Use Layer Time",
            label: "Enabled",
            kind: ControlKind::CheckedBox,
            supervised: true,
        },
    );
    plan
}

} // verus!
