//! What a frame needs before it is rendered: which way it takes, which
//! layers of the host it reads, and in which format they are uploaded.

use vstd::prelude::*;
use tweak_shader::input_type::InputType;
use tweak_shader::wgpu::TextureFormat;
use crate::param_util::{index_of, is_image, param_index, Variant};
use crate::types::{texture_format_of, try_into, LocalInit, ParamIdx, PixelFormat};

verus! {

/// The host parameter under which the layer that the effect is applied to is
/// checked out.
pub open spec fn input_layer_id() -> ParamIdx {
    ParamIdx::Dynamic(240)
}

/// How a frame is rendered.
#[derive(Debug, Clone, Copy, PartialEq, Eq, Structural)]
pub enum RenderPath {
    /// Through the precision bridge: the host's frames have 16 bits per
    /// channel.
    Bridged,
    /// Straight from and into the host's buffers.
    Direct,
}

/// The way a frame takes: none without a GPU or without a shader set up, the
/// bridge where the instance has one.
pub fn render(global_ready: bool, local: &Option<LocalInit>) -> (r: Result<RenderPath, ()>)
    ensures
        r == match (global_ready, *local) {
            (true, Some(init)) => Ok::<RenderPath, ()>(
                if init.u16_converter is Some {
                    RenderPath::Bridged
                } else {
                    RenderPath::Direct
                },
            ),
            _ => Err::<RenderPath, ()>(()),
        },
{
    if !global_ready {
        return Err(());
    }
    match local {
        Some(init) => match &init.u16_converter {
            Some(_) => Ok(RenderPath::Bridged),
            None => Ok(RenderPath::Direct),
        },
        None => Err(()),
    }
}

/// The format in which a layer is uploaded on the direct way: the one of its
/// pixel layout, or the shader's own format where the layout has none.
pub fn upload_format(reported: PixelFormat, fallback: TextureFormat) -> (r: TextureFormat)
    ensures
        r == match texture_format_of(reported) {
            Some(f) => f,
            None => fallback,
        },
{
    match try_into(reported) {
        Ok(f) => f,
        Err(_) => fallback,
    }
}

/// The layers that a frame reads, and the inputs that have none.
pub struct LayerPlan {
    /// For each input that reads a layer: its number, and the host parameter
    /// under which the layer is checked out.
    pub checkout: Vec<(usize, ParamIdx)>,
    /// The inputs whose texture is taken out of the shader: no layer is set.
    pub remove: Vec<usize>,
}

/// Whether input `k` is the one that a filter feeds from the layer it is
/// applied to: the first input that is fed from a layer.
pub open spec fn takes_filter_layer(inputs: Seq<InputType>, filter: bool, k: int) -> bool {
    filter && is_image(inputs[k]) && forall|j: int| 0 <= j < k ==> !is_image(#[trigger] inputs[j])
}

/// Whether the host's layer parameter of input `k` holds a layer, as `set`
/// tells it; an input that `set` does not reach has none.
pub open spec fn has_layer(set: Seq<bool>, k: int) -> bool {
    0 <= k < set.len() && set[k]
}

/// The layers read by the first `n` inputs.
pub open spec fn checkout_list(inputs: Seq<InputType>, set: Seq<bool>, filter: bool, n: int) -> Seq<
    (usize, ParamIdx),
>
    decreases n,
{
    if n <= 0 || n > inputs.len() {
        Seq::empty()
    } else {
        let before = checkout_list(inputs, set, filter, n - 1);
        let k = n - 1;
        if takes_filter_layer(inputs, filter, k) {
            before.push((k as usize, input_layer_id()))
        } else if is_image(inputs[k]) && has_layer(set, k) {
            before.push((k as usize, index_of(k, Variant::Image)))
        } else {
            before
        }
    }
}

/// Those of the first `n` inputs that are fed from a layer and have none.
pub open spec fn remove_list(inputs: Seq<InputType>, set: Seq<bool>, filter: bool, n: int) -> Seq<
    usize,
>
    decreases n,
{
    if n <= 0 || n > inputs.len() {
        Seq::empty()
    } else {
        let before = remove_list(inputs, set, filter, n - 1);
        let k = n - 1;
        if is_image(inputs[k]) && !takes_filter_layer(inputs, filter, k) && !has_layer(set, k) {
            before.push(k as usize)
        } else {
            before
        }
    }
}

/// Says which layers a frame reads. As a filter the shader reads the layer it
/// is applied to through its first image input, whatever that input's own
/// parameter holds; every other image input reads the layer that its
/// parameter holds, and is taken out of the shader where it holds none.
pub fn load_parameters(inputs: &Vec<InputType>, layer_set: &Vec<bool>, is_image_filter: bool) -> (r:
    LayerPlan)
    ensures
        r.checkout@ == checkout_list(inputs@, layer_set@, is_image_filter, inputs@.len() as int),
        r.remove@ == remove_list(inputs@, layer_set@, is_image_filter, inputs@.len() as int),
{
    let mut checkout: Vec<(usize, ParamIdx)> = Vec::new();
    let mut remove: Vec<usize> = Vec::new();
    let mut first_image = true;
    let n = inputs.len();
    for i in 0..n
        invariant
            n == inputs@.len(),
            first_image == (forall|j: int| 0 <= j < i ==> !is_image(#[trigger] inputs@[j])),
            checkout@ == checkout_list(inputs@, layer_set@, is_image_filter, i as int),
            remove@ == remove_list(inputs@, layer_set@, is_image_filter, i as int),
    {
        match &inputs[i] {
            InputType::Image(_) => {
                if first_image && is_image_filter {
                    first_image = false;
                    checkout.push((i, ParamIdx::Dynamic(240)));
                } else {
                    first_image = false;
                    if i < layer_set.len() && layer_set[i] {
                        checkout.push((i, param_index(i, Variant::Image)));
                    } else {
                        remove.push(i);
                    }
                }
            },
            _ => {},
        }
    }
    LayerPlan { checkout, remove }
}

} // verus!
