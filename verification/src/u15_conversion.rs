//! The precision bridge: frames of 16-bit pixels in, frames of 16-bit pixels
//! out, with the shader working on floating-point textures in between.
//!
//! The bridge itself owns no GPU object. It keeps what it knows of the
//! floating-point textures, one for each named input and one for the output,
//! and says for each frame which steps the GPU side has to take, in order. A
//! texture is made again only when its size differs from the size asked for.

use vstd::prelude::*;
use tweak_shader::wgpu::TextureFormat;
use crate::channels::same_text;

verus! {

/// One step for the GPU side. A staging texture is known by its slot.
#[derive(Clone, Copy, Debug, PartialEq, Eq, Structural)]
pub enum Action {
    /// Make a floating-point texture of this size for the slot, in place of
    /// the one that the slot held, if it held one.
    CreateStaging { slot: usize, width: u32, height: u32 },
    /// Hand the pixels of the frame's input `layer` to the input converter.
    LoadSource { layer: usize, width: u32, height: u32, stride: u32 },
    /// Set the `height` input of the input converter.
    SetInputHeight { height: u32 },
    /// Set the `width` input of the input converter.
    SetInputWidth { width: u32 },
    /// Encode the pass that converts the loaded pixels into the slot's texture.
    ConvertInput { slot: usize, width: u32, height: u32 },
    /// Submit every pass encoded so far, as one batch.
    Submit,
    /// Bind the slot's texture in the main shader, under the slot's name.
    ShareStaging { slot: usize },
    /// Make the floating-point output texture of this size, in place of the
    /// one held, if one was held.
    CreateOutput { width: u32, height: u32 },
    /// Render the main shader into the output texture.
    RenderMain { width: u32, height: u32 },
    /// Set the `height` input of the output converter.
    SetOutputHeight { height: u32 },
    /// Set the `width` input of the output converter.
    SetOutputWidth { width: u32 },
    /// Bind the output texture as the source of the output converter.
    ShareOutput,
    /// Convert into the host's buffer, whose rows are `stride` bytes apart.
    ReadBack { width: u32, height: u32, stride: u32 },
}

/// One input of a frame: the name of the shader input it feeds, and the shape
/// of the host's pixel buffer.
pub struct LayerInput {
    pub name: String,
    pub width: u32,
    pub height: u32,
    /// Bytes from one row to the next, as the host reports them; negative for
    /// a buffer stored bottom-up.
    pub row_bytes: i32,
}

/// A `LayerInput` as a plain value.
pub struct LayerView {
    pub name: Seq<char>,
    pub width: u32,
    pub height: u32,
    pub row_bytes: i32,
}

impl LayerView {
    /// The distance between rows, without its sign.
    pub open spec fn stride(self) -> u32 {
        if self.row_bytes >= 0 {
            self.row_bytes as u32
        } else {
            (-self.row_bytes) as u32
        }
    }
}

impl DeepView for LayerInput {
    type V = LayerView;

    open spec fn deep_view(&self) -> LayerView {
        LayerView {
            name: self.name@,
            width: self.width,
            height: self.height,
            row_bytes: self.row_bytes,
        }
    }
}

impl LayerInput {
    /// The distance between rows, without its sign.
    pub fn stride(&self) -> (r: u32)
        ensures
            r == self.deep_view().stride(),
    {
        if self.row_bytes >= 0 {
            self.row_bytes as u32
        } else {
            let wide: i64 = self.row_bytes as i64;
            (-wide) as u32
        }
    }
}

/// What the bridge knows of one staging texture.
pub struct StagingView {
    pub name: Seq<char>,
    pub width: u32,
    pub height: u32,
}

/// What the bridge knows: the staging textures by slot, and the size of the
/// output texture if there is one.
pub struct CacheView {
    pub staging: Seq<StagingView>,
    pub output: Option<(u32, u32)>,
}

/// No two slots have the same name.
pub open spec fn names_unique(staging: Seq<StagingView>) -> bool {
    forall|i: int, j: int|
        0 <= i < j < staging.len() ==> (#[trigger] staging[i]).name != (#[trigger] staging[j]).name
}

/// The first slot at or after `from` that has the name.
pub open spec fn position_from(staging: Seq<StagingView>, name: Seq<char>, from: int) -> Option<int>
    decreases staging.len() - from,
{
    if from < 0 || from >= staging.len() {
        None
    } else if staging[from].name == name {
        Some(from)
    } else {
        position_from(staging, name, from + 1)
    }
}

/// The slot that has the name, if there is one.
pub open spec fn position(staging: Seq<StagingView>, name: Seq<char>) -> Option<int> {
    position_from(staging, name, 0)
}

/// The slot that a texture of this name is in once it was asked for: the one
/// it has, or a new one behind the others.
pub open spec fn resolved_slot(staging: Seq<StagingView>, name: Seq<char>) -> int {
    match position(staging, name) {
        Some(i) => i,
        None => staging.len() as int,
    }
}

/// Whether a texture of this name and size has to be made: there is none of
/// the name, or the one there is has another width or another height.
pub open spec fn must_create(
    staging: Seq<StagingView>,
    name: Seq<char>,
    width: u32,
    height: u32,
) -> bool {
    match position(staging, name) {
        Some(i) => !(staging[i].width == width && staging[i].height == height),
        None => true,
    }
}

/// The slots after a texture of this name and size was asked for.
pub open spec fn resolved(
    staging: Seq<StagingView>,
    name: Seq<char>,
    width: u32,
    height: u32,
) -> Seq<StagingView> {
    match position(staging, name) {
        Some(i) => if must_create(staging, name, width, height) {
            staging.update(i, StagingView { name, width, height })
        } else {
            staging
        },
        None => staging.push(StagingView { name, width, height }),
    }
}

/// The slots after the first `n` inputs of a frame were prepared.
pub open spec fn staging_after(staging: Seq<StagingView>, layers: Seq<LayerView>, n: int) -> Seq<
    StagingView,
>
    decreases n,
{
    if n <= 0 || n > layers.len() {
        staging
    } else {
        let l = layers[n - 1];
        resolved(staging_after(staging, layers, n - 1), l.name, l.width, l.height)
    }
}

/// The steps for input `k` of a frame, given the slots before it.
pub open spec fn input_actions(staging: Seq<StagingView>, k: int, l: LayerView) -> Seq<Action> {
    let slot = resolved_slot(staging, l.name) as usize;
    let create = if must_create(staging, l.name, l.width, l.height) {
        seq![Action::CreateStaging { slot, width: l.width, height: l.height }]
    } else {
        Seq::<Action>::empty()
    };
    create + seq![
        Action::LoadSource { layer: k as usize, width: l.width, height: l.height, stride: l.stride() },
        Action::SetInputHeight { height: l.height },
        Action::SetInputWidth { width: l.width },
        Action::ConvertInput { slot, width: l.width, height: l.height },
    ]
}

/// The steps for the first `n` inputs of a frame.
pub open spec fn input_plan(staging: Seq<StagingView>, layers: Seq<LayerView>, n: int) -> Seq<Action>
    decreases n,
{
    if n <= 0 || n > layers.len() {
        Seq::<Action>::empty()
    } else {
        input_plan(staging, layers, n - 1) + input_actions(
            staging_after(staging, layers, n - 1),
            n - 1,
            layers[n - 1],
        )
    }
}

/// The steps that bind every staging texture in the main shader.
pub open spec fn share_plan(slots: nat) -> Seq<Action> {
    Seq::new(slots, |i: int| Action::ShareStaging { slot: i as usize })
}

/// The steps that render a frame and hand it to the host.
pub open spec fn output_plan(held: Option<(u32, u32)>, width: u32, height: u32, stride: u32) -> Seq<
    Action,
> {
    let create = if held == Some((width, height)) {
        Seq::<Action>::empty()
    } else {
        seq![Action::CreateOutput { width, height }]
    };
    create + seq![
        Action::RenderMain { width, height },
        Action::SetOutputHeight { height },
        Action::SetOutputWidth { width },
        Action::ShareOutput,
        Action::ReadBack { width, height, stride },
    ]
}

struct Staging {
    name: String,
    width: u32,
    height: u32,
}

/// The state of the bridge between frames.
pub struct U16ConversionContext {
    fp_staging_textures: Vec<Staging>,
    fp16_output_texture: Option<(u32, u32)>,
}

impl View for U16ConversionContext {
    type V = CacheView;

    closed spec fn view(&self) -> CacheView {
        CacheView {
            staging: Seq::new(
                self.fp_staging_textures@.len(),
                |i: int|
                    StagingView {
                        name: self.fp_staging_textures@[i].name@,
                        width: self.fp_staging_textures@[i].width,
                        height: self.fp_staging_textures@[i].height,
                    },
            ),
            output: self.fp16_output_texture,
        }
    }
}

impl U16ConversionContext {
    /// Every name has one slot. Every bridge that `new` made and these
    /// methods changed is such a bridge.
    pub open spec fn wf(&self) -> bool {
        names_unique(self@.staging)
    }

    /// A bridge that holds no texture yet.
    pub fn new() -> (r: Self)
        ensures
            r.wf(),
            r@.staging.len() == 0,
            r@.output is None,
    {
        Self { fp_staging_textures: Vec::new(), fp16_output_texture: None }
    }

    /// How many staging textures the bridge knows.
    pub fn staging_count(&self) -> (r: usize)
        ensures
            r == self@.staging.len(),
    {
        self.fp_staging_textures.len()
    }

    /// The name of the shader input that a slot's texture is bound to.
    pub fn staging_name(&self, slot: usize) -> (r: Option<String>)
        ensures
            match r {
                Some(name) => slot < self@.staging.len() && name@ == self@.staging[slot as int].name,
                None => slot >= self@.staging.len(),
            },
    {
        if slot < self.fp_staging_textures.len() {
            Some(self.fp_staging_textures[slot].name.clone())
        } else {
            None
        }
    }

    /// The width and height of a slot's texture.
    pub fn staging_size(&self, slot: usize) -> (r: Option<(u32, u32)>)
        ensures
            match r {
                Some(size) => slot < self@.staging.len() && size == (
                    self@.staging[slot as int].width,
                    self@.staging[slot as int].height,
                ),
                None => slot >= self@.staging.len(),
            },
    {
        if slot < self.fp_staging_textures.len() {
            let s = &self.fp_staging_textures[slot];
            Some((s.width, s.height))
        } else {
            None
        }
    }

    /// The width and height of the output texture, if there is one.
    pub fn output_size(&self) -> (r: Option<(u32, u32)>)
        ensures
            r == self@.output,
    {
        self.fp16_output_texture
    }

    /// The slot of the texture of this name, if there is one.
    pub fn find_staging(&self, name: &str) -> (r: Option<usize>)
        ensures
            match r {
                Some(i) => position(self@.staging, name@) == Some(i as int) && i
                    < self@.staging.len(),
                None => position(self@.staging, name@) is None,
            },
    {
        let n = self.fp_staging_textures.len();
        for i in 0..n
            invariant
                n == self@.staging.len(),
                position(self@.staging, name@) == position_from(self@.staging, name@, i as int),
        {
            if same_text(&self.fp_staging_textures[i].name, name) {
                return Some(i);
            }
        }
        None
    }

    /// Asks for the staging texture of a name in a size. Says which slot it is
    /// in, and whether it has to be made: a texture of the same size is kept,
    /// one of another size gives way.
    pub fn resolve_staging(&mut self, name: &str, width: u32, height: u32) -> (r: (usize, bool))
        requires
            old(self).wf(),
        ensures
            final(self).wf(),
            final(self)@.staging == resolved(old(self)@.staging, name@, width, height),
            final(self)@.output == old(self)@.output,
            r.0 == resolved_slot(old(self)@.staging, name@),
            r.1 == must_create(old(self)@.staging, name@, width, height),
    {
        proof {
            lemma_resolved_keeps_names_unique(self@.staging, name@, width, height);
            lemma_position_found(self@.staging, name@, 0);
        }
        match self.find_staging(name) {
            Some(i) => {
                let held = &self.fp_staging_textures[i];
                if held.width == width && held.height == height {
                    (i, false)
                } else {
                    let kept_name = held.name.clone();
                    self.fp_staging_textures.set(i, Staging { name: kept_name, width, height });
                    assert(self@.staging =~= resolved(old(self)@.staging, name@, width, height));
                    (i, true)
                }
            },
            None => {
                let slot = self.fp_staging_textures.len();
                self.fp_staging_textures.push(Staging { name: name.to_owned(), width, height });
                assert(self@.staging =~= resolved(old(self)@.staging, name@, width, height));
                (slot, true)
            },
        }
    }

    /// Asks for the output texture in a size. Says whether it has to be made.
    pub fn resolve_output(&mut self, width: u32, height: u32) -> (created: bool)
        requires
            old(self).wf(),
        ensures
            final(self).wf(),
            final(self)@.staging == old(self)@.staging,
            final(self)@.output == Some((width, height)),
            created == (old(self)@.output != Some((width, height))),
    {
        let reuse = match self.fp16_output_texture {
            Some((w, h)) => w == width && h == height,
            None => false,
        };
        if !reuse {
            self.fp16_output_texture = Some((width, height));
        }
        !reuse
    }

    /// The steps that convert the inputs of a frame to floating point, each
    /// into the staging texture of its name, and submit the conversions as one
    /// batch.
    pub fn prepare_cpu_layer_inputs(&mut self, layers: &Vec<LayerInput>) -> (plan: Vec<Action>)
        requires
            old(self).wf(),
        ensures
            final(self).wf(),
            final(self)@.staging == staging_after(
                old(self)@.staging,
                layers.deep_view(),
                layers@.len() as int,
            ),
            final(self)@.output == old(self)@.output,
            plan@ == input_plan(old(self)@.staging, layers.deep_view(), layers@.len() as int).push(
                Action::Submit,
            ),
    {
        let mut plan: Vec<Action> = Vec::new();
        let n = layers.len();
        for i in 0..n
            invariant
                n == layers@.len(),
                self.wf(),
                self@.staging == staging_after(old(self)@.staging, layers.deep_view(), i as int),
                self@.output == old(self)@.output,
                plan@ == input_plan(old(self)@.staging, layers.deep_view(), i as int),
        {
            let layer = &layers[i];
            let ghost before = plan@;
            let ghost l = layers.deep_view()[i as int];
            assert(l == layer.deep_view());
            let (slot, created) = self.resolve_staging(layer.name.as_str(), layer.width, layer.height);
            if created {
                plan.push(Action::CreateStaging { slot, width: layer.width, height: layer.height });
            }
            plan.push(
                Action::LoadSource {
                    layer: i,
                    width: layer.width,
                    height: layer.height,
                    stride: layer.stride(),
                },
            );
            plan.push(Action::SetInputHeight { height: layer.height });
            plan.push(Action::SetInputWidth { width: layer.width });
            plan.push(Action::ConvertInput { slot, width: layer.width, height: layer.height });
            assert(plan@ =~= before + input_actions(
                staging_after(old(self)@.staging, layers.deep_view(), i as int),
                i as int,
                l,
            ));
        }
        plan.push(Action::Submit);
        plan
    }

    /// The steps that bind the staging textures in the main shader, render it
    /// into the output texture, and convert that into the host's buffer, whose
    /// rows are `stride` bytes apart.
    pub fn render_u15_to_cpu_buffer(&mut self, width: u32, height: u32, stride: u32) -> (plan: Vec<
        Action,
    >)
        requires
            old(self).wf(),
        ensures
            final(self).wf(),
            final(self)@.staging == old(self)@.staging,
            final(self)@.output == Some((width, height)),
            plan@ == share_plan(old(self)@.staging.len()) + output_plan(
                old(self)@.output,
                width,
                height,
                stride,
            ),
    {
        let mut plan: Vec<Action> = Vec::new();
        let n = self.fp_staging_textures.len();
        for i in 0..n
            invariant
                n == self@.staging.len(),
                plan@ == share_plan(i as nat),
        {
            plan.push(Action::ShareStaging { slot: i });
            assert(plan@ =~= share_plan((i + 1) as nat));
        }
        let ghost shared = plan@;
        if self.resolve_output(width, height) {
            plan.push(Action::CreateOutput { width, height });
        }
        plan.push(Action::RenderMain { width, height });
        plan.push(Action::SetOutputHeight { height });
        plan.push(Action::SetOutputWidth { width });
        plan.push(Action::ShareOutput);
        plan.push(Action::ReadBack { width, height, stride });
        assert(plan@ =~= shared + output_plan(old(self)@.output, width, height, stride));
        plan
    }
}

/// The name under which each converter reads its source texture.
pub const SOURCE_TEXTURE: &'static str = "input_image";

/// The name of the converters' input for the width of the frame.
pub const WIDTH_INPUT: &'static str = "width";

/// The name of the converters' input for the height of the frame.
pub const HEIGHT_INPUT: &'static str = "height";

/// The format in which the host's 16-bit pixels are handed to the input
/// converter: 16 bits per channel, read as fractions of one.
pub fn source_format() -> (r: TextureFormat)
    ensures
        r == TextureFormat::Rgba16Unorm,
{
    TextureFormat::Rgba16Unorm
}

/// The format of the staging textures and of the output texture: 16-bit
/// floating point, which the main shader works on.
pub fn working_format() -> (r: TextureFormat)
    ensures
        r == TextureFormat::Rgba16Float,
{
    TextureFormat::Rgba16Float
}

/// The format that the output converter renders to: 16-bit integers, as the
/// host stores them.
pub fn readback_format() -> (r: TextureFormat)
    ensures
        r == TextureFormat::Rgba16Uint,
{
    TextureFormat::Rgba16Uint
}

/// How many bytes a pixel takes in the format that is read back: four
/// channels of 16 bits.
pub const READBACK_PIXEL_BYTES: u64 = 8;

/// How many bytes the pixels of one row of a frame take when it is read back.
pub fn readback_row_bytes(width: u32) -> (r: u64)
    ensures
        r == width * READBACK_PIXEL_BYTES,
{
    let wide: u64 = width as u64;
    wide * READBACK_PIXEL_BYTES
}

/// How many dimensions a texture has.
#[derive(Debug, Clone, Copy, PartialEq, Eq, Structural)]
pub enum TargetDimension {
    D1,
    D2,
    D3,
}

/// What a texture of the bridge may be used for.
#[derive(Debug, Clone, Copy, PartialEq, Eq, Structural)]
pub struct TargetUsage {
    pub copy_dst: bool,
    pub texture_binding: bool,
    pub render_attachment: bool,
    pub copy_src: bool,
}

/// The description from which a texture of the bridge is made.
#[derive(Debug, Clone, Copy)]
pub struct TargetDescriptor {
    pub width: u32,
    pub height: u32,
    pub depth_or_array_layers: u32,
    pub mip_level_count: u32,
    pub sample_count: u32,
    pub dimension: TargetDimension,
    pub format: TextureFormat,
    pub usage: TargetUsage,
    /// Whether the texture has a label.
    pub labelled: bool,
    /// In how many other formats the texture is viewed.
    pub view_formats: usize,
}

/// Describes a texture of the bridge: one flat image of the size and format
/// given, a single level, a single sample, to be rendered into, bound in a
/// shader, and copied from and to; without a label, and viewed in its own
/// format only.
pub fn target_desc(width: u32, height: u32, format: TextureFormat) -> (r: TargetDescriptor)
    ensures
        r == (TargetDescriptor {
            width,
            height,
            depth_or_array_layers: 1,
            mip_level_count: 1,
            sample_count: 1,
            dimension: TargetDimension::D2,
            format,
            usage: TargetUsage {
                copy_dst: true,
                texture_binding: true,
                render_attachment: true,
                copy_src: true,
            },
            labelled: false,
            view_formats: 0,
        }),
{
    TargetDescriptor {
        width,
        height,
        depth_or_array_layers: 1,
        mip_level_count: 1,
        sample_count: 1,
        dimension: TargetDimension::D2,
        format,
        usage: TargetUsage {
            copy_dst: true,
            texture_binding: true,
            render_attachment: true,
            copy_src: true,
        },
        labelled: false,
        view_formats: 0,
    }
}

/// Where a search for a name succeeds, it points at a slot of that name, and
/// no slot before it has the name.
pub proof fn lemma_position_found(staging: Seq<StagingView>, name: Seq<char>, from: int)
    requires
        0 <= from,
    ensures
        match position_from(staging, name, from) {
            Some(i) => from <= i < staging.len() && staging[i].name == name && forall|j: int|
                from <= j < i ==> (#[trigger] staging[j]).name != name,
            None => forall|j: int| from <= j < staging.len() ==> (#[trigger] staging[j]).name != name,
        },
    decreases staging.len() - from,
{
    if from < staging.len() && staging[from].name != name {
        lemma_position_found(staging, name, from + 1);
    }
}

/// The first slot of a name is where a search for the name ends.
pub proof fn lemma_position_first(staging: Seq<StagingView>, name: Seq<char>, from: int, i: int)
    requires
        0 <= from <= i < staging.len(),
        staging[i].name == name,
        forall|j: int| from <= j < i ==> (#[trigger] staging[j]).name != name,
    ensures
        position_from(staging, name, from) == Some(i),
    decreases i - from,
{
    if from < i {
        lemma_position_first(staging, name, from + 1, i);
    }
}

/// Once a texture was asked for, its name is found in the slot that was said.
pub proof fn lemma_resolved_position(
    staging: Seq<StagingView>,
    name: Seq<char>,
    width: u32,
    height: u32,
)
    ensures
        position(resolved(staging, name, width, height), name) == Some(
            resolved_slot(staging, name),
        ),
        resolved(staging, name, width, height)[resolved_slot(staging, name)] == (StagingView {
            name,
            width,
            height,
        }),
{
    lemma_position_found(staging, name, 0);
    lemma_position_first(
        resolved(staging, name, width, height),
        name,
        0,
        resolved_slot(staging, name),
    );
}

/// Asking for a texture leaves every name in one slot.
pub proof fn lemma_resolved_keeps_names_unique(
    staging: Seq<StagingView>,
    name: Seq<char>,
    width: u32,
    height: u32,
)
    requires
        names_unique(staging),
    ensures
        names_unique(resolved(staging, name, width, height)),
{
    lemma_position_found(staging, name, 0);
}

/// A frame that asks again for a texture in the size it has keeps it: nothing
/// is made, and the bridge knows what it knew.
pub proof fn lemma_same_size_reuses(
    staging: Seq<StagingView>,
    name: Seq<char>,
    width: u32,
    height: u32,
)
    ensures
        !must_create(resolved(staging, name, width, height), name, width, height),
        resolved(resolved(staging, name, width, height), name, width, height) == resolved(
            staging,
            name,
            width,
            height,
        ),
        resolved_slot(resolved(staging, name, width, height), name) == resolved_slot(staging, name),
{
    lemma_resolved_position(staging, name, width, height);
}

/// A frame that asks for a texture in another size than it has gets a new one
/// in the same slot, and the old size is known no more.
pub proof fn lemma_other_size_replaces(
    staging: Seq<StagingView>,
    name: Seq<char>,
    width: u32,
    height: u32,
    new_width: u32,
    new_height: u32,
)
    requires
        new_width != width || new_height != height,
    ensures
        ({
            let first = resolved(staging, name, width, height);
            let second = resolved(first, name, new_width, new_height);
            let slot = resolved_slot(staging, name);
            &&& must_create(first, name, new_width, new_height)
            &&& resolved_slot(first, name) == slot
            &&& second.len() == first.len()
            &&& second[slot] == StagingView { name, width: new_width, height: new_height }
            &&& forall|i: int| 0 <= i < first.len() && i != slot ==> second[i] == first[i]
        }),
{
    let first = resolved(staging, name, width, height);
    lemma_resolved_position(staging, name, width, height);
    lemma_position_found(first, name, 0);
    assert(0 <= resolved_slot(staging, name) < first.len());
}

/// No two inputs of a frame feed the same shader input.
pub open spec fn layer_names_distinct(layers: Seq<LayerView>) -> bool {
    forall|i: int, j: int|
        0 <= i < j < layers.len() ==> (#[trigger] layers[i]).name != (#[trigger] layers[j]).name
}

/// A search for a name goes the same way in two lists of slots that have the
/// same names in the same places, but for slots of other names at the end of
/// the second.
pub proof fn lemma_position_among_others(
    s: Seq<StagingView>,
    t: Seq<StagingView>,
    name: Seq<char>,
    from: int,
)
    requires
        0 <= from,
        s.len() <= t.len(),
        forall|i: int| 0 <= i < s.len() ==> (#[trigger] t[i]).name == s[i].name,
        forall|i: int| s.len() <= i < t.len() ==> (#[trigger] t[i]).name != name,
    ensures
        position_from(t, name, from) == position_from(s, name, from),
    decreases t.len() - from,
{
    if from < t.len() {
        lemma_position_among_others(s, t, name, from + 1);
    }
}

/// Asking for a texture of one name leaves the texture of every other name
/// where it is and as it is.
pub proof fn lemma_other_names_kept(
    staging: Seq<StagingView>,
    asked: Seq<char>,
    width: u32,
    height: u32,
    name: Seq<char>,
)
    requires
        name != asked,
    ensures
        position(resolved(staging, asked, width, height), name) == position(staging, name),
        position(staging, name) matches Some(i) ==> resolved(staging, asked, width, height)[i]
            == staging[i],
{
    lemma_position_found(staging, asked, 0);
    lemma_position_found(staging, name, 0);
    lemma_position_among_others(staging, resolved(staging, asked, width, height), name, 0);
}

/// Once a frame was prepared, each of its inputs has a texture of its size.
pub proof fn lemma_frame_is_held(
    staging: Seq<StagingView>,
    layers: Seq<LayerView>,
    n: int,
    k: int,
)
    requires
        layer_names_distinct(layers),
        0 <= k < n <= layers.len(),
    ensures
        !must_create(
            staging_after(staging, layers, n),
            layers[k].name,
            layers[k].width,
            layers[k].height,
        ),
    decreases n,
{
    let before = staging_after(staging, layers, n - 1);
    let last = layers[n - 1];
    if k == n - 1 {
        lemma_resolved_position(before, last.name, last.width, last.height);
    } else {
        lemma_frame_is_held(staging, layers, n - 1, k);
        lemma_other_names_kept(before, last.name, last.width, last.height, layers[k].name);
    }
}

/// A frame with the inputs of the frame before it, each in the size it had,
/// makes no texture: every staging texture is the one of the frame before.
pub proof fn lemma_same_frame_reuses(staging: Seq<StagingView>, layers: Seq<LayerView>, n: int)
    requires
        layer_names_distinct(layers),
        0 <= n <= layers.len(),
    ensures
        ({
            let held = staging_after(staging, layers, layers.len() as int);
            &&& staging_after(held, layers, n) == held
            &&& forall|i: int|
                0 <= i < input_plan(held, layers, n).len() ==> !(#[trigger] input_plan(
                    held,
                    layers,
                    n,
                )[i] is CreateStaging)
        }),
    decreases n,
{
    if n > 0 {
        lemma_same_frame_reuses(staging, layers, n - 1);
        lemma_frame_is_held(staging, layers, layers.len() as int, n - 1);
    }
}

} // verus!
