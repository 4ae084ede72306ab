//! Small value types shared by the plugin: parameter indices, bit depths and
//! the pixel formats of the host and of the GPU.

use vstd::prelude::*;
use vstd::std_specs::convert::{FromSpecImpl, TryFromSpecImpl};
use tweak_shader::wgpu::TextureFormat;
use crate::preprocessing::{convert_output_to_ae_format, is_rewrite_of, ParseFailure};
use crate::u15_conversion::U16ConversionContext;

verus! {

/// `wgpu::TextureFormat`, with its variants open.
#[verifier::external_type_specification]
pub struct ExTextureFormat(TextureFormat);

/// `wgpu::AstcBlock`, a field of one texture format.
#[verifier::external_type_specification]
pub struct ExAstcBlock(tweak_shader::wgpu::AstcBlock);

/// `wgpu::AstcChannel`, a field of one texture format.
#[verifier::external_type_specification]
pub struct ExAstcChannel(tweak_shader::wgpu::AstcChannel);

/// The index of a host parameter. The first six are the fixed controls; every
/// other index is `Dynamic`.
#[derive(Debug, PartialEq, Eq, PartialOrd, Clone, Copy, Hash, Structural)]
pub enum ParamIdx {
    LoadButton,
    UnloadButton,
    ReloadButton,
    Time,
    IsImageFilter,
    UseLayerTime,
    Dynamic(u8),
}

impl ParamIdx {
    /// The number the host knows this parameter by.
    pub open spec fn index(self) -> int {
        match self {
            ParamIdx::LoadButton => 1,
            ParamIdx::UnloadButton => 2,
            ParamIdx::ReloadButton => 3,
            ParamIdx::Time => 4,
            ParamIdx::IsImageFilter => 5,
            ParamIdx::UseLayerTime => 6,
            ParamIdx::Dynamic(x) => x as int,
        }
    }

    /// The parameter that the host's number `value` stands for.
    pub open spec fn of_index(value: u8) -> ParamIdx {
        if value == 1 {
            ParamIdx::LoadButton
        } else if value == 2 {
            ParamIdx::UnloadButton
        } else if value == 3 {
            ParamIdx::ReloadButton
        } else if value == 4 {
            ParamIdx::Time
        } else if value == 5 {
            ParamIdx::IsImageFilter
        } else if value == 6 {
            ParamIdx::UseLayerTime
        } else {
            ParamIdx::Dynamic(value)
        }
    }

    /// The number the host knows this parameter by.
    pub fn idx(&self) -> (r: i32)
        ensures
            r == self.index(),
            0 <= r <= 255,
    {
        match self {
            ParamIdx::LoadButton => 1,
            ParamIdx::UnloadButton => 2,
            ParamIdx::ReloadButton => 3,
            ParamIdx::Time => 4,
            ParamIdx::IsImageFilter => 5,
            ParamIdx::UseLayerTime => 6,
            ParamIdx::Dynamic(x) => *x as i32,
        }
    }
}

impl From<u8> for ParamIdx {
    fn from(value: u8) -> (r: ParamIdx) {
        match value {
            1 => ParamIdx::LoadButton,
            2 => ParamIdx::UnloadButton,
            3 => ParamIdx::ReloadButton,
            4 => ParamIdx::Time,
            5 => ParamIdx::IsImageFilter,
            6 => ParamIdx::UseLayerTime,
            _ => ParamIdx::Dynamic(value),
        }
    }
}

impl FromSpecImpl<u8> for ParamIdx {
    open spec fn obeys_from_spec() -> bool {
        true
    }

    open spec fn from_spec(value: u8) -> ParamIdx {
        ParamIdx::of_index(value)
    }
}

impl From<ParamIdx> for u8 {
    fn from(value: ParamIdx) -> (r: u8) {
        match value {
            ParamIdx::LoadButton => 1,
            ParamIdx::UnloadButton => 2,
            ParamIdx::ReloadButton => 3,
            ParamIdx::Time => 4,
            ParamIdx::IsImageFilter => 5,
            ParamIdx::UseLayerTime => 6,
            ParamIdx::Dynamic(x) => x,
        }
    }
}

impl FromSpecImpl<ParamIdx> for u8 {
    open spec fn obeys_from_spec() -> bool {
        true
    }

    open spec fn from_spec(value: ParamIdx) -> u8 {
        value.index() as u8
    }
}

/// Going to the host's number and back names the same host parameter.
pub proof fn lemma_index_round_trip(p: ParamIdx)
    ensures
        ParamIdx::of_index(p.index() as u8).index() == p.index(),
{
}

/// Coming from the host's number and going back gives the number.
pub proof fn lemma_of_index_round_trip(value: u8)
    ensures
        ParamIdx::of_index(value).index() == value,
{
}

/// What went wrong while a shader was set up.
#[derive(Debug)]
pub enum TweakError {
    SetUp(String),
}

impl TweakError {
    /// The message that the error carries.
    pub fn message(&self) -> (r: String)
        ensures
            self matches TweakError::SetUp(s) && r@ == s@,
    {
        match self {
            TweakError::SetUp(s) => s.clone(),
        }
    }
}

/// Bits per channel, as the host reports them.
#[derive(Debug, Copy, Clone)]
pub enum BitDepth {
    U8,
    U16,
    F32,
    Invalid(i16),
}

impl BitDepth {
    /// The bit depth that the host's number `value` stands for.
    pub open spec fn of_bits(value: i16) -> BitDepth {
        if value == 8 {
            BitDepth::U8
        } else if value == 16 {
            BitDepth::U16
        } else if value == 32 {
            BitDepth::F32
        } else {
            BitDepth::Invalid(value)
        }
    }

    /// The bit depth that a texture format is rendered at; `Invalid(-42)` for a
    /// format this plugin never renders to.
    pub open spec fn of_format(value: TextureFormat) -> BitDepth {
        match value {
            TextureFormat::Rgba8Unorm => BitDepth::U8,
            TextureFormat::Rgba16Float => BitDepth::U16,
            TextureFormat::Rgba32Float => BitDepth::F32,
            _ => BitDepth::Invalid(-42i16),
        }
    }

    /// The texture format that frames of this bit depth are rendered in, or,
    /// for an invalid depth, the number that was not understood.
    pub open spec fn format(self) -> Result<TextureFormat, i16> {
        match self {
            BitDepth::U8 => Ok(TextureFormat::Rgba8Unorm),
            BitDepth::U16 => Ok(TextureFormat::Rgba16Float),
            BitDepth::F32 => Ok(TextureFormat::Rgba32Float),
            BitDepth::Invalid(v) => Err(v),
        }
    }
}

impl From<i16> for BitDepth {
    fn from(value: i16) -> (r: BitDepth) {
        match value {
            8 => BitDepth::U8,
            16 => BitDepth::U16,
            32 => BitDepth::F32,
            v => BitDepth::Invalid(v),
        }
    }
}

impl FromSpecImpl<i16> for BitDepth {
    open spec fn obeys_from_spec() -> bool {
        true
    }

    open spec fn from_spec(value: i16) -> BitDepth {
        BitDepth::of_bits(value)
    }
}

impl From<TextureFormat> for BitDepth {
    fn from(value: TextureFormat) -> (r: BitDepth) {
        match value {
            TextureFormat::Rgba8Unorm => BitDepth::U8,
            TextureFormat::Rgba16Float => BitDepth::U16,
            TextureFormat::Rgba32Float => BitDepth::F32,
            _ => BitDepth::Invalid(-42),
        }
    }
}

impl FromSpecImpl<TextureFormat> for BitDepth {
    open spec fn obeys_from_spec() -> bool {
        true
    }

    open spec fn from_spec(value: TextureFormat) -> BitDepth {
        BitDepth::of_format(value)
    }
}

impl TryFrom<BitDepth> for TextureFormat {
    type Error = i16;

    fn try_from(value: BitDepth) -> (r: Result<TextureFormat, i16>) {
        match value {
            BitDepth::U8 => Ok(TextureFormat::Rgba8Unorm),
            BitDepth::U16 => Ok(TextureFormat::Rgba16Float),
            BitDepth::F32 => Ok(TextureFormat::Rgba32Float),
            BitDepth::Invalid(v) => Err(v),
        }
    }
}

impl TryFromSpecImpl<BitDepth> for TextureFormat {
    open spec fn obeys_try_from_spec() -> bool {
        true
    }

    open spec fn try_from_spec(value: BitDepth) -> Result<TextureFormat, i16> {
        value.format()
    }
}

/// A valid bit depth is the bit depth of its own texture format.
pub proof fn lemma_format_round_trip(depth: BitDepth)
    ensures
        depth.format() matches Ok(f) ==> BitDepth::of_format(f) == depth,
{
}

/// The pixel layouts in which the host hands out frames.
#[derive(Debug, Copy, Clone, PartialEq, Eq, Structural)]
pub enum PixelFormat {
    Argb32,
    Argb64,
    Argb128,
    GpuBgra128,
    Reserved,
    Bgra32,
    Vuya32,
    NtscDv25,
    PalDv25,
    Invalid,
    ForceLongInt,
}

/// A host pixel layout has no texture format.
#[derive(Debug)]
pub enum PixelFormatConversionError {
    InvalidFormat,
}

/// The texture format in which frames of a host pixel layout are uploaded.
pub open spec fn texture_format_of(value: PixelFormat) -> Option<TextureFormat> {
    match value {
        PixelFormat::Argb32 => Some(TextureFormat::Rgba8Unorm),
        PixelFormat::Argb64 => Some(TextureFormat::Rgba16Float),
        PixelFormat::Argb128 => Some(TextureFormat::Rgba32Float),
        PixelFormat::Bgra32 => Some(TextureFormat::Bgra8Unorm),
        _ => None,
    }
}

/// The texture format in which frames of a host pixel layout are uploaded;
/// `InvalidFormat` for a layout that has none.
pub fn try_into(value: PixelFormat) -> (r: Result<TextureFormat, PixelFormatConversionError>)
    ensures
        match texture_format_of(value) {
            Some(f) => r == Ok::<TextureFormat, PixelFormatConversionError>(f),
            None => r is Err,
        },
{
    match value {
        PixelFormat::Argb32 => Ok(TextureFormat::Rgba8Unorm),
        PixelFormat::Argb64 => Ok(TextureFormat::Rgba16Float),
        PixelFormat::Argb128 => Ok(TextureFormat::Rgba32Float),
        PixelFormat::Bgra32 => Ok(TextureFormat::Bgra8Unorm),
        _ => Err(PixelFormatConversionError::InvalidFormat),
    }
}

/// What an instance has once a shader was set up on it.
pub struct LocalInit {
    /// Whether the host's parameters still have to be brought in line with
    /// the shader.
    pub needs_param_setup: bool,
    /// The format that the shader renders to.
    pub fmt: TextureFormat,
    /// Why the source did not build, where it did not; the instance then
    /// shows the error shader.
    pub build_error: Option<String>,
    /// The precision bridge, for frames of 16 bits per channel.
    pub u16_converter: Option<U16ConversionContext>,
}

/// Whether frames of this format go through the precision bridge.
pub open spec fn is_bridged(fmt: TextureFormat) -> bool {
    fmt is Rgba16Float
}

impl LocalInit {
    /// The state after a shader was built for `fmt`, with the reason if the
    /// build failed. The parameters have to be set up; frames of 16 bits per
    /// channel, and no others, get a bridge that holds no texture yet.
    pub fn new(fmt: TextureFormat, build_error: Option<String>) -> (r: Self)
        ensures
            r.needs_param_setup,
            r.fmt == fmt,
            r.build_error == build_error,
            match r.u16_converter {
                Some(bridge) => is_bridged(fmt) && bridge.wf() && bridge@.staging.len() == 0
                    && bridge@.output is None,
                None => !is_bridged(fmt),
            },
    {
        let u16_converter = match fmt {
            TextureFormat::Rgba16Float => Some(U16ConversionContext::new()),
            _ => None,
        };
        LocalInit { needs_param_setup: true, fmt, build_error, u16_converter }
    }

    /// Notes that the host's parameters have to be brought in line again.
    pub fn queue_param_visibility_reset(&mut self)
        ensures
            final(self).needs_param_setup,
            final(self).fmt == old(self).fmt,
            final(self).build_error == old(self).build_error,
            final(self).u16_converter == old(self).u16_converter,
    {
        self.needs_param_setup = true;
    }

    /// Whether the host's parameters still have to be brought in line.
    pub fn needs_param_visibility_reset(&self) -> (r: bool)
        ensures
            r == self.needs_param_setup,
    {
        self.needs_param_setup
    }

    /// Notes that the host's parameters are in line with the shader.
    pub fn finish_param_visibility_reset(&mut self)
        ensures
            !final(self).needs_param_setup,
            final(self).fmt == old(self).fmt,
            final(self).build_error == old(self).build_error,
            final(self).u16_converter == old(self).u16_converter,
    {
        self.needs_param_setup = false;
    }
}

/// What an instance of the effect keeps: the shader source, and what was set
/// up from it.
pub struct Local {
    pub local_init: Option<LocalInit>,
    pub src: Option<String>,
}

/// The format to set a shader up for when the host renders at `bit_depth`, or
/// `None` where what is set up can stay. An instance without a shader is set
/// up for the depth, or for 8 bits where the depth is not understood; one with
/// a shader only where the depth is understood and asks for another format.
pub open spec fn format_to_build(current: Option<TextureFormat>, bit_depth: BitDepth) -> Option<
    TextureFormat,
> {
    match (current, bit_depth.format()) {
        (None, Ok(expected)) => Some(expected),
        (None, Err(_)) => Some(TextureFormat::Rgba8Unorm),
        (Some(fmt), Ok(expected)) => if fmt == expected {
            None
        } else {
            Some(expected)
        },
        (Some(_), Err(_)) => None,
    }
}

/// The source to build a shader from: the rewritten source, or the reason
/// why there is none.
pub open spec fn build_source_is(src: Option<String>, r: Result<String, String>) -> bool {
    match src {
        None => r matches Err(reason) && reason@ == "No Source in initialization"@,
        Some(text) => exists|rewritten: Result<String, ParseFailure>|
            #[trigger] is_rewrite_of(text@, rewritten) && match rewritten {
                Ok(out) => r == Ok::<String, String>(out),
                Err(e) => r == Err::<String, String>(e.info),
            },
    }
}

impl Default for Local {
    fn default() -> (r: Self)
        ensures
            r.local_init is None,
            r.src is None,
    {
        Local { local_init: None, src: None }
    }
}

impl Local {
    /// An instance without a shader.
    pub fn new() -> (r: Self)
        ensures
            r.local_init is None,
            r.src is None,
    {
        Local { local_init: None, src: None }
    }

    /// Whether the instance shows the shader of its source: it holds a
    /// source, and what was set up from it has built.
    pub fn shows_shader(&self) -> (r: bool)
        ensures
            r == (self.src is Some && (self.local_init matches Some(init) && init.build_error
                is None)),
    {
        match &self.local_init {
            Some(init) => self.src.is_some() && init.build_error.is_none(),
            None => false,
        }
    }

    /// The format of what is set up, or that of 8-bit frames.
    pub fn current_format(&self) -> (r: TextureFormat)
        ensures
            r == match self.local_init {
                Some(init) => init.fmt,
                None => TextureFormat::Rgba8Unorm,
            },
    {
        match &self.local_init {
            Some(init) => init.fmt,
            None => TextureFormat::Rgba8Unorm,
        }
    }

    /// Says whether the shader has to be set up again for frames of
    /// `bit_depth`, and for which format.
    pub fn init_or_update(&self, bit_depth: BitDepth) -> (r: Option<TextureFormat>)
        ensures
            r == format_to_build(
                match self.local_init {
                    Some(init) => Some(init.fmt),
                    None => None,
                },
                bit_depth,
            ),
    {
        let expected = match bit_depth {
            BitDepth::U8 => Some(TextureFormat::Rgba8Unorm),
            BitDepth::U16 => Some(TextureFormat::Rgba16Float),
            BitDepth::F32 => Some(TextureFormat::Rgba32Float),
            BitDepth::Invalid(_) => None,
        };
        match (&self.local_init, expected) {
            (None, Some(fmt)) => Some(fmt),
            (None, None) => Some(TextureFormat::Rgba8Unorm),
            (Some(init), Some(fmt)) => {
                let same = match (init.fmt, fmt) {
                    (TextureFormat::Rgba8Unorm, TextureFormat::Rgba8Unorm) => true,
                    (TextureFormat::Rgba16Float, TextureFormat::Rgba16Float) => true,
                    (TextureFormat::Rgba32Float, TextureFormat::Rgba32Float) => true,
                    _ => false,
                };
                if same {
                    None
                } else {
                    Some(fmt)
                }
            },
            (Some(_), None) => None,
        }
    }

    /// The source to build the shader from: the instance's source, rewritten
    /// for the host.
    pub fn source_to_build(&self) -> (r: Result<String, String>)
        ensures
            build_source_is(self.src, r),
    {
        match &self.src {
            None => Err("No Source in initialization".to_owned()),
            Some(text) => {
                let rewritten = convert_output_to_ae_format(text.as_str());
                let ghost witness = rewritten;
                let r = match rewritten {
                    Ok(out) => Ok(out),
                    Err(e) => Err(e.info),
                };
                assert(is_rewrite_of(text@, witness));
                r
            },
        }
    }

    /// Takes up a shader that was set up for `fmt`.
    pub fn install(&mut self, fmt: TextureFormat, build_error: Option<String>)
        ensures
            final(self).src == old(self).src,
            final(self).local_init matches Some(init) && init.needs_param_setup && init.fmt == fmt
                && init.build_error == build_error && (init.u16_converter is Some) == is_bridged(
                fmt,
            ) && (init.u16_converter matches Some(bridge) ==> bridge.wf()
                && bridge@.staging.len() == 0 && bridge@.output is None),
    {
        self.local_init = Some(LocalInit::new(fmt, build_error));
    }

    /// Takes up a newly read source with the shader that was set up from it,
    /// and hands back the reason if the build failed.
    pub fn load(&mut self, source: Option<String>, fmt: TextureFormat, build_error: Option<
        String,
    >) -> (r: Option<String>)
        ensures
            r == build_error,
            final(self).src == source,
            final(self).local_init matches Some(init) && init.needs_param_setup && init.fmt == fmt
                && init.build_error == build_error && (init.u16_converter is Some) == is_bridged(
                fmt,
            ) && (init.u16_converter matches Some(bridge) ==> bridge.wf()
                && bridge@.staging.len() == 0 && bridge@.output is None),
    {
        let out = build_error.clone();
        self.src = source;
        self.local_init = Some(LocalInit::new(fmt, build_error));
        out
    }

    /// Drops the source and what was set up from it.
    pub fn unload_scene(&mut self)
        ensures
            final(self).src is None,
            final(self).local_init is None,
    {
        self.src = None;
        self.local_init = None;
    }
}

} // verus!
