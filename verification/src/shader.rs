//! The immutable parsed shader template: declared uniforms, samplers,
//! passes, vertex inputs, the raw shader body and its declared language
//! version.

use vstd::prelude::*;
use vstd::string::StringSliceAdditionalSpecFns;
use crate::attrib::AttributeType;
use crate::sampler::Sampler2DDesc;

verus! {

/// The closed set of logical uniform types a shader may declare.
#[derive(Clone, Copy, PartialEq, Eq, Structural, Debug)]
pub enum UniformType {
    Float,
    Float2,
    Float3,
    Float4,
    Mat2,
    Mat3,
    Mat4,
    Mat3x4,
    Mat4x3,
    Int,
    Int2,
    Int3,
    Int4,
}

/// The uniform type denoted by a type name, if the name is recognised.
pub open spec fn spec_uniform_type(s: Seq<u8>) -> Option<UniformType> {
    if s == "float".spec_bytes() {
        Some(UniformType::Float)
    } else if s == "float2".spec_bytes() {
        Some(UniformType::Float2)
    } else if s == "float3".spec_bytes() {
        Some(UniformType::Float3)
    } else if s == "float4".spec_bytes() {
        Some(UniformType::Float4)
    } else if s == "mat2".spec_bytes() {
        Some(UniformType::Mat2)
    } else if s == "mat3".spec_bytes() {
        Some(UniformType::Mat3)
    } else if s == "mat4".spec_bytes() {
        Some(UniformType::Mat4)
    } else if s == "mat3x4".spec_bytes() {
        Some(UniformType::Mat3x4)
    } else if s == "mat4x3".spec_bytes() {
        Some(UniformType::Mat4x3)
    } else if s == "int".spec_bytes() {
        Some(UniformType::Int)
    } else if s == "int2".spec_bytes() {
        Some(UniformType::Int2)
    } else if s == "int3".spec_bytes() {
        Some(UniformType::Int3)
    } else if s == "int4".spec_bytes() {
        Some(UniformType::Int4)
    } else {
        None
    }
}

/// Looks a uniform type up by the bytes of its name.
pub fn uniform_type_from_bytes(s: &[u8]) -> (r: Option<UniformType>)
    ensures
        r == spec_uniform_type(s@),
{
    if crate::text::bytes_eq(s, "float".as_bytes()) {
        Some(UniformType::Float)
    } else if crate::text::bytes_eq(s, "float2".as_bytes()) {
        Some(UniformType::Float2)
    } else if crate::text::bytes_eq(s, "float3".as_bytes()) {
        Some(UniformType::Float3)
    } else if crate::text::bytes_eq(s, "float4".as_bytes()) {
        Some(UniformType::Float4)
    } else if crate::text::bytes_eq(s, "mat2".as_bytes()) {
        Some(UniformType::Mat2)
    } else if crate::text::bytes_eq(s, "mat3".as_bytes()) {
        Some(UniformType::Mat3)
    } else if crate::text::bytes_eq(s, "mat4".as_bytes()) {
        Some(UniformType::Mat4)
    } else if crate::text::bytes_eq(s, "mat3x4".as_bytes()) {
        Some(UniformType::Mat3x4)
    } else if crate::text::bytes_eq(s, "mat4x3".as_bytes()) {
        Some(UniformType::Mat4x3)
    } else if crate::text::bytes_eq(s, "int".as_bytes()) {
        Some(UniformType::Int)
    } else if crate::text::bytes_eq(s, "int2".as_bytes()) {
        Some(UniformType::Int2)
    } else if crate::text::bytes_eq(s, "int3".as_bytes()) {
        Some(UniformType::Int3)
    } else if crate::text::bytes_eq(s, "int4".as_bytes()) {
        Some(UniformType::Int4)
    } else {
        None
    }
}

impl UniformType {
    /// Looks a uniform type up by its name.
    pub fn from_str(s: &str) -> (r: Option<UniformType>)
        ensures
            r == spec_uniform_type(s.spec_bytes()),
    {
        uniform_type_from_bytes(s.as_bytes())
    }
}

/// A `uniform` item declared by a shader.
#[derive(Clone, PartialEq, Eq, Debug)]
pub struct Uniform {
    pub name: Vec<u8>,
    pub ty: UniformType,
}

/// A `pass` item declared by a shader.
#[derive(Clone, PartialEq, Eq, Debug)]
pub struct Pass {
    pub name: Vec<u8>,
}

/// A `sampler` item declared by a shader.
#[derive(Clone, PartialEq, Eq, Debug)]
pub struct Sampler {
    pub name: Vec<u8>,
    pub desc: Sampler2DDesc,
}

/// One declared vertex input: the buffer slot it is fetched from, its
/// logical shader type and the raw attribute format in the buffer.
#[derive(Clone, Copy, PartialEq, Eq, Structural, Debug)]
pub struct GLSLInput {
    pub slot: u32,
    pub shader_type: UniformType,
    pub attrib_type: AttributeType,
}

/// The language version spliced into every permutation when the shader does
/// not declare one.
pub const DEFAULT_GLSL_VERSION: u32 = 110;

/// An immutable parsed shader template. Parsing produces it once, at load
/// time; the variant cache that the resolver mutates is owned separately.
#[derive(Clone, PartialEq, Eq, Debug)]
pub struct ShaderDefinition {
    /// List of sampler parameters.
    pub samplers: Vec<Sampler>,
    /// List of uniform parameters.
    pub uniforms: Vec<Uniform>,
    /// List of passes.
    pub passes: Vec<Pass>,
    /// Raw shader body, with any version directive extracted.
    pub glsl_source: Vec<u8>,
    /// Declared language version, to be reinserted as a version header.
    pub glsl_version: u32,
    /// Declared vertex input layout.
    pub glsl_input_layout: Vec<GLSLInput>,
}

/// The mathematical value of a declared uniform.
pub ghost struct UniformModel {
    pub name: Seq<u8>,
    pub ty: UniformType,
}

impl View for Uniform {
    type V = UniformModel;

    open spec fn view(&self) -> UniformModel {
        UniformModel { name: self.name@, ty: self.ty }
    }
}

impl View for Pass {
    type V = Seq<u8>;

    open spec fn view(&self) -> Seq<u8> {
        self.name@
    }
}

/// The mathematical value of a declared sampler.
pub ghost struct SamplerModel {
    pub name: Seq<u8>,
    pub desc: Sampler2DDesc,
}

impl View for Sampler {
    type V = SamplerModel;

    open spec fn view(&self) -> SamplerModel {
        SamplerModel { name: self.name@, desc: self.desc }
    }
}

/// The mathematical value of a whole parsed shader.
pub ghost struct ShaderModel {
    pub samplers: Seq<SamplerModel>,
    pub uniforms: Seq<UniformModel>,
    pub passes: Seq<Seq<u8>>,
    pub glsl_source: Seq<u8>,
    pub glsl_version: u32,
    pub glsl_input_layout: Seq<GLSLInput>,
}

/// The sampler models of a sampler list.
pub open spec fn sampler_views(v: Seq<Sampler>) -> Seq<SamplerModel> {
    v.map_values(|s: Sampler| s@)
}

/// The uniform models of a uniform list.
pub open spec fn uniform_views(v: Seq<Uniform>) -> Seq<UniformModel> {
    v.map_values(|u: Uniform| u@)
}

/// The pass names of a pass list.
pub open spec fn pass_views(v: Seq<Pass>) -> Seq<Seq<u8>> {
    v.map_values(|p: Pass| p@)
}

impl View for ShaderDefinition {
    type V = ShaderModel;

    open spec fn view(&self) -> ShaderModel {
        ShaderModel {
            samplers: sampler_views(self.samplers@),
            uniforms: uniform_views(self.uniforms@),
            passes: pass_views(self.passes@),
            glsl_source: self.glsl_source@,
            glsl_version: self.glsl_version,
            glsl_input_layout: self.glsl_input_layout@,
        }
    }
}

/// Everything a resolution request supplies besides the shader itself.
#[derive(Clone, Copy, PartialEq, Eq, Structural, Debug)]
pub struct PipelineStateDesc {
    pub keywords: crate::keywords::KeywordSet,
    pub pass: crate::keywords::StdPass,
    pub default_draw_state: crate::draw_state::DrawState,
    pub sampler_block_base: u32,
    pub uniform_block_base: u32,
}

} // verus!
