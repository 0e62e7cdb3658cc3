//! Pipeline compilation: builds the textual shader permutation for one
//! effective keyword configuration, and the vertex input layout, exactly as
//! the GPU backend will consume them. Identical configurations always
//! produce byte-identical sources: every piece below is a function of the
//! shader template, the keyword bits and the block binding index alone.

use vstd::prelude::*;
use vstd::seq_lib::lemma_concat_associative;
use vstd::string::StringSliceAdditionalSpecFns;
use crate::attrib::{Attribute, InputLayout};
use crate::attrib::{lemma_stride_bound, lemma_stride_positive, spec_stride};
use crate::draw_state::DrawState;
use crate::keywords::{KeywordSet, DEFERRED, DIRECTIONAL_LIGHT, FORWARD_ADD, FORWARD_BASE,
    POINT_LIGHT, SHADOW, SHADOWS_SIMPLE, SPOT_LIGHT};
use crate::shader::{GLSLInput, PipelineStateDesc, ShaderDefinition, Uniform, UniformType};
use crate::text::{push_bytes, push_decimal, spec_dec};

verus! {

/// Upper bound on declared vertex inputs, so that a buffer stride always
/// fits the 32-bit stride field of the GPU submission path.
pub const MAX_INPUT_ATTRIBUTES: usize = 0x100000;

/// One preprocessor definition line.
pub open spec fn spec_define_line(name: Seq<u8>) -> Seq<u8> {
    "#define ".spec_bytes() + name + "\n".spec_bytes()
}

/// The preprocessor definitions emitted for a configuration: one line per
/// active keyword flag, in a fixed order, so that equal keyword sets always
/// yield byte-identical text.
pub open spec fn spec_flag_defines(bits: u64) -> Seq<u8> {
    (if bits & FORWARD_BASE == FORWARD_BASE {
        spec_define_line("FORWARD_BASE".spec_bytes())
    } else {
        Seq::<u8>::empty()
    }) + (if bits & FORWARD_ADD == FORWARD_ADD {
        spec_define_line("FORWARD_ADD".spec_bytes())
    } else {
        Seq::<u8>::empty()
    }) + (if bits & POINT_LIGHT == POINT_LIGHT {
        spec_define_line("POINT_LIGHT".spec_bytes())
    } else {
        Seq::<u8>::empty()
    }) + (if bits & DIRECTIONAL_LIGHT == DIRECTIONAL_LIGHT {
        spec_define_line("DIRECTIONAL_LIGHT".spec_bytes())
    } else {
        Seq::<u8>::empty()
    }) + (if bits & SPOT_LIGHT == SPOT_LIGHT {
        spec_define_line("SPOT_LIGHT".spec_bytes())
    } else {
        Seq::<u8>::empty()
    }) + (if bits & SHADOWS_SIMPLE == SHADOWS_SIMPLE {
        spec_define_line("SHADOWS_SIMPLE".spec_bytes())
    } else {
        Seq::<u8>::empty()
    }) + (if bits & SHADOW == SHADOW {
        spec_define_line("SHADOW".spec_bytes())
    } else {
        Seq::<u8>::empty()
    }) + (if bits & DEFERRED == DEFERRED {
        spec_define_line("DEFERRED".spec_bytes())
    } else {
        Seq::<u8>::empty()
    })
}

/// The concrete scalar, vector or matrix type spliced into the uniform
/// block for a declared logical type.
pub open spec fn spec_glsl_name(ty: UniformType) -> Seq<u8> {
    match ty {
        UniformType::Float => "float".spec_bytes(),
        UniformType::Float2 => "vec2".spec_bytes(),
        UniformType::Float3 => "vec3".spec_bytes(),
        UniformType::Float4 => "vec4".spec_bytes(),
        UniformType::Mat2 => "mat2".spec_bytes(),
        UniformType::Mat3 => "mat3".spec_bytes(),
        UniformType::Mat4 => "mat4".spec_bytes(),
        UniformType::Mat3x4 => "mat3x4".spec_bytes(),
        UniformType::Mat4x3 => "mat4x3".spec_bytes(),
        UniformType::Int => "int".spec_bytes(),
        UniformType::Int2 => "ivec2".spec_bytes(),
        UniformType::Int3 => "ivec3".spec_bytes(),
        UniformType::Int4 => "ivec4".spec_bytes(),
    }
}

/// Maps a declared logical type to the concrete type name.
pub fn shader_type_to_glsl(ty: UniformType) -> (r: &'static str)
    ensures
        r.spec_bytes() == spec_glsl_name(ty),
{
    match ty {
        UniformType::Float => "float",
        UniformType::Float2 => "vec2",
        UniformType::Float3 => "vec3",
        UniformType::Float4 => "vec4",
        UniformType::Mat2 => "mat2",
        UniformType::Mat3 => "mat3",
        UniformType::Mat4 => "mat4",
        UniformType::Mat3x4 => "mat3x4",
        UniformType::Mat4x3 => "mat4x3",
        UniformType::Int => "int",
        UniformType::Int2 => "ivec2",
        UniformType::Int3 => "ivec3",
        UniformType::Int4 => "ivec4",
    }
}

/// One member line of the synthesized uniform block.
pub open spec fn spec_uniform_line(u: Uniform) -> Seq<u8> {
    spec_glsl_name(u.ty) + " ".spec_bytes() + u.name@ + ";\n".spec_bytes()
}

/// The member lines of the uniform block, in declaration order.
pub open spec fn spec_uniform_lines(us: Seq<Uniform>) -> Seq<u8>
    decreases us.len(),
{
    if us.len() == 0 {
        Seq::<u8>::empty()
    } else {
        spec_uniform_lines(us.drop_last()) + spec_uniform_line(us.last())
    }
}

/// The synthesized uniform block declaration at the given binding index;
/// empty when the shader declares no uniform parameters.
pub open spec fn spec_material_block(us: Seq<Uniform>, binding: u32) -> Seq<u8> {
    if us.len() == 0 {
        Seq::<u8>::empty()
    } else {
        "layout(std140, binding = ".spec_bytes() + spec_dec(binding as nat)
            + ") uniform MaterialBlock {\n".spec_bytes() + spec_uniform_lines(us)
            + "};\n".spec_bytes()
    }
}

/// The stage-independent middle of every permutation: keyword definitions,
/// the uniform block, then the shared shader body.
pub open spec fn spec_common_source(sd: ShaderDefinition, bits: u64, binding: u32) -> Seq<u8> {
    spec_flag_defines(bits) + spec_material_block(sd.uniforms@, binding) + sd.glsl_source@
        + "\n".spec_bytes()
}

/// One full stage source: the version header, the stage marker definition,
/// then the shared middle.
pub open spec fn spec_stage_source(
    sd: ShaderDefinition,
    bits: u64,
    binding: u32,
    stage: Seq<u8>,
) -> Seq<u8> {
    "#version ".spec_bytes() + spec_dec(sd.glsl_version as nat) + "\n".spec_bytes()
        + spec_define_line(stage) + spec_common_source(sd, bits, binding)
}

/// The vertex stage source of a permutation.
pub open spec fn spec_vertex_source(sd: ShaderDefinition, bits: u64, binding: u32) -> Seq<u8> {
    spec_stage_source(sd, bits, binding, "_VERTEX_".spec_bytes())
}

/// The fragment stage source of a permutation.
pub open spec fn spec_fragment_source(sd: ShaderDefinition, bits: u64, binding: u32) -> Seq<u8> {
    spec_stage_source(sd, bits, binding, "_FRAGMENT_".spec_bytes())
}

/// The two stage sources handed to the GPU backend for compilation and
/// linking.
#[derive(Clone, PartialEq, Eq, Debug)]
pub struct ProgramSources {
    pub vertex: Vec<u8>,
    pub fragment: Vec<u8>,
}

/// Appends one preprocessor definition line.
fn push_define(out: &mut Vec<u8>, name: &[u8])
    ensures
        final(out)@ == old(out)@ + spec_define_line(name@),
{
    push_bytes(out, "#define ".as_bytes());
    push_bytes(out, name);
    push_bytes(out, "\n".as_bytes());
    proof {
        assert(out@ =~= old(out)@ + spec_define_line(name@));
    }
}

/// Appends one keyword definition line when the flag is active.
fn push_flag(out: &mut Vec<u8>, active: bool, name: &[u8])
    ensures
        final(out)@ == old(out)@ + (if active {
            spec_define_line(name@)
        } else {
            Seq::<u8>::empty()
        }),
{
    if active {
        push_define(out, name);
    } else {
        proof {
            assert(out@ =~= old(out)@ + Seq::<u8>::empty());
        }
    }
}

/// Appends the keyword definition lines for a configuration.
fn push_flag_defines(out: &mut Vec<u8>, config: KeywordSet)
    ensures
        final(out)@ == old(out)@ + spec_flag_defines(config.bits),
{
    let bits = config.bits;
    let ghost base = out@;
    let ghost d1: Seq<u8> = if bits & FORWARD_BASE == FORWARD_BASE {
        spec_define_line("FORWARD_BASE".spec_bytes())
    } else {
        Seq::<u8>::empty()
    };
    let ghost d2: Seq<u8> = if bits & FORWARD_ADD == FORWARD_ADD {
        spec_define_line("FORWARD_ADD".spec_bytes())
    } else {
        Seq::<u8>::empty()
    };
    let ghost d3: Seq<u8> = if bits & POINT_LIGHT == POINT_LIGHT {
        spec_define_line("POINT_LIGHT".spec_bytes())
    } else {
        Seq::<u8>::empty()
    };
    let ghost d4: Seq<u8> = if bits & DIRECTIONAL_LIGHT == DIRECTIONAL_LIGHT {
        spec_define_line("DIRECTIONAL_LIGHT".spec_bytes())
    } else {
        Seq::<u8>::empty()
    };
    let ghost d5: Seq<u8> = if bits & SPOT_LIGHT == SPOT_LIGHT {
        spec_define_line("SPOT_LIGHT".spec_bytes())
    } else {
        Seq::<u8>::empty()
    };
    let ghost d6: Seq<u8> = if bits & SHADOWS_SIMPLE == SHADOWS_SIMPLE {
        spec_define_line("SHADOWS_SIMPLE".spec_bytes())
    } else {
        Seq::<u8>::empty()
    };
    let ghost d7: Seq<u8> = if bits & SHADOW == SHADOW {
        spec_define_line("SHADOW".spec_bytes())
    } else {
        Seq::<u8>::empty()
    };
    let ghost d8: Seq<u8> = if bits & DEFERRED == DEFERRED {
        spec_define_line("DEFERRED".spec_bytes())
    } else {
        Seq::<u8>::empty()
    };
    push_flag(out, bits & FORWARD_BASE == FORWARD_BASE, "FORWARD_BASE".as_bytes());
    push_flag(out, bits & FORWARD_ADD == FORWARD_ADD, "FORWARD_ADD".as_bytes());
    push_flag(out, bits & POINT_LIGHT == POINT_LIGHT, "POINT_LIGHT".as_bytes());
    push_flag(out, bits & DIRECTIONAL_LIGHT == DIRECTIONAL_LIGHT, "DIRECTIONAL_LIGHT".as_bytes());
    push_flag(out, bits & SPOT_LIGHT == SPOT_LIGHT, "SPOT_LIGHT".as_bytes());
    push_flag(out, bits & SHADOWS_SIMPLE == SHADOWS_SIMPLE, "SHADOWS_SIMPLE".as_bytes());
    push_flag(out, bits & SHADOW == SHADOW, "SHADOW".as_bytes());
    push_flag(out, bits & DEFERRED == DEFERRED, "DEFERRED".as_bytes());
    proof {
        lemma_concat_associative(base, d1, d2);
        lemma_concat_associative(base, d1 + d2, d3);
        lemma_concat_associative(base, d1 + d2 + d3, d4);
        lemma_concat_associative(base, d1 + d2 + d3 + d4, d5);
        lemma_concat_associative(base, d1 + d2 + d3 + d4 + d5, d6);
        lemma_concat_associative(base, d1 + d2 + d3 + d4 + d5 + d6, d7);
        lemma_concat_associative(base, d1 + d2 + d3 + d4 + d5 + d6 + d7, d8);
        assert(out@ == base + spec_flag_defines(bits));
    }
}

/// Appends the uniform block declaration, if any uniforms are declared.
fn push_material_block(out: &mut Vec<u8>, uniforms: &Vec<Uniform>, binding: u32)
    ensures
        final(out)@ == old(out)@ + spec_material_block(uniforms@, binding),
{
    if uniforms.len() == 0 {
        proof {
            assert(out@ =~= old(out)@ + spec_material_block(uniforms@, binding));
        }
        return ;
    }
    push_bytes(out, "layout(std140, binding = ".as_bytes());
    push_decimal(out, binding as u64);
    push_bytes(out, ") uniform MaterialBlock {\n".as_bytes());
    let ghost header = old(out)@ + "layout(std140, binding = ".spec_bytes() + spec_dec(
        binding as nat,
    ) + ") uniform MaterialBlock {\n".spec_bytes();
    let mut i: usize = 0;
    while i < uniforms.len()
        invariant
            i <= uniforms@.len(),
            out@ =~= header + spec_uniform_lines(uniforms@.subrange(0, i as int)),
        decreases uniforms@.len() - i,
    {
        let ghost pre = out@;
        let name = shader_type_to_glsl(uniforms[i].ty);
        push_bytes(out, name.as_bytes());
        push_bytes(out, " ".as_bytes());
        push_bytes(out, uniforms[i].name.as_slice());
        push_bytes(out, ";\n".as_bytes());
        proof {
            assert(out@ =~= pre + spec_uniform_line(uniforms@[i as int]));
            assert(uniforms@.subrange(0, i + 1).drop_last() =~= uniforms@.subrange(0, i as int));
            assert(out@ =~= header + spec_uniform_lines(uniforms@.subrange(0, i + 1)));
        }
        i = i + 1;
    }
    push_bytes(out, "};\n".as_bytes());
    proof {
        assert(uniforms@.subrange(0, uniforms@.len() as int) =~= uniforms@);
        assert(out@ =~= old(out)@ + spec_material_block(uniforms@, binding));
    }
}

/// Builds one stage source from the version, the stage marker and the
/// shared middle.
fn build_stage(version: u32, stage: &[u8], common: &Vec<u8>) -> (out: Vec<u8>)
    ensures
        out@ == "#version ".spec_bytes() + spec_dec(version as nat) + "\n".spec_bytes()
            + spec_define_line(stage@) + common@,
{
    let mut out: Vec<u8> = Vec::new();
    push_bytes(&mut out, "#version ".as_bytes());
    push_decimal(&mut out, version as u64);
    push_bytes(&mut out, "\n".as_bytes());
    push_define(&mut out, stage);
    push_bytes(&mut out, common.as_slice());
    proof {
        assert(out@ =~= "#version ".spec_bytes() + spec_dec(version as nat) + "\n".spec_bytes()
            + spec_define_line(stage@) + common@);
    }
    out
}

/// Builds the vertex and fragment sources of the permutation of `shader`
/// selected by `config`, with the uniform block at the binding index that
/// `query` carries.
pub fn compile_program(shader: &ShaderDefinition, config: KeywordSet, query: &PipelineStateDesc)
    -> (r: ProgramSources)
    ensures
        r.vertex@ == spec_vertex_source(*shader, config.bits, query.uniform_block_base),
        r.fragment@ == spec_fragment_source(*shader, config.bits, query.uniform_block_base),
{
    let mut common: Vec<u8> = Vec::new();
    push_flag_defines(&mut common, config);
    push_material_block(&mut common, &shader.uniforms, query.uniform_block_base);
    push_bytes(&mut common, shader.glsl_source.as_slice());
    push_bytes(&mut common, "\n".as_bytes());
    proof {
        assert(common@ =~= spec_common_source(*shader, config.bits, query.uniform_block_base));
    }
    let vertex = build_stage(shader.glsl_version, "_VERTEX_".as_bytes(), &common);
    let fragment = build_stage(shader.glsl_version, "_FRAGMENT_".as_bytes(), &common);
    proof {
        assert(vertex@ =~= spec_vertex_source(*shader, config.bits, query.uniform_block_base));
        assert(fragment@ =~= spec_fragment_source(*shader, config.bits, query.uniform_block_base));
    }
    ProgramSources { vertex, fragment }
}

/// The vertex attribute denoted by one declared input.
pub open spec fn spec_layout_attrib(g: GLSLInput) -> Attribute {
    Attribute { slot: g.slot, ty: g.attrib_type }
}

/// The attribute list denoted by a declared input layout.
pub open spec fn spec_layout_attribs(layout: Seq<GLSLInput>) -> Seq<Attribute> {
    layout.map_values(|g: GLSLInput| spec_layout_attrib(g))
}

/// Whether a shader's declared input layout can be built: the single vertex
/// buffer of the submission path means every input must name slot 0, at
/// least one input must be declared, and the count is bounded so the stride
/// fits its 32-bit field.
pub open spec fn spec_layout_valid(sd: ShaderDefinition) -> bool {
    &&& 1 <= sd.glsl_input_layout@.len() <= MAX_INPUT_ATTRIBUTES
    &&& forall|i: int|
        0 <= i < sd.glsl_input_layout@.len() ==> (#[trigger] sd.glsl_input_layout@[i]).slot == 0
}

/// Builds the single-buffer vertex input layout from the declared inputs.
pub fn build_input_layout(inputs: &[GLSLInput]) -> (r: InputLayout)
    requires
        1 <= inputs@.len() <= MAX_INPUT_ATTRIBUTES,
        forall|i: int| 0 <= i < inputs@.len() ==> (#[trigger] inputs@[i]).slot == 0,
    ensures
        r.strides@.len() == 1,
        r.strides@[0] == spec_stride(spec_layout_attribs(inputs@), 0),
{
    let mut attribs: Vec<Attribute> = Vec::new();
    let mut i: usize = 0;
    while i < inputs.len()
        invariant
            i <= inputs@.len(),
            attribs@.len() == i,
            forall|j: int| 0 <= j < i ==> attribs@[j] == spec_layout_attrib(#[trigger] inputs@[j]),
        decreases inputs@.len() - i,
    {
        attribs.push(Attribute { slot: inputs[i].slot, ty: inputs[i].attrib_type });
        i = i + 1;
    }
    proof {
        assert(attribs@ =~= spec_layout_attribs(inputs@));
        lemma_stride_positive(attribs@, 0, 0);
        lemma_stride_bound(attribs@, 0);
    }
    InputLayout::new(1, attribs.as_slice())
}

/// A compiled, immutable pipeline: the permutation sources and layout for
/// exactly one effective configuration, plus the fixed draw state, stamped
/// with the identity of the resolver that compiled it and a sequence number
/// unique within that resolver.
#[derive(Clone, PartialEq, Eq, Debug)]
pub struct PipelineState {
    pub id: usize,
    pub owner: u64,
    pub config: KeywordSet,
    pub program: ProgramSources,
    pub draw_state: DrawState,
    pub layout: InputLayout,
}

/// What it means for `p` to be the pipeline compiled from `sd` for the
/// configuration `bits` under `query`, stamped (`owner`, `id`).
pub open spec fn is_compiled_state(
    p: PipelineState,
    sd: ShaderDefinition,
    bits: u64,
    query: PipelineStateDesc,
    owner: u64,
    id: int,
) -> bool {
    &&& p.config.bits == bits
    &&& p.owner == owner
    &&& p.id == id
    &&& p.draw_state == query.default_draw_state
    &&& p.program.vertex@ == spec_vertex_source(sd, bits, query.uniform_block_base)
    &&& p.program.fragment@ == spec_fragment_source(sd, bits, query.uniform_block_base)
    &&& p.layout.strides@.len() == 1
    &&& p.layout.strides@[0] == spec_stride(spec_layout_attribs(sd.glsl_input_layout@), 0)
}

/// Compiles the pipeline of `shader` for the configuration `config`: the
/// permutation sources, the vertex layout, and the fixed draw state taken
/// from the request.
pub fn compile_pipeline_state(
    shader: &ShaderDefinition,
    config: KeywordSet,
    query: &PipelineStateDesc,
    owner: u64,
    id: usize,
) -> (p: PipelineState)
    requires
        spec_layout_valid(*shader),
    ensures
        is_compiled_state(p, *shader, config.bits, *query, owner, id as int),
{
    PipelineState {
        id,
        owner,
        config,
        program: compile_program(shader, config, query),
        draw_state: query.default_draw_state,
        layout: build_input_layout(shader.glsl_input_layout.as_slice()),
    }
}

} // verus!
