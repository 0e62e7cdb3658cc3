use render_resources::attrib::{Attribute, AttributeType, InputLayout};
use render_resources::compiler::{compile_pipeline_state, compile_program, shader_type_to_glsl};
use render_resources::draw_state::DrawState;
use render_resources::keywords::{KeywordSet, FORWARD_BASE, POINT_LIGHT, SHADOW};
use render_resources::parser::parse_shader_source;
use render_resources::shader::{PipelineStateDesc, ShaderDefinition, UniformType};

fn shader() -> ShaderDefinition {
    parse_shader_source(
        b"uniform u_color: float3\n\
          input float3 0\n\
          #version 450\n\
          void main() {}\n",
    )
    .expect("parses")
}

fn query(keywords: u64) -> PipelineStateDesc {
    PipelineStateDesc {
        keywords: KeywordSet::from_bits(keywords),
        pass: render_resources::keywords::StdPass::ForwardBase,
        default_draw_state: DrawState::default(),
        sampler_block_base: 0,
        uniform_block_base: 2,
    }
}

#[test]
fn permutation_sources_are_exactly_as_specified() {
    let sd = shader();
    let q = query(0);
    let config = KeywordSet::from_bits(FORWARD_BASE | POINT_LIGHT);
    let sources = compile_program(&sd, config, &q);
    let expected_vs = b"#version 450\n\
                        #define _VERTEX_\n\
                        #define FORWARD_BASE\n\
                        #define POINT_LIGHT\n\
                        layout(std140, binding = 2) uniform MaterialBlock {\n\
                        vec3 u_color;\n\
                        };\n\
                        void main() {}\n\n";
    assert_eq!(sources.vertex, expected_vs.to_vec());
    let expected_fs = b"#version 450\n\
                        #define _FRAGMENT_\n\
                        #define FORWARD_BASE\n\
                        #define POINT_LIGHT\n\
                        layout(std140, binding = 2) uniform MaterialBlock {\n\
                        vec3 u_color;\n\
                        };\n\
                        void main() {}\n\n";
    assert_eq!(sources.fragment, expected_fs.to_vec());
}

#[test]
fn identical_configurations_generate_byte_identical_sources() {
    let sd = shader();
    let q = query(0);
    let config = KeywordSet::from_bits(FORWARD_BASE | POINT_LIGHT | SHADOW);
    let first = compile_program(&sd, config, &q);
    let second = compile_program(&sd, config, &q);
    assert_eq!(first.vertex, second.vertex);
    assert_eq!(first.fragment, second.fragment);
}

#[test]
fn no_uniform_block_without_declared_uniforms() {
    let sd = parse_shader_source(b"input float3 0\nvoid main() {}\n").expect("parses");
    let sources = compile_program(&sd, KeywordSet::empty(), &query(0));
    let expected = b"#version 110\n#define _VERTEX_\nvoid main() {}\n\n";
    assert_eq!(sources.vertex, expected.to_vec());
}

#[test]
fn compiled_state_carries_config_layout_and_draw_state() {
    let sd = shader();
    let q = query(0);
    let config = KeywordSet::from_bits(FORWARD_BASE);
    let p = compile_pipeline_state(&sd, config, &q, 7, 3);
    assert_eq!(p.owner, 7);
    assert_eq!(p.id, 3);
    assert_eq!(p.config, config);
    assert_eq!(p.draw_state, DrawState::default());
    // One vertex buffer whose stride is the one float3 input.
    assert_eq!(p.layout.strides, vec![12]);
}

#[test]
fn glsl_type_names_match_the_fixed_mapping() {
    assert_eq!(shader_type_to_glsl(UniformType::Float), "float");
    assert_eq!(shader_type_to_glsl(UniformType::Float2), "vec2");
    assert_eq!(shader_type_to_glsl(UniformType::Float3), "vec3");
    assert_eq!(shader_type_to_glsl(UniformType::Float4), "vec4");
    assert_eq!(shader_type_to_glsl(UniformType::Mat3x4), "mat3x4");
    assert_eq!(shader_type_to_glsl(UniformType::Int2), "ivec2");
}

#[test]
fn attribute_byte_sizes() {
    assert_eq!(AttributeType::Float4.byte_size(), 16);
    assert_eq!(AttributeType::Float3.byte_size(), 12);
    assert_eq!(AttributeType::Float2.byte_size(), 8);
    assert_eq!(AttributeType::Unorm8x4.byte_size(), 4);
    assert_eq!(AttributeType::Float16.byte_size(), 2);
    assert_eq!(AttributeType::Uint8.byte_size(), 1);
    assert_eq!(AttributeType::Unorm10x3_1x2.byte_size(), 4);
}

#[test]
fn input_layout_strides_sum_per_slot() {
    let attribs = [
        Attribute { slot: 0, ty: AttributeType::Float3 },
        Attribute { slot: 1, ty: AttributeType::Float2 },
        Attribute { slot: 0, ty: AttributeType::Unorm8x4 },
    ];
    let layout = InputLayout::new(2, &attribs);
    assert_eq!(layout.strides, vec![16, 8]);
}
