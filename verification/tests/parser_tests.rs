use render_resources::attrib::AttributeType;
use render_resources::parser::{parse_shader_source, pragma_include, ParseError};
use render_resources::sampler::{TextureAddressMode, TextureMagFilter, TextureMinFilter};
use render_resources::shader::UniformType;

#[test]
fn parses_declarations_version_and_body() {
    let text = b"sampler s_albedo\n\
                 uniform u_color: float3\n\
                 uniform u_count: int\n\
                 pass forward\n\
                 input float3 0\n\
                 input float2 0\n\
                 #version 450\n\
                 void main() {}\n";
    let sd = parse_shader_source(text).expect("parses");
    assert_eq!(sd.samplers.len(), 1);
    assert_eq!(sd.samplers[0].name, b"s_albedo".to_vec());
    assert_eq!(sd.uniforms.len(), 2);
    assert_eq!(sd.uniforms[0].name, b"u_color".to_vec());
    assert_eq!(sd.uniforms[0].ty, UniformType::Float3);
    assert_eq!(sd.uniforms[1].name, b"u_count".to_vec());
    assert_eq!(sd.uniforms[1].ty, UniformType::Int);
    assert_eq!(sd.passes.len(), 1);
    assert_eq!(sd.passes[0].name, b"forward".to_vec());
    assert_eq!(sd.glsl_input_layout.len(), 2);
    assert_eq!(sd.glsl_input_layout[0].slot, 0);
    assert_eq!(sd.glsl_input_layout[0].attrib_type, AttributeType::Float3);
    assert_eq!(sd.glsl_input_layout[1].attrib_type, AttributeType::Float2);
    assert_eq!(sd.glsl_version, 450);
    assert_eq!(sd.glsl_source, b"void main() {}\n".to_vec());
}

#[test]
fn version_defaults_when_none_is_declared() {
    let sd = parse_shader_source(b"void main() {}\n").expect("parses");
    assert_eq!(sd.glsl_version, 110);
}

#[test]
fn last_version_directive_wins() {
    let sd = parse_shader_source(b"#version 330\nvoid main() {}\n#version 450\n")
        .expect("parses");
    assert_eq!(sd.glsl_version, 450);
    assert_eq!(sd.glsl_source, b"void main() {}\n".to_vec());
}

#[test]
fn empty_body_lines_are_dropped() {
    let sd = parse_shader_source(b"one\n\n\ntwo\n").expect("parses");
    assert_eq!(sd.glsl_source, b"one\ntwo\n".to_vec());
}

#[test]
fn carriage_returns_are_stripped() {
    let sd = parse_shader_source(b"uniform u_x: float\r\nbody\r\n").expect("parses");
    assert_eq!(sd.uniforms[0].name, b"u_x".to_vec());
    assert_eq!(sd.glsl_source, b"body\n".to_vec());
}

#[test]
fn sampler_description_words_are_resolved() {
    let sd = parse_shader_source(b"sampler s_main repeat mirror nearest linear\nbody\n")
        .expect("parses");
    let desc = sd.samplers[0].desc;
    assert_eq!(desc.addr_u, TextureAddressMode::Wrap);
    assert_eq!(desc.addr_v, TextureAddressMode::Mirror);
    assert_eq!(desc.min_filter, TextureMinFilter::Nearest);
    assert_eq!(desc.mag_filter, TextureMagFilter::Linear);
}

#[test]
fn sampler_without_description_gets_the_default() {
    let sd = parse_shader_source(b"sampler s_main\nbody\n").expect("parses");
    let desc = sd.samplers[0].desc;
    assert_eq!(desc.addr_u, TextureAddressMode::Clamp);
    assert_eq!(desc.addr_v, TextureAddressMode::Clamp);
    assert_eq!(desc.min_filter, TextureMinFilter::Nearest);
    assert_eq!(desc.mag_filter, TextureMagFilter::Linear);
}

#[test]
fn malformed_declaration_is_rejected() {
    let r = parse_shader_source(b"pass\nbody\n");
    assert_eq!(r.err(), Some(ParseError::MalformedDeclaration { line: 0 }));
    let r = parse_shader_source(b"uniform u_color float3\nbody\n");
    assert_eq!(r.err(), Some(ParseError::MalformedDeclaration { line: 0 }));
}

#[test]
fn unknown_uniform_type_is_rejected() {
    let r = parse_shader_source(b"uniform u_color: float5\nbody\n");
    assert_eq!(r.err(), Some(ParseError::UnknownUniformType { line: 0 }));
}

#[test]
fn unknown_input_type_is_rejected() {
    let r = parse_shader_source(b"input mat4 0\nbody\n");
    assert_eq!(r.err(), Some(ParseError::UnknownInputType { line: 0 }));
}

#[test]
fn oversized_version_directive_is_rejected() {
    let r = parse_shader_source(b"body\n#version 99999999999\n");
    assert_eq!(r.err(), Some(ParseError::BadVersion { line: 1 }));
}

#[test]
fn uniform_type_names_resolve_exactly() {
    assert_eq!(UniformType::from_str("float"), Some(UniformType::Float));
    assert_eq!(UniformType::from_str("float2"), Some(UniformType::Float2));
    assert_eq!(UniformType::from_str("mat3x4"), Some(UniformType::Mat3x4));
    assert_eq!(UniformType::from_str("ivec2"), None);
    assert_eq!(UniformType::from_str("int4"), Some(UniformType::Int4));
    assert_eq!(UniformType::from_str(""), None);
}

#[test]
fn include_directives_are_recognised() {
    assert_eq!(
        pragma_include(b"#pragma include \"lighting.glsl\""),
        Some(b"lighting.glsl".to_vec())
    );
    assert_eq!(pragma_include(b"# pragma include \"a\" trailing"), Some(b"a".to_vec()));
    assert_eq!(pragma_include(b"#pragma include \"unterminated"), None);
    assert_eq!(pragma_include(b"#version 450"), None);
    assert_eq!(pragma_include(b"plain line"), None);
}

#[test]
fn repeated_spaces_between_tokens_are_accepted() {
    let sd = parse_shader_source(b"uniform   u_x:   float\nbody\n").expect("parses");
    assert_eq!(sd.uniforms[0].name, b"u_x".to_vec());
    assert_eq!(sd.uniforms[0].ty, UniformType::Float);
}

#[test]
fn version_directive_at_the_numeric_limit() {
    let sd = parse_shader_source(b"body\n#version 4294967295\n").expect("parses");
    assert_eq!(sd.glsl_version, u32::MAX);
    let r = parse_shader_source(b"body\n#version 4294967296\n");
    assert_eq!(r.err(), Some(ParseError::BadVersion { line: 1 }));
}

#[test]
fn input_slot_out_of_numeric_range_is_malformed() {
    let r = parse_shader_source(b"input float3 4294967296\nbody\n");
    assert_eq!(r.err(), Some(ParseError::MalformedDeclaration { line: 0 }));
    let sd = parse_shader_source(b"input float3 4294967295\nbody\n").expect("parses");
    assert_eq!(sd.glsl_input_layout[0].slot, u32::MAX);
}

#[test]
fn declaration_text_after_the_body_starts_is_body_text() {
    let sd = parse_shader_source(b"pass p\nvoid main() {}\nuniform u_x: float\n")
        .expect("parses");
    assert_eq!(sd.passes.len(), 1);
    assert_eq!(sd.uniforms.len(), 0);
    assert_eq!(sd.glsl_source, b"void main() {}\nuniform u_x: float\n".to_vec());
}

#[test]
fn include_lines_left_in_place_are_plain_body_text() {
    let sd = parse_shader_source(b"#pragma include \"a.glsl\"\n").expect("parses");
    assert_eq!(sd.glsl_source, b"#pragma include \"a.glsl\"\n".to_vec());
}
