//! The shader text parser. A shader source is a sequence of declaration
//! lines — `sampler <name> [<addr_u> <addr_v> <min> <mag>]`,
//! `uniform <name>: <type>`, `pass <name>`, `input <type> <slot>` — followed
//! by the raw shader-language body. Within the body, lines of the form
//! `#version <number>` declare the language version (the last one wins) and
//! are not part of the body text; empty lines are dropped. Parsing either
//! yields a complete `ShaderDefinition` or fails with a `ParseError` naming
//! the offending line; no partial definition is ever produced.

use vstd::prelude::*;
use vstd::string::StringSliceAdditionalSpecFns;
use crate::attrib::AttributeType;
use crate::sampler::{Sampler2DDesc, TextureAddressMode, TextureMagFilter, TextureMinFilter};
use crate::sampler::spec_default_sampler_desc;
use crate::shader::{GLSLInput, Sampler, SamplerModel, ShaderDefinition, Uniform, UniformModel,
    UniformType};
use crate::shader::{spec_uniform_type, uniform_type_from_bytes, DEFAULT_GLSL_VERSION};
use crate::shader::{pass_views, sampler_views, uniform_views, ShaderModel};
use crate::text::{bytes_eq, bytes_of, digit_end, find_byte, lemma_digit_run, parse_u32,
    skip_spaces, spec_all_digits, spec_dec_value, spec_digit_end, spec_find_byte,
    spec_skip_spaces, spec_token_end, token_end};

verus! {

/// Why a shader text was rejected; each variant names the offending line
/// (counting from zero). A rejected text produces no shader at all.
#[derive(Clone, Copy, PartialEq, Eq, Structural, Debug)]
pub enum ParseError {
    /// A line starts like a declaration but does not have its shape.
    MalformedDeclaration { line: usize },
    /// A uniform declaration names a type outside the fixed enumeration.
    UnknownUniformType { line: usize },
    /// An input declaration names a type that no vertex attribute carries.
    UnknownInputType { line: usize },
    /// A version directive whose number does not fit.
    BadVersion { line: usize },
}

/// A texture addressing word as it appears in a sampler declaration.
#[derive(Clone, Copy, PartialEq, Eq, Structural, Debug)]
pub enum ShTextureAddressMode {
    Clamp,
    Repeat,
    Mirror,
}

impl ShTextureAddressMode {
    /// The sampler addressing mode the word denotes.
    pub fn to_address_mode(self) -> (r: TextureAddressMode)
        ensures
            r == spec_address_mode_of(self),
    {
        match self {
            ShTextureAddressMode::Clamp => TextureAddressMode::Clamp,
            ShTextureAddressMode::Repeat => TextureAddressMode::Wrap,
            ShTextureAddressMode::Mirror => TextureAddressMode::Mirror,
        }
    }
}

/// The sampler addressing mode denoted by an addressing word.
pub open spec fn spec_address_mode_of(m: ShTextureAddressMode) -> TextureAddressMode {
    match m {
        ShTextureAddressMode::Clamp => TextureAddressMode::Clamp,
        ShTextureAddressMode::Repeat => TextureAddressMode::Wrap,
        ShTextureAddressMode::Mirror => TextureAddressMode::Mirror,
    }
}

/// A texture filtering word as it appears in a sampler declaration.
#[derive(Clone, Copy, PartialEq, Eq, Structural, Debug)]
pub enum ShTextureFilter {
    Nearest,
    Linear,
}

/// The addressing word denoted by a byte string, if any.
pub open spec fn spec_sh_address_mode(s: Seq<u8>) -> Option<ShTextureAddressMode> {
    if s == "clamp".spec_bytes() {
        Some(ShTextureAddressMode::Clamp)
    } else if s == "repeat".spec_bytes() {
        Some(ShTextureAddressMode::Repeat)
    } else if s == "mirror".spec_bytes() {
        Some(ShTextureAddressMode::Mirror)
    } else {
        None
    }
}

/// Looks an addressing word up by its bytes.
pub fn sh_address_mode_from_bytes(s: &[u8]) -> (r: Option<ShTextureAddressMode>)
    ensures
        r == spec_sh_address_mode(s@),
{
    if bytes_eq(s, "clamp".as_bytes()) {
        Some(ShTextureAddressMode::Clamp)
    } else if bytes_eq(s, "repeat".as_bytes()) {
        Some(ShTextureAddressMode::Repeat)
    } else if bytes_eq(s, "mirror".as_bytes()) {
        Some(ShTextureAddressMode::Mirror)
    } else {
        None
    }
}

/// The filtering word denoted by a byte string, if any.
pub open spec fn spec_sh_filter(s: Seq<u8>) -> Option<ShTextureFilter> {
    if s == "nearest".spec_bytes() {
        Some(ShTextureFilter::Nearest)
    } else if s == "linear".spec_bytes() {
        Some(ShTextureFilter::Linear)
    } else {
        None
    }
}

/// Looks a filtering word up by its bytes.
pub fn sh_filter_from_bytes(s: &[u8]) -> (r: Option<ShTextureFilter>)
    ensures
        r == spec_sh_filter(s@),
{
    if bytes_eq(s, "nearest".as_bytes()) {
        Some(ShTextureFilter::Nearest)
    } else if bytes_eq(s, "linear".as_bytes()) {
        Some(ShTextureFilter::Linear)
    } else {
        None
    }
}

/// A parsed `uniform` declaration, type name still unresolved.
#[derive(Clone, PartialEq, Eq, Debug)]
pub struct ShUniform {
    pub name: Vec<u8>,
    pub ty: Vec<u8>,
}

/// A parsed `pass` declaration.
#[derive(Clone, PartialEq, Eq, Debug)]
pub struct ShPass {
    pub name: Vec<u8>,
}

/// A parsed `sampler` declaration, description already resolved.
#[derive(Clone, PartialEq, Eq, Debug)]
pub struct ShSampler {
    pub name: Vec<u8>,
    pub desc: Sampler2DDesc,
}

/// A parsed `input` declaration, type name still unresolved.
#[derive(Clone, PartialEq, Eq, Debug)]
pub struct ShInput {
    pub ty: Vec<u8>,
    pub slot: u32,
}

/// One declaration item of a shader text.
#[derive(Clone, PartialEq, Eq, Debug)]
pub enum ShShaderItem {
    Sampler(ShSampler),
    Uniform(ShUniform),
    Pass(ShPass),
    Input(ShInput),
}

/// What one line of the declaration section denotes.
pub ghost enum DeclSpec {
    /// Nothing but spaces: skipped.
    Blank,
    /// Not a declaration: the body starts here.
    NotDecl,
    /// Starts with a declaration keyword but has the wrong shape.
    Malformed,
    SamplerD { name: Seq<u8>, desc: Sampler2DDesc },
    UniformD { name: Seq<u8>, ty: Seq<u8> },
    PassD { name: Seq<u8> },
    InputD { ty: Seq<u8>, slot: u32 },
}

impl View for ShShaderItem {
    type V = DeclSpec;

    open spec fn view(&self) -> DeclSpec {
        match self {
            ShShaderItem::Sampler(s) => DeclSpec::SamplerD { name: s.name@, desc: s.desc },
            ShShaderItem::Uniform(u) => DeclSpec::UniformD { name: u.name@, ty: u.ty@ },
            ShShaderItem::Pass(p) => DeclSpec::PassD { name: p.name@ },
            ShShaderItem::Input(i) => DeclSpec::InputD { ty: i.ty@, slot: i.slot },
        }
    }
}

/// The exec-side outcome of reading one declaration-section line.
pub enum DeclLine {
    Blank,
    NotDecl,
    Malformed,
    Item(ShShaderItem),
}

impl View for DeclLine {
    type V = DeclSpec;

    open spec fn view(&self) -> DeclSpec {
        match self {
            DeclLine::Blank => DeclSpec::Blank,
            DeclLine::NotDecl => DeclSpec::NotDecl,
            DeclLine::Malformed => DeclSpec::Malformed,
            DeclLine::Item(it) => it@,
        }
    }
}

/// What a `pass` line after the keyword denotes.
pub open spec fn spec_parse_pass(l: Seq<u8>, e0: int) -> DeclSpec {
    let t1 = spec_skip_spaces(l, e0);
    let e1 = spec_token_end(l, t1);
    if t1 == e1 {
        DeclSpec::Malformed
    } else if spec_skip_spaces(l, e1) != l.len() {
        DeclSpec::Malformed
    } else {
        DeclSpec::PassD { name: l.subrange(t1, e1) }
    }
}

/// What a `uniform` line after the keyword denotes: a name token ending in
/// a colon, then a type name token.
pub open spec fn spec_parse_uniform(l: Seq<u8>, e0: int) -> DeclSpec {
    let t1 = spec_skip_spaces(l, e0);
    let e1 = spec_token_end(l, t1);
    if e1 - t1 < 2 || l[e1 - 1] != 58 {
        DeclSpec::Malformed
    } else {
        let t2 = spec_skip_spaces(l, e1);
        let e2 = spec_token_end(l, t2);
        if t2 == e2 || spec_skip_spaces(l, e2) != l.len() {
            DeclSpec::Malformed
        } else {
            DeclSpec::UniformD { name: l.subrange(t1, e1 - 1), ty: l.subrange(t2, e2) }
        }
    }
}

/// What an `input` line after the keyword denotes: a type name token, then
/// a buffer slot number.
pub open spec fn spec_parse_input(l: Seq<u8>, e0: int) -> DeclSpec {
    let t1 = spec_skip_spaces(l, e0);
    let e1 = spec_token_end(l, t1);
    if t1 == e1 {
        DeclSpec::Malformed
    } else {
        let t2 = spec_skip_spaces(l, e1);
        let e2 = spec_token_end(l, t2);
        if t2 == e2 || spec_skip_spaces(l, e2) != l.len() {
            DeclSpec::Malformed
        } else {
            let slot = l.subrange(t2, e2);
            if !spec_all_digits(slot) || spec_dec_value(slot) > u32::MAX {
                DeclSpec::Malformed
            } else {
                DeclSpec::InputD {
                    ty: l.subrange(t1, e1),
                    slot: spec_dec_value(slot) as u32,
                }
            }
        }
    }
}

/// What a `sampler` line after the keyword denotes: a name, then either
/// nothing (the default description) or four words, two addressing modes
/// and the two filters.
pub open spec fn spec_parse_sampler(l: Seq<u8>, e0: int) -> DeclSpec {
    let t1 = spec_skip_spaces(l, e0);
    let e1 = spec_token_end(l, t1);
    if t1 == e1 {
        DeclSpec::Malformed
    } else {
        let name = l.subrange(t1, e1);
        let t2 = spec_skip_spaces(l, e1);
        if t2 == l.len() {
            DeclSpec::SamplerD { name, desc: spec_default_sampler_desc() }
        } else {
            let e2 = spec_token_end(l, t2);
            let t3 = spec_skip_spaces(l, e2);
            let e3 = spec_token_end(l, t3);
            let t4 = spec_skip_spaces(l, e3);
            let e4 = spec_token_end(l, t4);
            let t5 = spec_skip_spaces(l, e4);
            let e5 = spec_token_end(l, t5);
            if t3 == e3 || t4 == e4 || t5 == e5 || spec_skip_spaces(l, e5) != l.len() {
                DeclSpec::Malformed
            } else {
                match (
                    spec_sh_address_mode(l.subrange(t2, e2)),
                    spec_sh_address_mode(l.subrange(t3, e3)),
                    spec_sh_filter(l.subrange(t4, e4)),
                    spec_sh_filter(l.subrange(t5, e5)),
                ) {
                    (Some(au), Some(av), Some(mn), Some(mg)) => DeclSpec::SamplerD {
                        name,
                        desc: Sampler2DDesc {
                            addr_u: spec_address_mode_of(au),
                            addr_v: spec_address_mode_of(av),
                            min_filter: spec_filter_min(mn),
                            mag_filter: spec_filter_mag(mg),
                        },
                    },
                    _ => DeclSpec::Malformed,
                }
            }
        }
    }
}

/// The minification filter a filtering word denotes.
pub open spec fn spec_filter_min(f: ShTextureFilter) -> TextureMinFilter {
    match f {
        ShTextureFilter::Nearest => TextureMinFilter::Nearest,
        ShTextureFilter::Linear => TextureMinFilter::Linear,
    }
}

/// The magnification filter a filtering word denotes.
pub open spec fn spec_filter_mag(f: ShTextureFilter) -> TextureMagFilter {
    match f {
        ShTextureFilter::Nearest => TextureMagFilter::Nearest,
        ShTextureFilter::Linear => TextureMagFilter::Linear,
    }
}

impl ShTextureFilter {
    /// The minification filter this word denotes.
    pub fn to_min_filter(self) -> (r: TextureMinFilter)
        ensures
            r == spec_filter_min(self),
    {
        match self {
            ShTextureFilter::Nearest => TextureMinFilter::Nearest,
            ShTextureFilter::Linear => TextureMinFilter::Linear,
        }
    }

    /// The magnification filter this word denotes.
    pub fn to_mag_filter(self) -> (r: TextureMagFilter)
        ensures
            r == spec_filter_mag(self),
    {
        match self {
            ShTextureFilter::Nearest => TextureMagFilter::Nearest,
            ShTextureFilter::Linear => TextureMagFilter::Linear,
        }
    }
}

/// What one declaration-section line denotes.
#[verifier::opaque]
pub open spec fn spec_parse_decl(l: Seq<u8>) -> DeclSpec {
    let t0 = spec_skip_spaces(l, 0);
    if t0 == l.len() {
        DeclSpec::Blank
    } else {
        let e0 = spec_token_end(l, t0);
        let kw = l.subrange(t0, e0);
        if kw == "sampler".spec_bytes() {
            spec_parse_sampler(l, e0)
        } else if kw == "uniform".spec_bytes() {
            spec_parse_uniform(l, e0)
        } else if kw == "pass".spec_bytes() {
            spec_parse_pass(l, e0)
        } else if kw == "input".spec_bytes() {
            spec_parse_input(l, e0)
        } else {
            DeclSpec::NotDecl
        }
    }
}

/// Reads one declaration-section line.
pub fn parse_decl_line(l: &[u8]) -> (r: DeclLine)
    ensures
        r@ == spec_parse_decl(l@),
{
    proof {
        reveal(spec_parse_decl);
    }
    let t0 = skip_spaces(l, 0);
    if t0 == l.len() {
        return DeclLine::Blank;
    }
    let e0 = token_end(l, t0);
    let kw = &l[t0..e0];
    if bytes_eq(kw, "sampler".as_bytes()) {
        parse_sampler_decl(l, e0)
    } else if bytes_eq(kw, "uniform".as_bytes()) {
        parse_uniform_decl(l, e0)
    } else if bytes_eq(kw, "pass".as_bytes()) {
        parse_pass_decl(l, e0)
    } else if bytes_eq(kw, "input".as_bytes()) {
        parse_input_decl(l, e0)
    } else {
        DeclLine::NotDecl
    }
}

/// Reads the remainder of a `pass` line.
fn parse_pass_decl(l: &[u8], e0: usize) -> (r: DeclLine)
    requires
        e0 <= l@.len(),
    ensures
        r@ == spec_parse_pass(l@, e0 as int),
{
    let t1 = skip_spaces(l, e0);
    let e1 = token_end(l, t1);
    if t1 == e1 || skip_spaces(l, e1) != l.len() {
        return DeclLine::Malformed;
    }
    DeclLine::Item(ShShaderItem::Pass(ShPass { name: bytes_of(&l[t1..e1]) }))
}

/// Reads the remainder of a `uniform` line.
fn parse_uniform_decl(l: &[u8], e0: usize) -> (r: DeclLine)
    requires
        e0 <= l@.len(),
    ensures
        r@ == spec_parse_uniform(l@, e0 as int),
{
    let t1 = skip_spaces(l, e0);
    let e1 = token_end(l, t1);
    if e1 - t1 < 2 || l[e1 - 1] != 58 {
        return DeclLine::Malformed;
    }
    let t2 = skip_spaces(l, e1);
    let e2 = token_end(l, t2);
    if t2 == e2 || skip_spaces(l, e2) != l.len() {
        return DeclLine::Malformed;
    }
    DeclLine::Item(
        ShShaderItem::Uniform(
            ShUniform { name: bytes_of(&l[t1..e1 - 1]), ty: bytes_of(&l[t2..e2]) },
        ),
    )
}

/// Reads the remainder of an `input` line.
fn parse_input_decl(l: &[u8], e0: usize) -> (r: DeclLine)
    requires
        e0 <= l@.len(),
    ensures
        r@ == spec_parse_input(l@, e0 as int),
{
    let t1 = skip_spaces(l, e0);
    let e1 = token_end(l, t1);
    if t1 == e1 {
        return DeclLine::Malformed;
    }
    let t2 = skip_spaces(l, e1);
    let e2 = token_end(l, t2);
    if t2 == e2 || skip_spaces(l, e2) != l.len() {
        return DeclLine::Malformed;
    }
    match parse_u32(&l[t2..e2]) {
        Some(slot) => DeclLine::Item(
            ShShaderItem::Input(ShInput { ty: bytes_of(&l[t1..e1]), slot }),
        ),
        None => DeclLine::Malformed,
    }
}

/// Reads the remainder of a `sampler` line.
fn parse_sampler_decl(l: &[u8], e0: usize) -> (r: DeclLine)
    requires
        e0 <= l@.len(),
    ensures
        r@ == spec_parse_sampler(l@, e0 as int),
{
    let t1 = skip_spaces(l, e0);
    let e1 = token_end(l, t1);
    if t1 == e1 {
        return DeclLine::Malformed;
    }
    let name = bytes_of(&l[t1..e1]);
    let t2 = skip_spaces(l, e1);
    if t2 == l.len() {
        return DeclLine::Item(
            ShShaderItem::Sampler(ShSampler { name, desc: Sampler2DDesc::default() }),
        );
    }
    let e2 = token_end(l, t2);
    let t3 = skip_spaces(l, e2);
    let e3 = token_end(l, t3);
    let t4 = skip_spaces(l, e3);
    let e4 = token_end(l, t4);
    let t5 = skip_spaces(l, e4);
    let e5 = token_end(l, t5);
    if t3 == e3 || t4 == e4 || t5 == e5 || skip_spaces(l, e5) != l.len() {
        return DeclLine::Malformed;
    }
    let au = sh_address_mode_from_bytes(&l[t2..e2]);
    let av = sh_address_mode_from_bytes(&l[t3..e3]);
    let mn = sh_filter_from_bytes(&l[t4..e4]);
    let mg = sh_filter_from_bytes(&l[t5..e5]);
    match (au, av, mn, mg) {
        (Some(au), Some(av), Some(mn), Some(mg)) => DeclLine::Item(
            ShShaderItem::Sampler(
                ShSampler {
                    name,
                    desc: Sampler2DDesc {
                        addr_u: au.to_address_mode(),
                        addr_v: av.to_address_mode(),
                        min_filter: mn.to_min_filter(),
                        mag_filter: mg.to_mag_filter(),
                    },
                },
            ),
        ),
        _ => DeclLine::Malformed,
    }
}

/// The logical uniform type and raw attribute format denoted by an input
/// type name, if the name is one of the vertex input types.
pub open spec fn spec_input_type(s: Seq<u8>) -> Option<(UniformType, AttributeType)> {
    if s == "float".spec_bytes() {
        Some((UniformType::Float, AttributeType::Float))
    } else if s == "float2".spec_bytes() {
        Some((UniformType::Float2, AttributeType::Float2))
    } else if s == "float3".spec_bytes() {
        Some((UniformType::Float3, AttributeType::Float3))
    } else if s == "float4".spec_bytes() {
        Some((UniformType::Float4, AttributeType::Float4))
    } else {
        None
    }
}

/// Looks an input type up by the bytes of its name.
pub fn parse_input_type(s: &[u8]) -> (r: Option<(UniformType, AttributeType)>)
    ensures
        r == spec_input_type(s@),
{
    if bytes_eq(s, "float".as_bytes()) {
        Some((UniformType::Float, AttributeType::Float))
    } else if bytes_eq(s, "float2".as_bytes()) {
        Some((UniformType::Float2, AttributeType::Float2))
    } else if bytes_eq(s, "float3".as_bytes()) {
        Some((UniformType::Float3, AttributeType::Float3))
    } else if bytes_eq(s, "float4".as_bytes()) {
        Some((UniformType::Float4, AttributeType::Float4))
    } else {
        None
    }
}

/// The outcome of looking for a version directive in one body line.
#[derive(Clone, Copy, PartialEq, Eq, Structural, Debug)]
pub enum VersionScan {
    /// The line is not a version directive.
    NotVersion,
    /// A version directive whose number does not fit a `u32`.
    Overflow,
    /// A version directive declaring this version.
    Value(u32),
}

/// Scans one body line for a version directive: `#`, optional spaces,
/// `version`, at least one space, then decimal digits (anything after the
/// digits is ignored).
pub open spec fn spec_version_scan(l: Seq<u8>) -> VersionScan {
    if l.len() == 0 || l[0] != 35 {
        VersionScan::NotVersion
    } else {
        let j1 = spec_skip_spaces(l, 1);
        if j1 + 7 > l.len() || l.subrange(j1, j1 + 7) != "version".spec_bytes() {
            VersionScan::NotVersion
        } else {
            let j2 = spec_skip_spaces(l, j1 + 7);
            if j2 == j1 + 7 {
                VersionScan::NotVersion
            } else {
                let e = spec_digit_end(l, j2);
                if e == j2 {
                    VersionScan::NotVersion
                } else if spec_dec_value(l.subrange(j2, e)) > u32::MAX {
                    VersionScan::Overflow
                } else {
                    VersionScan::Value(spec_dec_value(l.subrange(j2, e)) as u32)
                }
            }
        }
    }
}

/// Scans one body line for a version directive.
pub fn version_scan(l: &[u8]) -> (r: VersionScan)
    ensures
        r == spec_version_scan(l@),
{
    if l.len() == 0 || l[0] != 35 {
        return VersionScan::NotVersion;
    }
    let j1 = skip_spaces(l, 1);
    if l.len() - j1 < 7 || !bytes_eq(&l[j1..j1 + 7], "version".as_bytes()) {
        return VersionScan::NotVersion;
    }
    let j2 = skip_spaces(l, j1 + 7);
    if j2 == j1 + 7 {
        return VersionScan::NotVersion;
    }
    let e = digit_end(l, j2);
    if e == j2 {
        return VersionScan::NotVersion;
    }
    proof {
        assert forall|j: int| j2 <= j < e implies crate::text::spec_is_digit(l@[j]) by {
            lemma_digit_run(l@, j2 as int, j);
        }
        assert(spec_all_digits(l@.subrange(j2 as int, e as int)));
    }
    match parse_u32(&l[j2..e]) {
        Some(v) => VersionScan::Value(v),
        None => VersionScan::Overflow,
    }
}

/// Scans one line for an include directive: `#`, optional spaces, `pragma`,
/// spaces, `include`, optional spaces, then a path between double quotes.
/// Resolving and splicing the named file is the caller's task; the parser
/// itself treats such a line as plain body text.
pub open spec fn spec_pragma_include(l: Seq<u8>) -> Option<Seq<u8>> {
    if l.len() == 0 || l[0] != 35 {
        None
    } else {
        let j1 = spec_skip_spaces(l, 1);
        if j1 + 6 > l.len() || l.subrange(j1, j1 + 6) != "pragma".spec_bytes() {
            None
        } else {
            let j2 = spec_skip_spaces(l, j1 + 6);
            if j2 == j1 + 6 || j2 + 7 > l.len() || l.subrange(j2, j2 + 7)
                != "include".spec_bytes() {
                None
            } else {
                let j3 = spec_skip_spaces(l, j2 + 7);
                if j3 >= l.len() || l[j3] != 34 {
                    None
                } else {
                    let e = spec_find_byte(l, j3 + 1, 34);
                    if e >= l.len() {
                        None
                    } else {
                        Some(l.subrange(j3 + 1, e))
                    }
                }
            }
        }
    }
}

/// Scans one line for an include directive, returning the quoted path.
pub fn pragma_include(l: &[u8]) -> (r: Option<Vec<u8>>)
    ensures
        match r {
            Some(p) => spec_pragma_include(l@) == Some(p@),
            None => spec_pragma_include(l@) is None,
        },
{
    if l.len() == 0 || l[0] != 35 {
        return None;
    }
    let j1 = skip_spaces(l, 1);
    if l.len() - j1 < 6 || !bytes_eq(&l[j1..j1 + 6], "pragma".as_bytes()) {
        return None;
    }
    let j2 = skip_spaces(l, j1 + 6);
    if j2 == j1 + 6 || l.len() - j2 < 7 || !bytes_eq(&l[j2..j2 + 7], "include".as_bytes()) {
        return None;
    }
    let j3 = skip_spaces(l, j2 + 7);
    if j3 >= l.len() {
        return None;
    }
    if l[j3] != 34 {
        return None;
    }
    let e = find_byte(l, j3 + 1, 34);
    if e >= l.len() {
        return None;
    }
    Some(bytes_of(&l[j3 + 1..e]))
}

/// One trailing carriage return is not part of a line.
pub open spec fn spec_strip_cr(l: Seq<u8>) -> Seq<u8> {
    if l.len() > 0 && l.last() == 13 {
        l.drop_last()
    } else {
        l
    }
}

/// The lines of `s` from position `p` on, split at newlines; a final
/// newline terminates the last line rather than opening an empty one.
pub open spec fn spec_split_lines_from(s: Seq<u8>, p: int) -> Seq<Seq<u8>>
    decreases s.len() - p,
    via spec_split_lines_from_decreases
{
    if p < 0 || p >= s.len() {
        Seq::empty()
    } else {
        let e = spec_find_byte(s, p, 10);
        let line = spec_strip_cr(s.subrange(p, e));
        if e == s.len() {
            seq![line]
        } else {
            seq![line] + spec_split_lines_from(s, e + 1)
        }
    }
}

#[via_fn]
proof fn spec_split_lines_from_decreases(s: Seq<u8>, p: int) {
    if 0 <= p < s.len() {
        crate::text::lemma_find_byte_bounds(s, p, 10);
    }
}

/// The lines of a shader text.
pub open spec fn spec_split_lines(s: Seq<u8>) -> Seq<Seq<u8>> {
    spec_split_lines_from(s, 0)
}

/// The line contents of a vector of owned lines.
pub open spec fn line_views(ls: Seq<Vec<u8>>) -> Seq<Seq<u8>> {
    ls.map_values(|l: Vec<u8>| l@)
}

/// Splits a shader text into lines.
pub fn split_lines(src: &[u8]) -> (r: Vec<Vec<u8>>)
    ensures
        line_views(r@) == spec_split_lines(src@),
{
    let mut lines: Vec<Vec<u8>> = Vec::new();
    let mut p: usize = 0;
    proof {
        assert(line_views(lines@) =~= Seq::<Seq<u8>>::empty());
        assert(line_views(lines@) + spec_split_lines_from(src@, 0) =~= spec_split_lines(src@));
    }
    while p < src.len()
        invariant
            p <= src@.len(),
            spec_split_lines(src@) == line_views(lines@) + spec_split_lines_from(src@, p as int),
        decreases src@.len() - p,
    {
        let e = crate::text::find_byte(src, p, 10);
        let mut line = bytes_of(&src[p..e]);
        if line.len() > 0 && line[line.len() - 1] == 13 {
            line.pop();
        }
        proof {
            assert(line@ =~= spec_strip_cr(src@.subrange(p as int, e as int)));
        }
        let ghost pre = line_views(lines@);
        let ghost rest = spec_split_lines_from(src@, p as int);
        lines.push(line);
        proof {
            assert(line_views(lines@) =~= pre + seq![line@]);
            if e == src@.len() {
                assert(rest =~= seq![line@]);
                assert(line_views(lines@) + spec_split_lines_from(src@, src@.len() as int) =~= pre
                    + rest);
            } else {
                assert(rest =~= seq![line@] + spec_split_lines_from(src@, e + 1));
                assert(line_views(lines@) + spec_split_lines_from(src@, e + 1) =~= pre + rest);
            }
        }
        if e == src.len() {
            p = e;
            proof {
                assert(line_views(lines@) + Seq::<Seq<u8>>::empty() =~= line_views(lines@));
            }
        } else {
            p = e + 1;
        }
    }
    proof {
        assert(spec_split_lines_from(src@, src@.len() as int) =~= Seq::<Seq<u8>>::empty());
        assert(line_views(lines@) =~= line_views(lines@) + spec_split_lines_from(
            src@,
            src@.len() as int,
        ));
    }
    lines
}

/// The body text accumulated so far and the version directive in force.
pub ghost struct BodyScan {
    pub body: Seq<u8>,
    pub version: Option<u32>,
}

/// Prefixes already-scanned body text and an already-seen version directive
/// onto the outcome of scanning the rest: a version found later wins.
pub open spec fn spec_combine_body(
    body: Seq<u8>,
    v: Option<u32>,
    rest: Result<BodyScan, ParseError>,
) -> Result<BodyScan, ParseError> {
    match rest {
        Ok(bs) => Ok(
            BodyScan {
                body: body + bs.body,
                version: if bs.version is Some {
                    bs.version
                } else {
                    v
                },
            },
        ),
        Err(e) => Err(e),
    }
}

/// Scans the body section from line `i` on: empty lines are dropped,
/// version directives are recorded (the last one wins) and removed, every
/// other line is body text terminated by a newline.
#[verifier::opaque]
pub open spec fn spec_parse_body(lines: Seq<Seq<u8>>, i: int) -> Result<BodyScan, ParseError>
    decreases lines.len() - i,
{
    if i < 0 || i >= lines.len() {
        Ok(BodyScan { body: Seq::empty(), version: None })
    } else {
        let l = lines[i];
        if l.len() == 0 {
            spec_parse_body(lines, i + 1)
        } else {
            match spec_version_scan(l) {
                VersionScan::Overflow => Err(ParseError::BadVersion { line: i as usize }),
                VersionScan::Value(v) => spec_combine_body(
                    Seq::empty(),
                    Some(v),
                    spec_parse_body(lines, i + 1),
                ),
                VersionScan::NotVersion => spec_combine_body(
                    l + "\n".spec_bytes(),
                    None,
                    spec_parse_body(lines, i + 1),
                ),
            }
        }
    }
}

/// Prefixes already-parsed declarations onto the outcome of parsing the
/// rest of the text.
pub open spec fn spec_combine_decls(
    sam: Seq<SamplerModel>,
    uni: Seq<UniformModel>,
    pas: Seq<Seq<u8>>,
    inp: Seq<GLSLInput>,
    rest: Result<ShaderModel, ParseError>,
) -> Result<ShaderModel, ParseError> {
    match rest {
        Ok(m) => Ok(
            ShaderModel {
                samplers: sam + m.samplers,
                uniforms: uni + m.uniforms,
                passes: pas + m.passes,
                glsl_source: m.glsl_source,
                glsl_version: m.glsl_version,
                glsl_input_layout: inp + m.glsl_input_layout,
            },
        ),
        Err(e) => Err(e),
    }
}

/// Parses a shader text from line `i` on: declarations first, then, from
/// the first line that is no declaration, the body.
#[verifier::opaque]
pub open spec fn spec_parse_from(lines: Seq<Seq<u8>>, i: int) -> Result<ShaderModel, ParseError>
    decreases lines.len() - i,
{
    if i < 0 || i >= lines.len() {
        Ok(
            ShaderModel {
                samplers: Seq::empty(),
                uniforms: Seq::empty(),
                passes: Seq::empty(),
                glsl_source: Seq::empty(),
                glsl_version: DEFAULT_GLSL_VERSION,
                glsl_input_layout: Seq::empty(),
            },
        )
    } else {
        match spec_parse_decl(lines[i]) {
            DeclSpec::Blank => spec_parse_from(lines, i + 1),
            DeclSpec::Malformed => Err(ParseError::MalformedDeclaration { line: i as usize }),
            DeclSpec::NotDecl => match spec_parse_body(lines, i) {
                Ok(bs) => Ok(
                    ShaderModel {
                        samplers: Seq::empty(),
                        uniforms: Seq::empty(),
                        passes: Seq::empty(),
                        glsl_source: bs.body,
                        glsl_version: match bs.version {
                            Some(v) => v,
                            None => DEFAULT_GLSL_VERSION,
                        },
                        glsl_input_layout: Seq::empty(),
                    },
                ),
                Err(e) => Err(e),
            },
            DeclSpec::SamplerD { name, desc } => spec_combine_decls(
                seq![SamplerModel { name, desc }],
                Seq::empty(),
                Seq::empty(),
                Seq::empty(),
                spec_parse_from(lines, i + 1),
            ),
            DeclSpec::UniformD { name, ty } => match spec_uniform_type(ty) {
                None => Err(ParseError::UnknownUniformType { line: i as usize }),
                Some(t) => spec_combine_decls(
                    Seq::empty(),
                    seq![UniformModel { name, ty: t }],
                    Seq::empty(),
                    Seq::empty(),
                    spec_parse_from(lines, i + 1),
                ),
            },
            DeclSpec::PassD { name } => spec_combine_decls(
                Seq::empty(),
                Seq::empty(),
                seq![name],
                Seq::empty(),
                spec_parse_from(lines, i + 1),
            ),
            DeclSpec::InputD { ty, slot } => match spec_input_type(ty) {
                None => Err(ParseError::UnknownInputType { line: i as usize }),
                Some(t) => spec_combine_decls(
                    Seq::empty(),
                    Seq::empty(),
                    Seq::empty(),
                    seq![GLSLInput { slot, shader_type: t.0, attrib_type: t.1 }],
                    spec_parse_from(lines, i + 1),
                ),
            },
        }
    }
}

/// What parsing a whole shader text yields.
pub open spec fn spec_parse_shader(src: Seq<u8>) -> Result<ShaderModel, ParseError> {
    spec_parse_from(spec_split_lines(src), 0)
}


/// Past the last line, parsing yields the empty shader with the default
/// version.
proof fn lemma_from_end(lines: Seq<Seq<u8>>, i: int)
    requires
        i >= lines.len(),
    ensures
        spec_parse_from(lines, i) == Ok::<ShaderModel, ParseError>(
            ShaderModel {
                samplers: Seq::empty(),
                uniforms: Seq::empty(),
                passes: Seq::empty(),
                glsl_source: Seq::empty(),
                glsl_version: DEFAULT_GLSL_VERSION,
                glsl_input_layout: Seq::empty(),
            },
        ),
{
    reveal(spec_parse_from);
}

/// A blank line in the declaration section changes nothing.
proof fn lemma_step_blank(lines: Seq<Seq<u8>>, i: int)
    requires
        0 <= i < lines.len(),
        spec_parse_decl(lines[i]) == DeclSpec::Blank,
    ensures
        spec_parse_from(lines, i) == spec_parse_from(lines, i + 1),
{
    reveal(spec_parse_from);
}

/// A malformed declaration rejects the text.
proof fn lemma_step_malformed(lines: Seq<Seq<u8>>, i: int)
    requires
        0 <= i < lines.len(),
        spec_parse_decl(lines[i]) == DeclSpec::Malformed,
    ensures
        spec_parse_from(lines, i) == Err::<ShaderModel, ParseError>(
            ParseError::MalformedDeclaration { line: i as usize },
        ),
{
    reveal(spec_parse_from);
}

/// A sampler declaration prefixes one sampler.
proof fn lemma_step_sampler(lines: Seq<Seq<u8>>, i: int, name: Seq<u8>, desc: Sampler2DDesc)
    requires
        0 <= i < lines.len(),
        spec_parse_decl(lines[i]) == (DeclSpec::SamplerD { name, desc }),
    ensures
        spec_parse_from(lines, i) == spec_combine_decls(
            seq![SamplerModel { name, desc }],
            Seq::empty(),
            Seq::empty(),
            Seq::empty(),
            spec_parse_from(lines, i + 1),
        ),
{
    reveal(spec_parse_from);
}

/// A uniform declaration with an unrecognised type name rejects the text.
proof fn lemma_step_uniform_unknown(lines: Seq<Seq<u8>>, i: int, name: Seq<u8>, ty: Seq<u8>)
    requires
        0 <= i < lines.len(),
        spec_parse_decl(lines[i]) == (DeclSpec::UniformD { name, ty }),
        spec_uniform_type(ty) is None,
    ensures
        spec_parse_from(lines, i) == Err::<ShaderModel, ParseError>(
            ParseError::UnknownUniformType { line: i as usize },
        ),
{
    reveal(spec_parse_from);
}

/// A uniform declaration prefixes one resolved uniform.
proof fn lemma_step_uniform_known(
    lines: Seq<Seq<u8>>,
    i: int,
    name: Seq<u8>,
    ty: Seq<u8>,
    t: UniformType,
)
    requires
        0 <= i < lines.len(),
        spec_parse_decl(lines[i]) == (DeclSpec::UniformD { name, ty }),
        spec_uniform_type(ty) == Some(t),
    ensures
        spec_parse_from(lines, i) == spec_combine_decls(
            Seq::empty(),
            seq![UniformModel { name, ty: t }],
            Seq::empty(),
            Seq::empty(),
            spec_parse_from(lines, i + 1),
        ),
{
    reveal(spec_parse_from);
}

/// A pass declaration prefixes one pass name.
proof fn lemma_step_pass(lines: Seq<Seq<u8>>, i: int, name: Seq<u8>)
    requires
        0 <= i < lines.len(),
        spec_parse_decl(lines[i]) == (DeclSpec::PassD { name }),
    ensures
        spec_parse_from(lines, i) == spec_combine_decls(
            Seq::empty(),
            Seq::empty(),
            seq![name],
            Seq::empty(),
            spec_parse_from(lines, i + 1),
        ),
{
    reveal(spec_parse_from);
}

/// An input declaration with an unrecognised type name rejects the text.
proof fn lemma_step_input_unknown(lines: Seq<Seq<u8>>, i: int, ty: Seq<u8>, slot: u32)
    requires
        0 <= i < lines.len(),
        spec_parse_decl(lines[i]) == (DeclSpec::InputD { ty, slot }),
        spec_input_type(ty) is None,
    ensures
        spec_parse_from(lines, i) == Err::<ShaderModel, ParseError>(
            ParseError::UnknownInputType { line: i as usize },
        ),
{
    reveal(spec_parse_from);
}

/// An input declaration prefixes one resolved vertex input.
proof fn lemma_step_input_known(
    lines: Seq<Seq<u8>>,
    i: int,
    ty: Seq<u8>,
    slot: u32,
    t: (UniformType, AttributeType),
)
    requires
        0 <= i < lines.len(),
        spec_parse_decl(lines[i]) == (DeclSpec::InputD { ty, slot }),
        spec_input_type(ty) == Some(t),
    ensures
        spec_parse_from(lines, i) == spec_combine_decls(
            Seq::empty(),
            Seq::empty(),
            Seq::empty(),
            seq![GLSLInput { slot, shader_type: t.0, attrib_type: t.1 }],
            spec_parse_from(lines, i + 1),
        ),
{
    reveal(spec_parse_from);
}

/// At the first non-declaration line, parsing is the body scan.
proof fn lemma_step_notdecl(lines: Seq<Seq<u8>>, i: int)
    requires
        0 <= i < lines.len(),
        spec_parse_decl(lines[i]) == DeclSpec::NotDecl,
    ensures
        spec_parse_from(lines, i) == match spec_parse_body(lines, i) {
            Ok(bs) => Ok::<ShaderModel, ParseError>(
                ShaderModel {
                    samplers: Seq::empty(),
                    uniforms: Seq::empty(),
                    passes: Seq::empty(),
                    glsl_source: bs.body,
                    glsl_version: match bs.version {
                        Some(v) => v,
                        None => DEFAULT_GLSL_VERSION,
                    },
                    glsl_input_layout: Seq::empty(),
                },
            ),
            Err(e) => Err(e),
        },
{
    reveal(spec_parse_from);
}

/// Past the last line, the body scan yields nothing.
proof fn lemma_body_end(lines: Seq<Seq<u8>>, i: int)
    requires
        i >= lines.len(),
    ensures
        spec_parse_body(lines, i) == Ok::<BodyScan, ParseError>(
            BodyScan { body: Seq::empty(), version: None },
        ),
{
    reveal(spec_parse_body);
}

/// An empty body line is dropped.
proof fn lemma_body_blank(lines: Seq<Seq<u8>>, i: int)
    requires
        0 <= i < lines.len(),
        lines[i].len() == 0,
    ensures
        spec_parse_body(lines, i) == spec_parse_body(lines, i + 1),
{
    reveal(spec_parse_body);
}

/// A version directive is recorded and removed from the body.
proof fn lemma_body_version(lines: Seq<Seq<u8>>, i: int, v: u32)
    requires
        0 <= i < lines.len(),
        lines[i].len() > 0,
        spec_version_scan(lines[i]) == VersionScan::Value(v),
    ensures
        spec_parse_body(lines, i) == spec_combine_body(
            Seq::empty(),
            Some(v),
            spec_parse_body(lines, i + 1),
        ),
{
    reveal(spec_parse_body);
}

/// An oversized version directive rejects the text.
proof fn lemma_body_overflow(lines: Seq<Seq<u8>>, i: int)
    requires
        0 <= i < lines.len(),
        lines[i].len() > 0,
        spec_version_scan(lines[i]) == VersionScan::Overflow,
    ensures
        spec_parse_body(lines, i) == Err::<BodyScan, ParseError>(
            ParseError::BadVersion { line: i as usize },
        ),
{
    reveal(spec_parse_body);
}

/// Any other body line is body text terminated by a newline.
proof fn lemma_body_plain(lines: Seq<Seq<u8>>, i: int)
    requires
        0 <= i < lines.len(),
        lines[i].len() > 0,
        spec_version_scan(lines[i]) == VersionScan::NotVersion,
    ensures
        spec_parse_body(lines, i) == spec_combine_body(
            lines[i] + "\n".spec_bytes(),
            None,
            spec_parse_body(lines, i + 1),
        ),
{
    reveal(spec_parse_body);
}

/// Prefixing declarations twice is prefixing the concatenations once.
proof fn lemma_combine_decls_assoc(
    sam1: Seq<SamplerModel>,
    uni1: Seq<UniformModel>,
    pas1: Seq<Seq<u8>>,
    inp1: Seq<GLSLInput>,
    sam2: Seq<SamplerModel>,
    uni2: Seq<UniformModel>,
    pas2: Seq<Seq<u8>>,
    inp2: Seq<GLSLInput>,
    rest: Result<ShaderModel, ParseError>,
)
    ensures
        spec_combine_decls(
            sam1,
            uni1,
            pas1,
            inp1,
            spec_combine_decls(sam2, uni2, pas2, inp2, rest),
        ) == spec_combine_decls(sam1 + sam2, uni1 + uni2, pas1 + pas2, inp1 + inp2, rest),
{
    match rest {
        Ok(m) => {
            assert(sam1 + (sam2 + m.samplers) =~= (sam1 + sam2) + m.samplers);
            assert(uni1 + (uni2 + m.uniforms) =~= (uni1 + uni2) + m.uniforms);
            assert(pas1 + (pas2 + m.passes) =~= (pas1 + pas2) + m.passes);
            assert(inp1 + (inp2 + m.glsl_input_layout) =~= (inp1 + inp2) + m.glsl_input_layout);
        },
        Err(_) => {},
    }
}

/// Prefixing body text twice is prefixing the concatenation once, the later
/// version directive winning.
proof fn lemma_combine_body_assoc(
    b1: Seq<u8>,
    v1: Option<u32>,
    b2: Seq<u8>,
    v2: Option<u32>,
    rest: Result<BodyScan, ParseError>,
)
    ensures
        spec_combine_body(b1, v1, spec_combine_body(b2, v2, rest)) == spec_combine_body(
            b1 + b2,
            if v2 is Some {
                v2
            } else {
                v1
            },
            rest,
        ),
{
    match rest {
        Ok(bs) => {
            assert(b1 + (b2 + bs.body) =~= (b1 + b2) + bs.body);
        },
        Err(_) => {},
    }
}

/// Parses a whole shader text into an immutable `ShaderDefinition`: the
/// declared samplers, uniforms, passes and vertex inputs, in order, the
/// body text, and the declared version (or the default). A malformed
/// declaration, an unknown type name or an oversized version directive
/// rejects the text, and no partial definition is produced.
#[verifier::rlimit(80)]
pub fn parse_shader_source(src: &[u8]) -> (r: Result<ShaderDefinition, ParseError>)
    ensures
        match r {
            Ok(sd) => spec_parse_shader(src@) == Ok::<ShaderModel, ParseError>(sd@),
            Err(e) => spec_parse_shader(src@) == Err::<ShaderModel, ParseError>(e),
        },
{
    let lines = split_lines(src);
    let ghost lv = line_views(lines@);
    let n = lines.len();
    let mut samplers: Vec<Sampler> = Vec::new();
    let mut uniforms: Vec<Uniform> = Vec::new();
    let mut passes: Vec<crate::shader::Pass> = Vec::new();
    let mut inputs: Vec<GLSLInput> = Vec::new();
    let mut i: usize = 0;
    let mut body_found = false;
    proof {
        assert(sampler_views(samplers@) =~= Seq::<SamplerModel>::empty());
        assert(uniform_views(uniforms@) =~= Seq::<UniformModel>::empty());
        assert(pass_views(passes@) =~= Seq::<Seq<u8>>::empty());
        lemma_combine_decls_empty(spec_parse_from(lv, 0));
    }
    while i < n && !body_found
        invariant
            n == lines@.len(),
            lv == line_views(lines@),
            spec_split_lines(src@) == lv,
            i <= n,
            body_found ==> i < n && spec_parse_decl(lv[i as int]) == DeclSpec::NotDecl,
            spec_parse_from(lv, 0) == spec_combine_decls(
                sampler_views(samplers@),
                uniform_views(uniforms@),
                pass_views(passes@),
                inputs@,
                spec_parse_from(lv, i as int),
            ),
        decreases n - i, (if body_found { 0int } else { 1int }),
    {
        let ghost sam0 = sampler_views(samplers@);
        let ghost uni0 = uniform_views(uniforms@);
        let ghost pas0 = pass_views(passes@);
        let ghost inp0 = inputs@;
        proof {
            assert(lv[i as int] == lines@[i as int]@);
        }
        match parse_decl_line(lines[i].as_slice()) {
            DeclLine::Blank => {
                proof {
                    lemma_step_blank(lv, i as int);
                }
                i = i + 1;
            },
            DeclLine::Malformed => {
                proof {
                    lemma_step_malformed(lv, i as int);
                }
                return Err(ParseError::MalformedDeclaration { line: i });
            },
            DeclLine::NotDecl => {
                body_found = true;
            },
            DeclLine::Item(ShShaderItem::Sampler(s)) => {
                let ghost m = SamplerModel { name: s.name@, desc: s.desc };
                proof {
                    lemma_step_sampler(lv, i as int, m.name, m.desc);
                }
                samplers.push(Sampler { name: s.name, desc: s.desc });
                proof {
                    assert(sampler_views(samplers@) =~= sam0 + seq![m]);
                    lemma_combine_decls_assoc(
                        sam0,
                        uni0,
                        pas0,
                        inp0,
                        seq![m],
                        Seq::empty(),
                        Seq::empty(),
                        Seq::empty(),
                        spec_parse_from(lv, i + 1),
                    );
                    assert(uni0 + Seq::<UniformModel>::empty() =~= uni0);
                    assert(pas0 + Seq::<Seq<u8>>::empty() =~= pas0);
                    assert(inp0 + Seq::<GLSLInput>::empty() =~= inp0);
                }
                i = i + 1;
            },
            DeclLine::Item(ShShaderItem::Uniform(u)) => {
                let ghost gname = u.name@;
                let ghost gty = u.ty@;
                match uniform_type_from_bytes(u.ty.as_slice()) {
                    None => {
                        proof {
                            lemma_step_uniform_unknown(lv, i as int, gname, gty);
                        }
                        return Err(ParseError::UnknownUniformType { line: i });
                    },
                    Some(t) => {
                        let ghost m = UniformModel { name: u.name@, ty: t };
                        proof {
                            lemma_step_uniform_known(lv, i as int, gname, gty, t);
                        }
                        uniforms.push(Uniform { name: u.name, ty: t });
                        proof {
                            assert(uniform_views(uniforms@) =~= uni0 + seq![m]);
                            lemma_combine_decls_assoc(
                                sam0,
                                uni0,
                                pas0,
                                inp0,
                                Seq::empty(),
                                seq![m],
                                Seq::empty(),
                                Seq::empty(),
                                spec_parse_from(lv, i + 1),
                            );
                            assert(sam0 + Seq::<SamplerModel>::empty() =~= sam0);
                            assert(pas0 + Seq::<Seq<u8>>::empty() =~= pas0);
                            assert(inp0 + Seq::<GLSLInput>::empty() =~= inp0);
                        }
                        i = i + 1;
                    },
                }
            },
            DeclLine::Item(ShShaderItem::Pass(p)) => {
                let ghost m = p.name@;
                proof {
                    lemma_step_pass(lv, i as int, m);
                }
                passes.push(crate::shader::Pass { name: p.name });
                proof {
                    assert(pass_views(passes@) =~= pas0 + seq![m]);
                    lemma_combine_decls_assoc(
                        sam0,
                        uni0,
                        pas0,
                        inp0,
                        Seq::empty(),
                        Seq::empty(),
                        seq![m],
                        Seq::empty(),
                        spec_parse_from(lv, i + 1),
                    );
                    assert(sam0 + Seq::<SamplerModel>::empty() =~= sam0);
                    assert(uni0 + Seq::<UniformModel>::empty() =~= uni0);
                    assert(inp0 + Seq::<GLSLInput>::empty() =~= inp0);
                }
                i = i + 1;
            },
            DeclLine::Item(ShShaderItem::Input(inp)) => {
                let ghost gty = inp.ty@;
                let ghost gslot = inp.slot;
                match parse_input_type(inp.ty.as_slice()) {
                    None => {
                        proof {
                            lemma_step_input_unknown(lv, i as int, gty, gslot);
                        }
                        return Err(ParseError::UnknownInputType { line: i });
                    },
                    Some(t) => {
                        let ghost m = GLSLInput {
                            slot: inp.slot,
                            shader_type: t.0,
                            attrib_type: t.1,
                        };
                        proof {
                            lemma_step_input_known(lv, i as int, gty, gslot, t);
                        }
                        inputs.push(
                            GLSLInput { slot: inp.slot, shader_type: t.0, attrib_type: t.1 },
                        );
                        proof {
                            assert(inputs@ =~= inp0 + seq![m]);
                            lemma_combine_decls_assoc(
                                sam0,
                                uni0,
                                pas0,
                                inp0,
                                Seq::empty(),
                                Seq::empty(),
                                Seq::empty(),
                                seq![m],
                                spec_parse_from(lv, i + 1),
                            );
                            assert(sam0 + Seq::<SamplerModel>::empty() =~= sam0);
                            assert(uni0 + Seq::<UniformModel>::empty() =~= uni0);
                            assert(pas0 + Seq::<Seq<u8>>::empty() =~= pas0);
                        }
                        i = i + 1;
                    },
                }
            },
        }
    }

    // The body section: from the first non-declaration line to the end.
    let body_start = i;
    let mut body: Vec<u8> = Vec::new();
    let mut version: Option<u32> = None;
    let mut j: usize = i;
    proof {
        lemma_combine_body_empty(spec_parse_body(lv, body_start as int));
        assert(body@ =~= Seq::<u8>::empty());
    }
    while j < n
        invariant
            n == lines@.len(),
            lv == line_views(lines@),
            spec_split_lines(src@) == lv,
            body_start <= j <= n,
            spec_parse_body(lv, body_start as int) == spec_combine_body(
                body@,
                version,
                spec_parse_body(lv, j as int),
            ),
            spec_parse_from(lv, 0) == spec_combine_decls(
                sampler_views(samplers@),
                uniform_views(uniforms@),
                pass_views(passes@),
                inputs@,
                spec_parse_from(lv, body_start as int),
            ),
            body_found ==> body_start < n && spec_parse_decl(lv[body_start as int])
                == DeclSpec::NotDecl,
            !body_found ==> body_start == n,
        decreases n - j,
    {
        let ghost b0 = body@;
        let ghost v0 = version;
        proof {
            assert(lv[j as int] == lines@[j as int]@);
        }
        let l = lines[j].as_slice();
        if l.len() == 0 {
            proof {
                lemma_body_blank(lv, j as int);
            }
            j = j + 1;
            continue ;
        }
        match version_scan(l) {
            VersionScan::Overflow => {
                proof {
                    lemma_body_overflow(lv, j as int);
                    lemma_step_notdecl(lv, body_start as int);
                }
                return Err(ParseError::BadVersion { line: j });
            },
            VersionScan::Value(v) => {
                version = Some(v);
                proof {
                    lemma_body_version(lv, j as int, v);
                    lemma_combine_body_assoc(
                        b0,
                        v0,
                        Seq::empty(),
                        Some(v),
                        spec_parse_body(lv, j + 1),
                    );
                    assert(b0 + Seq::<u8>::empty() =~= b0);
                }
                j = j + 1;
            },
            VersionScan::NotVersion => {
                proof {
                    lemma_body_plain(lv, j as int);
                }
                crate::text::push_bytes(&mut body, l);
                crate::text::push_bytes(&mut body, "\n".as_bytes());
                proof {
                    assert(body@ =~= b0 + (lv[j as int] + "\n".spec_bytes()));
                    lemma_combine_body_assoc(
                        b0,
                        v0,
                        lv[j as int] + "\n".spec_bytes(),
                        None,
                        spec_parse_body(lv, j + 1),
                    );
                }
                j = j + 1;
            },
        }
    }
    proof {
        lemma_body_end(lv, n as int);
        assert(body@ + Seq::<u8>::empty() =~= body@);
        assert(spec_parse_body(lv, body_start as int) == Ok::<BodyScan, ParseError>(
            BodyScan { body: body@, version },
        ));
    }
    let glsl_version = match version {
        Some(v) => v,
        None => DEFAULT_GLSL_VERSION,
    };
    let sd = ShaderDefinition {
        samplers,
        uniforms,
        passes,
        glsl_source: body,
        glsl_version,
        glsl_input_layout: inputs,
    };
    proof {
        let rest = spec_parse_from(lv, body_start as int);
        if body_found {
            lemma_step_notdecl(lv, body_start as int);
            assert(rest == Ok::<ShaderModel, ParseError>(
                ShaderModel {
                    samplers: Seq::empty(),
                    uniforms: Seq::empty(),
                    passes: Seq::empty(),
                    glsl_source: body@,
                    glsl_version: glsl_version,
                    glsl_input_layout: Seq::empty(),
                },
            ));
        } else {
            lemma_from_end(lv, body_start as int);
            assert(rest == Ok::<ShaderModel, ParseError>(
                ShaderModel {
                    samplers: Seq::empty(),
                    uniforms: Seq::empty(),
                    passes: Seq::empty(),
                    glsl_source: Seq::<u8>::empty(),
                    glsl_version: DEFAULT_GLSL_VERSION,
                    glsl_input_layout: Seq::empty(),
                },
            ));
            assert(body@ =~= Seq::<u8>::empty());
        }
        assert(sampler_views(sd.samplers@) + Seq::<SamplerModel>::empty() =~= sampler_views(
            sd.samplers@,
        ));
        assert(uniform_views(sd.uniforms@) + Seq::<UniformModel>::empty() =~= uniform_views(
            sd.uniforms@,
        ));
        assert(pass_views(sd.passes@) + Seq::<Seq<u8>>::empty() =~= pass_views(sd.passes@));
        assert(sd.glsl_input_layout@ + Seq::<GLSLInput>::empty() =~= sd.glsl_input_layout@);
        assert(spec_parse_shader(src@) == Ok::<ShaderModel, ParseError>(sd@));
    }
    Ok(sd)
}

/// Prefixing nothing changes nothing.
proof fn lemma_combine_decls_empty(rest: Result<ShaderModel, ParseError>)
    ensures
        spec_combine_decls(
            Seq::<SamplerModel>::empty(),
            Seq::<UniformModel>::empty(),
            Seq::<Seq<u8>>::empty(),
            Seq::<GLSLInput>::empty(),
            rest,
        ) == rest,
{
    match rest {
        Ok(m) => {
            assert(Seq::<SamplerModel>::empty() + m.samplers =~= m.samplers);
            assert(Seq::<UniformModel>::empty() + m.uniforms =~= m.uniforms);
            assert(Seq::<Seq<u8>>::empty() + m.passes =~= m.passes);
            assert(Seq::<GLSLInput>::empty() + m.glsl_input_layout =~= m.glsl_input_layout);
        },
        Err(_) => {},
    }
}

/// Prefixing no body text and no version changes nothing.
proof fn lemma_combine_body_empty(rest: Result<BodyScan, ParseError>)
    ensures
        spec_combine_body(Seq::<u8>::empty(), None::<u32>, rest) == rest,
{
    match rest {
        Ok(bs) => {
            assert(Seq::<u8>::empty() + bs.body =~= bs.body);
        },
        Err(_) => {},
    }
}

} // verus!
