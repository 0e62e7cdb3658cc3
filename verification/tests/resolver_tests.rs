use std::rc::Rc;

use render_resources::draw_state::DrawState;
use render_resources::keywords::{
    Category, KeywordSet, StdPass, DIRECTIONAL_LIGHT, FORWARD_BASE, POINT_LIGHT, SHADOW,
    SPOT_LIGHT,
};
use render_resources::keywords::{classify, effective_config};
use render_resources::parser::parse_shader_source;
use render_resources::resolver::PipelineResolver;
use render_resources::shader::{PipelineStateDesc, ShaderDefinition};

fn test_shader(extra_uniform: bool) -> ShaderDefinition {
    let mut text = String::new();
    text.push_str("uniform u_color: float3\n");
    if extra_uniform {
        text.push_str("uniform u_strength: float\n");
    }
    text.push_str("input float3 0\n");
    text.push_str("#version 450\n");
    text.push_str("void main() {}\n");
    parse_shader_source(text.as_bytes()).expect("shader text parses")
}

fn query(keywords: u64, pass: StdPass) -> PipelineStateDesc {
    PipelineStateDesc {
        keywords: KeywordSet::from_bits(keywords),
        pass,
        default_draw_state: DrawState::default(),
        sampler_block_base: 0,
        uniform_block_base: 2,
    }
}

#[test]
fn resolve_twice_returns_identical_pipeline_and_compiles_once() {
    let mut resolver = PipelineResolver::new(1, test_shader(false));
    let q = query(POINT_LIGHT, StdPass::ForwardBase);
    let first = resolver.resolve(&q);
    assert_eq!(resolver.compile_count, 1);
    let second = resolver.resolve(&q);
    assert_eq!(resolver.compile_count, 1);
    assert!(Rc::ptr_eq(&first, &second));
}

#[test]
fn distinct_categories_yield_distinct_pipelines() {
    let mut resolver = PipelineResolver::new(1, test_shader(false));
    let a = resolver.resolve(&query(POINT_LIGHT, StdPass::ForwardBase));
    let b = resolver.resolve(&query(DIRECTIONAL_LIGHT, StdPass::ForwardBase));
    assert!(!Rc::ptr_eq(&a, &b));
    assert_ne!(a.id, b.id);
    assert_eq!(resolver.compile_count, 2);
}

#[test]
fn full_map_fallback_returns_first_object_with_no_extra_compiles() {
    // A and B land in the same priority category but differ bitwise.
    let mut resolver = PipelineResolver::new(1, test_shader(false));
    let qa = query(POINT_LIGHT, StdPass::ForwardBase);
    let qb = query(POINT_LIGHT | SHADOW, StdPass::ForwardBase);
    let ea = effective_config(qa.keywords, qa.pass);
    let eb = effective_config(qb.keywords, qb.pass);
    assert_ne!(ea.bits(), eb.bits());
    assert_eq!(classify(ea), classify(eb));

    let a1 = resolver.resolve(&qa);
    let b = resolver.resolve(&qb);
    assert_eq!(resolver.compile_count, 2);
    let a2 = resolver.resolve(&qa);
    assert_eq!(resolver.compile_count, 2);
    assert!(Rc::ptr_eq(&a1, &a2));
    assert!(!Rc::ptr_eq(&a1, &b));
}

#[test]
fn same_category_never_shares_cached_pipelines() {
    let mut resolver = PipelineResolver::new(1, test_shader(false));
    let q1 = query(POINT_LIGHT, StdPass::ForwardBase);
    let q2 = query(POINT_LIGHT | DIRECTIONAL_LIGHT, StdPass::ForwardBase);
    let e1 = effective_config(q1.keywords, q1.pass);
    let e2 = effective_config(q2.keywords, q2.pass);
    assert_eq!(classify(e1), Category::ForwardPoint);
    assert_eq!(classify(e2), Category::ForwardPoint);
    assert_ne!(e1.bits(), e2.bits());

    let r1 = resolver.resolve(&q1);
    let r2 = resolver.resolve(&q2);
    assert!(!Rc::ptr_eq(&r1, &r2));
    assert_ne!(r1.config.bits, r2.config.bits);
}

#[test]
fn caches_are_never_shared_across_shader_definitions() {
    // Same keywords on two distinct shader definitions with different
    // declared uniforms: the pipelines are unrelated.
    let mut resolver_a = PipelineResolver::new(1, test_shader(false));
    let mut resolver_b = PipelineResolver::new(2, test_shader(true));
    let q = query(POINT_LIGHT, StdPass::ForwardBase);
    let eff = effective_config(q.keywords, q.pass);
    assert_eq!(classify(eff), Category::ForwardPoint);
    let a = resolver_a.resolve(&q);
    let b = resolver_b.resolve(&q);
    assert!(!Rc::ptr_eq(&a, &b));
    assert_ne!(a.owner, b.owner);
    assert_ne!(a.program.vertex, b.program.vertex);
}

#[test]
fn category_priority_order_is_fixed() {
    // Point beats directional beats spot beats shadow beats unlit.
    let fb = |bits: u64| classify(KeywordSet::from_bits(FORWARD_BASE | bits));
    assert_eq!(fb(POINT_LIGHT | DIRECTIONAL_LIGHT | SPOT_LIGHT), Category::ForwardPoint);
    assert_eq!(fb(DIRECTIONAL_LIGHT | SPOT_LIGHT), Category::ForwardDirectional);
    assert_eq!(fb(SPOT_LIGHT), Category::ForwardSpot);
    assert_eq!(classify(KeywordSet::from_bits(SHADOW | POINT_LIGHT)), Category::Shadow);
    assert_eq!(classify(KeywordSet::from_bits(POINT_LIGHT)), Category::Unlit);
    assert_eq!(classify(KeywordSet::empty()), Category::Unlit);
}

#[test]
fn pass_flag_is_added_to_the_requested_keywords() {
    let eff = effective_config(KeywordSet::from_bits(POINT_LIGHT), StdPass::ForwardBase);
    assert_eq!(eff.bits(), FORWARD_BASE | POINT_LIGHT);
    let shadow = effective_config(KeywordSet::empty(), StdPass::Shadow);
    assert_eq!(shadow.bits(), SHADOW);
}

#[test]
fn keyword_set_union_and_containment() {
    let a = KeywordSet::from_bits(POINT_LIGHT);
    let b = KeywordSet::from_bits(FORWARD_BASE);
    let u = a.union(b);
    assert_eq!(u.bits(), POINT_LIGHT | FORWARD_BASE);
    assert!(u.contains(a));
    assert!(u.contains(b));
    assert!(!a.contains(b));
    assert_eq!(u, KeywordSet::from_bits(FORWARD_BASE | POINT_LIGHT));
}
