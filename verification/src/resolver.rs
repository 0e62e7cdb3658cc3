//! The variant resolver: owns one shader template and its variant cache,
//! and maps (pass, keyword set) requests to compiled pipelines, compiling
//! at most once per distinct effective configuration.
//!
//! A request is answered from the single-entry fast slot of its priority
//! category when the stored configuration matches exactly, else from the
//! full map by exact bit-equality, else by compiling a new pipeline that is
//! inserted into both. Two configurations that differ bitwise never share a
//! pipeline; the fast slots are a latency shortcut only.

use vstd::prelude::*;
use std::collections::HashMap;
use std::rc::Rc;
use crate::compiler::{compile_pipeline_state, is_compiled_state, spec_layout_valid, PipelineState};
use crate::keywords::{classify, effective_config, spec_category, spec_effective, Category,
    KeywordSet};
use crate::shader::{PipelineStateDesc, ShaderDefinition};

verus! {

broadcast use vstd::std_specs::hash::group_hash_axioms;

/// Relies on `Rc::clone`: the returned handle shares the callee's
/// allocation, so it carries the same value.
#[verifier::external_body]
fn clone_rc(v: &Rc<PipelineState>) -> (r: Rc<PipelineState>)
    ensures
        r == *v,
{
    v.clone()
}

/// One shader template together with its variant cache: the full map from
/// effective configuration bits to the compiled pipeline, one fast slot per
/// priority category, and a counter of compilations performed.
pub struct PipelineResolver {
    /// Distinguishes this resolver (and the pipelines it compiled) from
    /// every resolver with a different identity.
    pub id: u64,
    /// The immutable shader template all variants are compiled from.
    pub shader: ShaderDefinition,
    /// The full variant cache, keyed by exact configuration bits.
    pub cache: HashMap<u64, Rc<PipelineState>>,
    /// Fast slot of the unlit/default category.
    pub forward_pass_unlit_prog: Option<Rc<PipelineState>>,
    /// Fast slot of the forward/point category.
    pub forward_pass_point_light_prog: Option<Rc<PipelineState>>,
    /// Fast slot of the forward/spot category.
    pub forward_pass_spot_light_prog: Option<Rc<PipelineState>>,
    /// Fast slot of the forward/directional category.
    pub forward_pass_directional_light_prog: Option<Rc<PipelineState>>,
    /// Fast slot of the shadow category.
    pub shadow_pass_prog: Option<Rc<PipelineState>>,
    /// How many pipelines this resolver has compiled; also the next
    /// pipeline sequence number.
    pub compile_count: usize,
}

impl PipelineResolver {
    /// The fast slot of a priority category.
    pub open spec fn slot_for(self, cat: Category) -> Option<Rc<PipelineState>> {
        match cat {
            Category::ForwardPoint => self.forward_pass_point_light_prog,
            Category::ForwardDirectional => self.forward_pass_directional_light_prog,
            Category::ForwardSpot => self.forward_pass_spot_light_prog,
            Category::Shadow => self.shadow_pass_prog,
            Category::Unlit => self.forward_pass_unlit_prog,
        }
    }

    /// A cache entry is stored under its own configuration bits, is stamped
    /// with this resolver's identity, and has a sequence number below the
    /// compile counter.
    pub open spec fn entry_ok(self, k: u64) -> bool {
        &&& self.cache@[k].config.bits == k
        &&& self.cache@[k].owner == self.id
        &&& self.cache@[k].id < self.compile_count
    }

    /// A fast slot, when filled, holds a pipeline of its own category that
    /// is also present in the full map under its configuration bits.
    pub open spec fn slot_ok(self, cat: Category) -> bool {
        match self.slot_for(cat) {
            Some(p) => {
                &&& spec_category(p.config.bits) == cat
                &&& self.cache@.contains_key(p.config.bits)
                &&& self.cache@[p.config.bits] == p
            },
            None => true,
        }
    }

    /// Well-formedness of the resolver: the shader's layout can be built,
    /// the compile counter equals the number of cached variants, every
    /// entry is consistent and sequence numbers are unique, and every fast
    /// slot agrees with the full map.
    pub open spec fn wf(self) -> bool {
        &&& spec_layout_valid(self.shader)
        &&& self.compile_count == self.cache@.dom().len()
        &&& forall|k: u64| #[trigger] self.cache@.contains_key(k) ==> self.entry_ok(k)
        &&& forall|k1: u64, k2: u64|
            #[trigger] self.cache@.contains_key(k1) && #[trigger] self.cache@.contains_key(k2)
                && k1 != k2 ==> self.cache@[k1].id != self.cache@[k2].id
        &&& forall|cat: Category| #[trigger] self.slot_ok(cat)
    }

    /// A fresh resolver for one shader: empty cache, empty fast slots,
    /// nothing compiled yet.
    pub fn new(id: u64, shader: ShaderDefinition) -> (r: PipelineResolver)
        requires
            spec_layout_valid(shader),
        ensures
            r.wf(),
            r.id == id,
            r.shader == shader,
            r.cache@ == Map::<u64, Rc<PipelineState>>::empty(),
            r.compile_count == 0,
            forall|cat: Category| #[trigger] r.slot_for(cat) is None,
    {
        let r = PipelineResolver {
            id,
            shader,
            cache: HashMap::new(),
            forward_pass_unlit_prog: None,
            forward_pass_point_light_prog: None,
            forward_pass_spot_light_prog: None,
            forward_pass_directional_light_prog: None,
            shadow_pass_prog: None,
            compile_count: 0,
        };
        proof {
            assert(r.cache@.dom() =~= Set::<u64>::empty());
        }
        r
    }

    /// Stores a pipeline in the fast slot of one category, leaving every
    /// other slot and all remaining state untouched.
    fn set_slot(&mut self, cat: Category, p: Rc<PipelineState>)
        ensures
            final(self).slot_for(cat) == Some(p),
            forall|c: Category| c != cat ==> final(self).slot_for(c) == old(self).slot_for(c),
            final(self).id == old(self).id,
            final(self).shader == old(self).shader,
            final(self).cache@ == old(self).cache@,
            final(self).compile_count == old(self).compile_count,
    {
        match cat {
            Category::ForwardPoint => {
                self.forward_pass_point_light_prog = Some(p);
            },
            Category::ForwardDirectional => {
                self.forward_pass_directional_light_prog = Some(p);
            },
            Category::ForwardSpot => {
                self.forward_pass_spot_light_prog = Some(p);
            },
            Category::Shadow => {
                self.shadow_pass_prog = Some(p);
            },
            Category::Unlit => {
                self.forward_pass_unlit_prog = Some(p);
            },
        }
    }

    /// How pre- and post-state of one `resolve` call relate: the returned
    /// pipeline answers exactly the effective configuration of the request,
    /// it is the cached one when one existed (the cache unchanged and
    /// nothing compiled), and otherwise it is freshly compiled from this
    /// resolver's shader and inserted, with the compile counter advanced by
    /// one.
    pub open spec fn resolve_rel(
        pre: PipelineResolver,
        query: PipelineStateDesc,
        post: PipelineResolver,
        r: Rc<PipelineState>,
    ) -> bool {
        let eff = spec_effective(query.keywords.bits, query.pass);
        &&& post.id == pre.id
        &&& post.shader == pre.shader
        &&& r.config.bits == eff
        &&& post.cache@.contains_key(eff)
        &&& post.cache@[eff] == r
        &&& if pre.cache@.contains_key(eff) {
            &&& r == pre.cache@[eff]
            &&& post.cache@ == pre.cache@
            &&& post.compile_count == pre.compile_count
        } else {
            &&& is_compiled_state(
                *r,
                pre.shader,
                eff,
                query,
                pre.id,
                pre.compile_count as int,
            )
            &&& post.cache@ == pre.cache@.insert(eff, r)
            &&& post.compile_count == pre.compile_count + 1
        }
    }

    /// Resolves a request to the compiled pipeline of its effective
    /// configuration: the requested keywords plus the pass flag. Checks the
    /// fast slot of the configuration's priority category, then the full
    /// map by exact bit-equality, and compiles only when both miss; the
    /// result is cached in both before it is returned.
    pub fn resolve(&mut self, query: &PipelineStateDesc) -> (r: Rc<PipelineState>)
        requires
            old(self).wf(),
        ensures
            final(self).wf(),
            Self::resolve_rel(*old(self), *query, *final(self), r),
            final(self).slot_for(
                spec_category(spec_effective(query.keywords.bits, query.pass)),
            ) == Some(r),
            forall|c: Category|
                c != spec_category(spec_effective(query.keywords.bits, query.pass))
                    ==> final(self).slot_for(c) == old(self).slot_for(c),
    {
        let config = effective_config(query.keywords, query.pass);
        let cat = classify(config);
        let ghost eff = spec_effective(query.keywords.bits, query.pass);

        // Step one: the single-entry fast slot of the category.
        let fast: &Option<Rc<PipelineState>> = match cat {
            Category::ForwardPoint => &self.forward_pass_point_light_prog,
            Category::ForwardDirectional => &self.forward_pass_directional_light_prog,
            Category::ForwardSpot => &self.forward_pass_spot_light_prog,
            Category::Shadow => &self.shadow_pass_prog,
            Category::Unlit => &self.forward_pass_unlit_prog,
        };
        proof {
            assert(*fast == self.slot_for(cat));
            assert(self.slot_ok(cat));
        }
        if let Some(p) = fast {
            if p.config.bits == config.bits {
                return clone_rc(p);
            }
        }

        // Step two: the full map, by exact bit-equality.
        let key = config.bits;
        let cached: Option<Rc<PipelineState>> = match self.cache.get(&key) {
            Some(p) => Some(clone_rc(p)),
            None => None,
        };
        if let Some(r) = cached {
            self.set_slot(cat, clone_rc(&r));
            proof {
                assert forall|c: Category| c != cat implies self.slot_ok(c) by {
                    assert(old(self).slot_ok(c));
                    assert(self.slot_for(c) == old(self).slot_for(c));
                }
                lemma_wf_after_slot_refresh(*self, cat, eff);
            }
            return r;
        }

        // Step three: compile the missing variant and cache it in both.
        let seq = self.compile_count;
        let compiled = compile_pipeline_state(&self.shader, config, query, self.id, seq);
        let r = Rc::new(compiled);
        self.cache.insert(key, clone_rc(&r));
        proof {
            assert(self.cache@.dom() =~= old(self).cache@.dom().insert(eff));
            vstd::set::axiom_set_insert_len(old(self).cache@.dom(), eff);
        }
        self.compile_count = self.cache.len();
        self.set_slot(cat, clone_rc(&r));
        proof {
            lemma_wf_after_insert(*old(self), *self, cat, eff, r);
        }
        r
    }
}

/// Refreshing a fast slot from a map hit preserves well-formedness.
proof fn lemma_wf_after_slot_refresh(s: PipelineResolver, cat: Category, eff: u64)
    requires
        spec_layout_valid(s.shader),
        s.compile_count == s.cache@.dom().len(),
        forall|k: u64| #[trigger] s.cache@.contains_key(k) ==> s.entry_ok(k),
        forall|k1: u64, k2: u64|
            #[trigger] s.cache@.contains_key(k1) && #[trigger] s.cache@.contains_key(k2) && k1
                != k2 ==> s.cache@[k1].id != s.cache@[k2].id,
        forall|c: Category| c != cat ==> #[trigger] s.slot_ok(c),
        s.cache@.contains_key(eff),
        spec_category(eff) == cat,
        s.slot_for(cat) == Some(s.cache@[eff]),
    ensures
        s.wf(),
{
    assert forall|c: Category| #[trigger] s.slot_ok(c) by {
        if c == cat {
            assert(s.cache@[eff].config.bits == eff);
        }
    }
}

/// Inserting a freshly compiled variant into map and fast slot preserves
/// well-formedness.
proof fn lemma_wf_after_insert(
    pre: PipelineResolver,
    post: PipelineResolver,
    cat: Category,
    eff: u64,
    r: Rc<PipelineState>,
)
    requires
        pre.wf(),
        !pre.cache@.contains_key(eff),
        r.config.bits == eff,
        r.owner == pre.id,
        r.id == pre.compile_count,
        spec_category(eff) == cat,
        post.id == pre.id,
        post.shader == pre.shader,
        post.cache@ == pre.cache@.insert(eff, r),
        post.compile_count == pre.compile_count + 1,
        post.slot_for(cat) == Some(r),
        forall|c: Category| c != cat ==> post.slot_for(c) == pre.slot_for(c),
    ensures
        post.wf(),
{
    assert(post.cache@.dom() =~= pre.cache@.dom().insert(eff));
    vstd::set::axiom_set_insert_len(pre.cache@.dom(), eff);
    assert forall|k: u64| #[trigger] post.cache@.contains_key(k) implies post.entry_ok(k) by {
        if k != eff {
            assert(pre.cache@.contains_key(k));
            assert(pre.entry_ok(k));
        }
    }
    assert forall|c: Category| #[trigger] post.slot_ok(c) by {
        if c != cat {
            assert(pre.slot_ok(c));
            if pre.slot_for(c) is Some {
                let p = pre.slot_for(c)->Some_0;
                assert(pre.cache@.contains_key(p.config.bits));
                assert(p.config.bits != eff);
            }
        }
    }
}

/// Resolving the same request twice yields the identical pipeline: the
/// first call compiles it if it was missing, the second answers from the
/// cache and compiles nothing.
pub proof fn lemma_resolve_same_twice(
    s0: PipelineResolver,
    q: PipelineStateDesc,
    s1: PipelineResolver,
    r1: Rc<PipelineState>,
    s2: PipelineResolver,
    r2: Rc<PipelineState>,
)
    requires
        PipelineResolver::resolve_rel(s0, q, s1, r1),
        PipelineResolver::resolve_rel(s1, q, s2, r2),
    ensures
        r2 == r1,
        s2.compile_count == s1.compile_count,
        s2.cache@ == s1.cache@,
        !s0.cache@.contains_key(spec_effective(q.keywords.bits, q.pass)) ==> s1.compile_count
            == s0.compile_count + 1,
{
}

/// A resolution never evicts or replaces a cache entry: once compiled, the
/// pipeline of a configuration is the one that every subsequent request for
/// that configuration receives, whatever is resolved in between.
pub proof fn lemma_cache_entries_persist(
    pre: PipelineResolver,
    q: PipelineStateDesc,
    post: PipelineResolver,
    r: Rc<PipelineState>,
    k: u64,
)
    requires
        PipelineResolver::resolve_rel(pre, q, post, r),
        pre.cache@.contains_key(k),
    ensures
        post.cache@.contains_key(k),
        post.cache@[k] == pre.cache@[k],
{
}

/// Two resolutions of distinct effective configurations on one resolver
/// return two distinct compiled pipelines, whatever the cache held before.
pub proof fn lemma_distinct_configs_distinct_pipelines(
    s0: PipelineResolver,
    q1: PipelineStateDesc,
    s1: PipelineResolver,
    r1: Rc<PipelineState>,
    q2: PipelineStateDesc,
    s2: PipelineResolver,
    r2: Rc<PipelineState>,
)
    requires
        s2.wf(),
        PipelineResolver::resolve_rel(s0, q1, s1, r1),
        PipelineResolver::resolve_rel(s1, q2, s2, r2),
        spec_effective(q1.keywords.bits, q1.pass) != spec_effective(q2.keywords.bits, q2.pass),
    ensures
        r1.id != r2.id,
        r1.config.bits != r2.config.bits,
{
    let eff1 = spec_effective(q1.keywords.bits, q1.pass);
    let eff2 = spec_effective(q2.keywords.bits, q2.pass);
    assert(s2.cache@.contains_key(eff1));
    assert(s2.cache@[eff1] == r1);
    assert(s2.cache@.contains_key(eff2));
}

/// Two keyword sets landing in different priority categories always yield
/// two distinct compiled pipelines, even on the same shader.
pub proof fn lemma_distinct_categories_distinct_pipelines(
    s0: PipelineResolver,
    q1: PipelineStateDesc,
    s1: PipelineResolver,
    r1: Rc<PipelineState>,
    q2: PipelineStateDesc,
    s2: PipelineResolver,
    r2: Rc<PipelineState>,
)
    requires
        s2.wf(),
        PipelineResolver::resolve_rel(s0, q1, s1, r1),
        PipelineResolver::resolve_rel(s1, q2, s2, r2),
        spec_category(spec_effective(q1.keywords.bits, q1.pass)) != spec_category(
            spec_effective(q2.keywords.bits, q2.pass),
        ),
    ensures
        r1.id != r2.id,
        r1.config.bits != r2.config.bits,
{
    lemma_distinct_configs_distinct_pipelines(s0, q1, s1, r1, q2, s2, r2);
}

/// Resolving one configuration after another of the same category never
/// returns the earlier configuration's cached pipeline: exact bit-equality
/// governs cache hits, never category membership alone.
pub proof fn lemma_same_category_never_shares(
    s0: PipelineResolver,
    q1: PipelineStateDesc,
    s1: PipelineResolver,
    r1: Rc<PipelineState>,
    q2: PipelineStateDesc,
    s2: PipelineResolver,
    r2: Rc<PipelineState>,
)
    requires
        s2.wf(),
        PipelineResolver::resolve_rel(s0, q1, s1, r1),
        PipelineResolver::resolve_rel(s1, q2, s2, r2),
        spec_category(spec_effective(q1.keywords.bits, q1.pass)) == spec_category(
            spec_effective(q2.keywords.bits, q2.pass),
        ),
        spec_effective(q1.keywords.bits, q1.pass) != spec_effective(q2.keywords.bits, q2.pass),
    ensures
        r1.id != r2.id,
        r1.config.bits != r2.config.bits,
{
    lemma_distinct_configs_distinct_pipelines(s0, q1, s1, r1, q2, s2, r2);
}

/// The sequence resolve(A), resolve(B), resolve(A), where A and B share a
/// priority category but differ bitwise: the third call returns the exact
/// pipeline of the first call, through the full map, and compiles nothing.
pub proof fn lemma_fast_slot_fallback(
    s0: PipelineResolver,
    qa: PipelineStateDesc,
    s1: PipelineResolver,
    ra: Rc<PipelineState>,
    qb: PipelineStateDesc,
    s2: PipelineResolver,
    rb: Rc<PipelineState>,
    s3: PipelineResolver,
    ra2: Rc<PipelineState>,
)
    requires
        PipelineResolver::resolve_rel(s0, qa, s1, ra),
        PipelineResolver::resolve_rel(s1, qb, s2, rb),
        PipelineResolver::resolve_rel(s2, qa, s3, ra2),
        spec_category(spec_effective(qa.keywords.bits, qa.pass)) == spec_category(
            spec_effective(qb.keywords.bits, qb.pass),
        ),
        spec_effective(qa.keywords.bits, qa.pass) != spec_effective(qb.keywords.bits, qb.pass),
    ensures
        ra2 == ra,
        s3.compile_count == s2.compile_count,
{
    let effa = spec_effective(qa.keywords.bits, qa.pass);
    assert(s2.cache@.contains_key(effa));
    assert(s2.cache@[effa] == ra);
}

/// Pipelines resolved by resolvers with distinct identities are never the
/// same object: per-shader caches are never shared across shaders.
pub proof fn lemma_caches_not_shared(
    a0: PipelineResolver,
    qa: PipelineStateDesc,
    a1: PipelineResolver,
    ra: Rc<PipelineState>,
    b0: PipelineResolver,
    qb: PipelineStateDesc,
    b1: PipelineResolver,
    rb: Rc<PipelineState>,
)
    requires
        a1.wf(),
        b1.wf(),
        a0.id != b0.id,
        PipelineResolver::resolve_rel(a0, qa, a1, ra),
        PipelineResolver::resolve_rel(b0, qb, b1, rb),
    ensures
        ra.owner != rb.owner,
{
    let effa = spec_effective(qa.keywords.bits, qa.pass);
    let effb = spec_effective(qb.keywords.bits, qb.pass);
    assert(a1.cache@.contains_key(effa));
    assert(a1.entry_ok(effa));
    assert(b1.cache@.contains_key(effb));
    assert(b1.entry_ok(effb));
}

} // verus!
