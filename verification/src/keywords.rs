//! Shader feature keywords: a closed set of named bit flags, the render
//! passes that force one flag each, and the fixed priority categories used
//! by the variant resolver's fast slots.

use vstd::prelude::*;

verus! {

/// Keyword flag: the variant is lit by a point light.
pub const POINT_LIGHT: u64 = 0x01;

/// Keyword flag: the variant is lit by a directional light.
pub const DIRECTIONAL_LIGHT: u64 = 0x02;

/// Keyword flag: the variant is lit by a spot light.
pub const SPOT_LIGHT: u64 = 0x04;

/// Keyword flag: the variant belongs to an additive forward pass.
pub const FORWARD_ADD: u64 = 0x08;

/// Keyword flag: the variant uses the simple shadow path.
pub const SHADOWS_SIMPLE: u64 = 0x10;

/// Keyword flag: the variant belongs to the deferred pass.
pub const DEFERRED: u64 = 0x20;

/// Keyword flag: the variant belongs to the shadow pass.
pub const SHADOW: u64 = 0x40;

/// Keyword flag: the variant belongs to the base forward pass.
pub const FORWARD_BASE: u64 = 0x80;

/// An immutable bit-set over the keyword flags above. Equality is exact
/// bitwise equality; union and containment are the only combinators.
#[derive(Clone, Copy, PartialEq, Eq, Structural, Debug)]
pub struct KeywordSet {
    pub bits: u64,
}

impl KeywordSet {
    /// The empty keyword set.
    pub fn empty() -> (r: KeywordSet)
        ensures
            r.bits == 0,
    {
        KeywordSet { bits: 0 }
    }

    /// The set holding exactly the flags of the given bit pattern.
    pub fn from_bits(bits: u64) -> (r: KeywordSet)
        ensures
            r.bits == bits,
    {
        KeywordSet { bits }
    }

    /// The raw bit pattern of the set.
    pub fn bits(&self) -> (r: u64)
        ensures
            r == self.bits,
    {
        self.bits
    }

    /// Bitwise union of two keyword sets.
    pub fn union(self, other: KeywordSet) -> (r: KeywordSet)
        ensures
            r.bits == self.bits | other.bits,
    {
        KeywordSet { bits: self.bits | other.bits }
    }

    /// Whether every flag of `other` is also set in `self`.
    pub fn contains(self, other: KeywordSet) -> (r: bool)
        ensures
            r == (self.bits & other.bits == other.bits),
    {
        self.bits & other.bits == other.bits
    }
}

/// The closed enumeration of standard render passes.
#[derive(Clone, Copy, PartialEq, Eq, Structural, Debug)]
pub enum StdPass {
    ForwardBase,
    ForwardAdd,
    Deferred,
    Shadow,
}

/// The one keyword flag that each pass forces into the requested set.
pub open spec fn spec_pass_flag(pass: StdPass) -> u64 {
    match pass {
        StdPass::ForwardBase => FORWARD_BASE,
        StdPass::ForwardAdd => FORWARD_ADD,
        StdPass::Deferred => DEFERRED,
        StdPass::Shadow => SHADOW,
    }
}

/// Returns the keyword flag for a pass; a fixed 1:1 mapping.
pub fn pass_flag(pass: StdPass) -> (r: u64)
    ensures
        r == spec_pass_flag(pass),
{
    match pass {
        StdPass::ForwardBase => FORWARD_BASE,
        StdPass::ForwardAdd => FORWARD_ADD,
        StdPass::Deferred => DEFERRED,
        StdPass::Shadow => SHADOW,
    }
}

/// The effective configuration of a request: the requested keywords plus
/// the flag of the pass being rendered.
pub open spec fn spec_effective(requested: u64, pass: StdPass) -> u64 {
    requested | spec_pass_flag(pass)
}

/// Computes the effective configuration for a request.
pub fn effective_config(requested: KeywordSet, pass: StdPass) -> (r: KeywordSet)
    ensures
        r.bits == spec_effective(requested.bits, pass),
{
    KeywordSet { bits: requested.bits | pass_flag(pass) }
}

/// The five priority categories. Every effective configuration falls in
/// exactly one, tested in this fixed order (first match wins); each has a
/// single-entry fast slot in the variant cache.
#[derive(Clone, Copy, PartialEq, Eq, Structural, Debug)]
pub enum Category {
    ForwardPoint,
    ForwardDirectional,
    ForwardSpot,
    Shadow,
    Unlit,
}

/// Classifies a configuration into its priority category. The order of the
/// tests is load-bearing: point beats directional beats spot beats shadow
/// beats unlit when several flags are set at once.
pub open spec fn spec_category(bits: u64) -> Category {
    if bits & (FORWARD_BASE | POINT_LIGHT) == FORWARD_BASE | POINT_LIGHT {
        Category::ForwardPoint
    } else if bits & (FORWARD_BASE | DIRECTIONAL_LIGHT) == FORWARD_BASE | DIRECTIONAL_LIGHT {
        Category::ForwardDirectional
    } else if bits & (FORWARD_BASE | SPOT_LIGHT) == FORWARD_BASE | SPOT_LIGHT {
        Category::ForwardSpot
    } else if bits & SHADOW == SHADOW {
        Category::Shadow
    } else {
        Category::Unlit
    }
}

/// Returns the priority category of a configuration.
pub fn classify(config: KeywordSet) -> (c: Category)
    ensures
        c == spec_category(config.bits),
{
    let bits = config.bits;
    if bits & (FORWARD_BASE | POINT_LIGHT) == FORWARD_BASE | POINT_LIGHT {
        Category::ForwardPoint
    } else if bits & (FORWARD_BASE | DIRECTIONAL_LIGHT) == FORWARD_BASE | DIRECTIONAL_LIGHT {
        Category::ForwardDirectional
    } else if bits & (FORWARD_BASE | SPOT_LIGHT) == FORWARD_BASE | SPOT_LIGHT {
        Category::ForwardSpot
    } else if bits & SHADOW == SHADOW {
        Category::Shadow
    } else {
        Category::Unlit
    }
}

} // verus!
