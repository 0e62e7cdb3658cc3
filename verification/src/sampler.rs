//! Texture sampler descriptions as they appear in shader declarations.
//! Building the GPU sampler object from a description happens outside the
//! library.

use vstd::prelude::*;

verus! {

/// How texture coordinates outside [0, 1] are treated.
#[derive(Clone, Copy, PartialEq, Eq, Structural, Debug)]
pub enum TextureAddressMode {
    Clamp,
    Mirror,
    Wrap,
}

/// Filtering used when a texture is minified.
#[derive(Clone, Copy, PartialEq, Eq, Structural, Debug)]
pub enum TextureMinFilter {
    Nearest,
    Linear,
}

/// Filtering used when a texture is magnified.
#[derive(Clone, Copy, PartialEq, Eq, Structural, Debug)]
pub enum TextureMagFilter {
    Nearest,
    Linear,
}

/// A complete 2D sampler description.
#[derive(Clone, Copy, PartialEq, Eq, Structural, Debug)]
pub struct Sampler2DDesc {
    pub addr_u: TextureAddressMode,
    pub addr_v: TextureAddressMode,
    pub min_filter: TextureMinFilter,
    pub mag_filter: TextureMagFilter,
}

/// The default sampler description: clamped addressing, nearest
/// minification, linear magnification.
pub open spec fn spec_default_sampler_desc() -> Sampler2DDesc {
    Sampler2DDesc {
        addr_u: TextureAddressMode::Clamp,
        addr_v: TextureAddressMode::Clamp,
        min_filter: TextureMinFilter::Nearest,
        mag_filter: TextureMagFilter::Linear,
    }
}

impl Sampler2DDesc {
    /// The default sampler description.
    pub fn default() -> (r: Sampler2DDesc)
        ensures
            r == spec_default_sampler_desc(),
    {
        Sampler2DDesc {
            addr_u: TextureAddressMode::Clamp,
            addr_v: TextureAddressMode::Clamp,
            min_filter: TextureMinFilter::Nearest,
            mag_filter: TextureMagFilter::Linear,
        }
    }
}

} // verus!
