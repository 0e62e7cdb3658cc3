//! Render pass markers: the light kinds a pass can be lit by and the pass
//! types the renderer dispatches on.

use vstd::prelude::*;

verus! {

/// The kind of light a lighting pass renders.
#[derive(Clone, Copy, PartialEq, Eq, Structural, Debug)]
pub enum Light {
    /// Direction encoded in the transform component.
    Directional,
    /// Position encoded in the transform component.
    Point,
    Spot,
}

/// Marker for the translucent geometry pass.
pub struct TranslucentPass;

/// Marker for the deferred shading pass.
pub struct DeferredPass;

/// A renderer for one feature of the scene.
pub trait FeatureRenderer {

}

} // verus!
