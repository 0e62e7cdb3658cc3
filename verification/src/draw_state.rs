//! Fixed-function draw state carried by every compiled pipeline: cull mode,
//! fill mode and depth behaviour. The GPU submission that applies it lives
//! outside the library.

use vstd::prelude::*;

verus! {

/// Which faces are culled before rasterisation.
#[derive(Clone, Copy, PartialEq, Eq, Structural, Debug)]
pub enum CullMode {
    NoCull,
    Front,
    Back,
    FrontAndBack,
}

/// How polygons are filled.
#[derive(Clone, Copy, PartialEq, Eq, Structural, Debug)]
pub enum PolygonFillMode {
    Fill,
    Wireframe,
}

/// The fixed draw state of one pipeline.
#[derive(Clone, Copy, PartialEq, Eq, Structural, Debug)]
pub struct DrawState {
    pub cull_mode: CullMode,
    pub polygon_fill_mode: PolygonFillMode,
    pub depth_clip_enable: bool,
    pub depth_test_enable: bool,
    pub depth_write_enable: bool,
}

/// The default draw state: no culling, filled polygons, depth fully enabled.
pub open spec fn spec_default_draw_state() -> DrawState {
    DrawState {
        cull_mode: CullMode::NoCull,
        polygon_fill_mode: PolygonFillMode::Fill,
        depth_clip_enable: true,
        depth_test_enable: true,
        depth_write_enable: true,
    }
}

impl DrawState {
    /// The default state.
    pub fn default() -> (r: DrawState)
        ensures
            r == spec_default_draw_state(),
    {
        DrawState {
            cull_mode: CullMode::NoCull,
            polygon_fill_mode: PolygonFillMode::Fill,
            depth_clip_enable: true,
            depth_test_enable: true,
            depth_write_enable: true,
        }
    }

    /// The default state, drawn in wireframe.
    pub fn default_wireframe() -> (r: DrawState)
        ensures
            r == (DrawState {
                polygon_fill_mode: PolygonFillMode::Wireframe,
                ..spec_default_draw_state()
            }),
    {
        let mut s = DrawState::default();
        s.polygon_fill_mode = PolygonFillMode::Wireframe;
        s
    }
}

} // verus!
