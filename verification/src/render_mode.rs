//! How a particle's quad is oriented for rendering.

use vstd::prelude::*;

verus! {

/// How a billboard faces the world.
#[derive(Clone, Copy, Debug, PartialEq, Eq, Structural)]
pub enum BillBoardAlignment {
    /// Face the camera plane.
    View,
    /// Align with the world axes.
    World,
    /// Align with the owning entity's transform.
    Local,
    /// Face the camera's position.
    Facing,
    /// Face the travel direction (or the emitted direction at rest).
    Direction,
}

/// How the particle image is rendered.
#[derive(Clone, Copy, Debug, PartialEq, Eq, Structural)]
pub enum ParticleRenderMode {
    /// A billboard with the given alignment.
    BillBoard {
        /// Billboard alignment.
        alignment: BillBoardAlignment,
    },
    /// Upright on the world Y axis, turning to face the camera.
    VerticalBillboard,
    /// Parallel to the XZ "floor" plane.
    HorizontalBillBoard,
}

impl ParticleRenderMode {
    /// The vertical billboard mode.
    pub fn vertical() -> (r: ParticleRenderMode)
        ensures
            r == ParticleRenderMode::VerticalBillboard,
    {
        ParticleRenderMode::VerticalBillboard
    }

    /// The horizontal billboard mode.
    pub fn horizontal() -> (r: ParticleRenderMode)
        ensures
            r == ParticleRenderMode::HorizontalBillBoard,
    {
        ParticleRenderMode::HorizontalBillBoard
    }

    /// A billboard with the given alignment.
    pub fn billboard(alignment: BillBoardAlignment) -> (r: ParticleRenderMode)
        ensures
            r == (ParticleRenderMode::BillBoard { alignment }),
    {
        ParticleRenderMode::BillBoard { alignment }
    }
}

impl Default for BillBoardAlignment {
    /// Face the camera plane.
    fn default() -> (a: BillBoardAlignment)
        ensures
            a == BillBoardAlignment::View,
    {
        BillBoardAlignment::View
    }
}

impl Default for ParticleRenderMode {
    /// A view-aligned billboard.
    fn default() -> (r: ParticleRenderMode)
        ensures
            r == (ParticleRenderMode::BillBoard { alignment: BillBoardAlignment::View }),
    {
        ParticleRenderMode::BillBoard { alignment: BillBoardAlignment::View }
    }
}

} // verus!
