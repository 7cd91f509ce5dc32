//! Boundary policies for the particle world.
//!
//! Four policies decide what happens to a particle that leaves the world.
//! Three of them wrap the position around toroidally and differ only in how
//! the renderer draws copies; `Repel` bounces instead.  The force evaluators
//! must use the shortest wrapped displacement exactly when the policy wraps,
//! which is what [`BoundaryMode::uses_wrap`] reports.  The floating-point
//! position clamping itself is carried out by the application shell.

use vstd::prelude::*;

verus! {

/// Defines how particles interact with world boundaries.
#[derive(Debug, Clone, Copy, PartialEq, Eq, Structural)]
pub enum BoundaryMode {
    /// Particles are repelled from walls, bouncing back.
    Repel,
    /// Particles wrap around to the opposite side.
    Wrap,
    /// Particles wrap with mirrored rendering effect.
    MirrorWrap,
    /// Infinite tiling - particles rendered multiple times.
    InfiniteWrap,
}

impl Default for BoundaryMode {
    fn default() -> (r: Self)
        ensures
            r == BoundaryMode::Repel,
    {
        BoundaryMode::Repel
    }
}

impl BoundaryMode {
    /// The display name of this mode.
    pub open spec fn spec_display_name(self) -> Seq<char> {
        match self {
            BoundaryMode::Repel => "Repel (Bounce)"@,
            BoundaryMode::Wrap => "Wrap Around"@,
            BoundaryMode::MirrorWrap => "Mirror Wrap"@,
            BoundaryMode::InfiniteWrap => "Infinite Tiling"@,
        }
    }

    /// Whether positions and force deltas wrap around the world under this
    /// mode.  Every force evaluator must pass exactly this flag to the
    /// wrapped-delta computation.
    pub open spec fn spec_uses_wrap(self) -> bool {
        match self {
            BoundaryMode::Repel => false,
            BoundaryMode::Wrap => true,
            BoundaryMode::MirrorWrap => true,
            BoundaryMode::InfiniteWrap => true,
        }
    }

    /// Get all available boundary modes.
    pub fn all() -> (r: Vec<BoundaryMode>)
        ensures
            r@ == seq![
                BoundaryMode::Repel,
                BoundaryMode::Wrap,
                BoundaryMode::MirrorWrap,
                BoundaryMode::InfiniteWrap,
            ],
    {
        let r = vec![
            BoundaryMode::Repel,
            BoundaryMode::Wrap,
            BoundaryMode::MirrorWrap,
            BoundaryMode::InfiniteWrap,
        ];
        assert(r@ =~= seq![
            BoundaryMode::Repel,
            BoundaryMode::Wrap,
            BoundaryMode::MirrorWrap,
            BoundaryMode::InfiniteWrap,
        ]);
        r
    }

    /// Get the display name for this mode.
    pub fn display_name(&self) -> (r: &'static str)
        ensures
            r@ == self.spec_display_name(),
    {
        match self {
            BoundaryMode::Repel => "Repel (Bounce)",
            BoundaryMode::Wrap => "Wrap Around",
            BoundaryMode::MirrorWrap => "Mirror Wrap",
            BoundaryMode::InfiniteWrap => "Infinite Tiling",
        }
    }

    /// Whether this mode wraps positions around the world.
    pub fn uses_wrap(&self) -> (r: bool)
        ensures
            r == self.spec_uses_wrap(),
    {
        match self {
            BoundaryMode::Repel => false,
            BoundaryMode::Wrap | BoundaryMode::MirrorWrap | BoundaryMode::InfiniteWrap => true,
        }
    }
}

} // verus!
