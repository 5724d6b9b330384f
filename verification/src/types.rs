//! Identifiers, input-event descriptions and sticky-positioning parameters
//! shared across the scene tree.

use vstd::prelude::*;

verus! {

/// Identifies the pipeline (document) a node belongs to.
#[derive(Clone, Copy, PartialEq, Eq, Structural, Debug)]
pub struct PipelineId(pub u32, pub u32);

/// A caller-assigned identifier of one node in the scene tree; node storage
/// is owned externally, so parent and child links are identifiers.
#[derive(Clone, Copy, PartialEq, Eq, Structural, Debug)]
pub struct ClipId(pub u64, pub PipelineId);

/// Identifies a maximal subtree whose nodes share an axis-aligned coordinate
/// system; allocated by a monotonic counter during the tree walk.
#[derive(Clone, Copy, PartialEq, Eq, Structural, Debug)]
pub struct CoordinateSystemId(pub u64);

impl CoordinateSystemId {
    pub fn root() -> (r: CoordinateSystemId)
        ensures
            r == CoordinateSystemId(0u64),
    {
        CoordinateSystemId(0)
    }

    pub fn next(&self) -> (r: CoordinateSystemId)
        requires
            self.0 < u64::MAX,
        ensures
            r.0 == self.0 + 1,
    {
        CoordinateSystemId(self.0 + 1)
    }
}

/// An opaque handle into the external clip-source store.
#[derive(Clone, Copy, PartialEq, Eq, Structural, Debug)]
pub struct ClipSourcesHandle(pub u64);

/// An index into the external packed-layer array used by clip-mask
/// rendering.
#[derive(Clone, Copy, PartialEq, Eq, Structural, Debug)]
pub struct PackedLayerIndex(pub usize);

/// Which events a scroll frame reacts to.
#[derive(Clone, Copy, PartialEq, Eq, Structural, Debug)]
pub enum ScrollSensitivity {
    ScriptAndInputEvents,
    Script,
}

/// How `set_scroll_origin` treats an origin outside the content bounds.
#[derive(Clone, Copy, PartialEq, Eq, Structural, Debug)]
pub enum ScrollClamping {
    ToContentBounds,
    NoClamping,
}

/// Where a scroll event places the offset.
#[derive(Clone, Copy, PartialEq, Eq, Structural, Debug)]
pub enum ScrollLocation {
    /// Scroll by a relative amount.
    Delta(crate::geom::LayerVector2D),
    /// Jump to the top of the content.
    Start,
    /// Jump to the bottom of the content.
    End,
}

/// The phase of the gesture a scroll event belongs to; the flag on `Move`
/// tells whether this move begins a new gesture.
#[derive(Clone, Copy, PartialEq, Eq, Structural, Debug)]
pub enum ScrollEventPhase {
    Start,
    Move(bool),
    End,
}

/// The allowed range of a sticky frame's offset on one axis.
#[derive(Clone, Copy, PartialEq, Eq, Structural, Debug)]
pub struct StickyOffsetBounds {
    pub min: i64,
    pub max: i64,
}

impl StickyOffsetBounds {
    pub fn new(min: i64, max: i64) -> (r: StickyOffsetBounds)
        ensures
            r == (StickyOffsetBounds { min, max }),
    {
        StickyOffsetBounds { min, max }
    }
}

/// The optional margins of a sticky frame, one per viewport edge; an unset
/// margin leaves that edge unconstrained.
#[derive(Clone, Copy, PartialEq, Eq, Structural, Debug)]
pub struct SideOffsets {
    pub top: Option<i64>,
    pub right: Option<i64>,
    pub bottom: Option<i64>,
    pub left: Option<i64>,
}

impl SideOffsets {
    pub fn new(top: Option<i64>, right: Option<i64>, bottom: Option<i64>, left: Option<i64>) -> (r:
        SideOffsets)
        ensures
            r == (SideOffsets { top, right, bottom, left }),
    {
        SideOffsets { top, right, bottom, left }
    }

    /// Whether no edge is constrained.
    pub open spec fn all_unset(self) -> bool {
        self.top is None && self.bottom is None && self.left is None && self.right is None
    }
}

} // verus!
