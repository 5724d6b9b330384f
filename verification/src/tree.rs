//! The accumulator a tree walk threads through the nodes in
//! parent-before-child order.

use vstd::prelude::*;

use crate::geom::DeviceIntRect;
use crate::geom::LayerRect;
use crate::geom::LayerVector2D;
use crate::transform::LayerTransform;
use crate::types::CoordinateSystemId;

verus! {

/// The single mutable state threaded through one pre-order walk of the
/// scene tree: each node reads its parent's exit state from it, and writes
/// its own exit state back for its children.
#[derive(Clone, Copy, PartialEq, Eq, Structural, Debug)]
pub struct TransformUpdateState {
    /// World transform of the nearest ancestor reference frame.
    pub parent_reference_frame_transform: LayerTransform,
    /// The parent's combined viewport, in the current reference frame space.
    pub parent_combined_viewport_rect: LayerRect,
    /// Scroll offset accumulated since the nearest ancestor reference frame.
    pub parent_accumulated_scroll_offset: LayerVector2D,
    /// The live scroll offset of the nearest scrolling ancestor, read by
    /// sticky descendants.
    pub nearest_scrolling_ancestor_offset: LayerVector2D,
    /// The local viewport of the nearest scrolling ancestor, read by sticky
    /// descendants.
    pub nearest_scrolling_ancestor_viewport: LayerRect,
    /// The running clip chain, a handle into the walk's chain arena.
    pub parent_clip_chain: Option<usize>,
    /// Device-space bounds of the intersection of the running clip chain.
    pub combined_outer_clip_bounds: DeviceIntRect,
    /// The coordinate system the walk is currently inside.
    pub current_coordinate_system_id: CoordinateSystemId,
    /// The next coordinate-system id the walk may allocate.
    pub next_coordinate_system_id: CoordinateSystemId,
}

impl TransformUpdateState {
    /// The allocation counter is ahead of the current id; the walk keeps
    /// this invariant from the root down.
    pub open spec fn coordinate_ids_well_formed(self) -> bool {
        self.current_coordinate_system_id.0 < self.next_coordinate_system_id.0
    }

    /// The state a walk starts from at the root of a tree whose viewport is
    /// `root_viewport`: identity transform, no scroll, no clip, the whole
    /// device as outer bounds, and the root coordinate system.
    pub fn new(root_viewport: LayerRect) -> (r: TransformUpdateState)
        ensures
            r == (TransformUpdateState {
                parent_reference_frame_transform: LayerTransform::identity_spec(),
                parent_combined_viewport_rect: root_viewport,
                parent_accumulated_scroll_offset: LayerVector2D { x: 0i64, y: 0i64 },
                nearest_scrolling_ancestor_offset: LayerVector2D { x: 0i64, y: 0i64 },
                nearest_scrolling_ancestor_viewport: root_viewport,
                parent_clip_chain: Option::<usize>::None,
                combined_outer_clip_bounds: LayerRect::max_rect_spec(),
                current_coordinate_system_id: CoordinateSystemId(0u64),
                next_coordinate_system_id: CoordinateSystemId(1u64),
            }),
            r.coordinate_ids_well_formed(),
    {
        TransformUpdateState {
            parent_reference_frame_transform: LayerTransform::identity(),
            parent_combined_viewport_rect: root_viewport,
            parent_accumulated_scroll_offset: LayerVector2D::zero(),
            nearest_scrolling_ancestor_offset: LayerVector2D::zero(),
            nearest_scrolling_ancestor_viewport: root_viewport,
            parent_clip_chain: None,
            combined_outer_clip_bounds: LayerRect::max_rect(),
            current_coordinate_system_id: CoordinateSystemId::root(),
            next_coordinate_system_id: CoordinateSystemId(1),
        }
    }
}

} // verus!
