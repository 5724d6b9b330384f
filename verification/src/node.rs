//! The scene-tree node: its four type variants, the per-frame transform and
//! clip-chain updates, and the input-driven scroll and sticky mutations.

use vstd::prelude::*;

use crate::clip_chain::arena_well_formed;
use crate::clip_chain::chain_seq;
use crate::clip_chain::valid_chain;
use crate::clip_chain::ClipChainArena;
use crate::clip_chain::ClipChainNode;
use crate::clip_chain::ClipWorkItem;
use crate::geom::imax;
use crate::geom::imin;
use crate::geom::max64;
use crate::geom::min64;
use crate::geom::rect_subset;
use crate::geom::sadd;
use crate::geom::sat_add64;
use crate::geom::sat_neg64;
use crate::geom::sat_sub64;
use crate::geom::ssub;
use crate::geom::trunc_div_mag64;
use crate::geom::DeviceIntRect;
use crate::geom::LayerPoint;
use crate::geom::LayerRect;
use crate::geom::LayerSize;
use crate::geom::LayerVector2D;
use crate::geom::WorldPoint;
use crate::scrolling::overscroll_spec;
use crate::scrolling::scroll_step;
use crate::scrolling::set_origin_step;
use crate::scrolling::ScrollingState;
use crate::scrolling::SpringCoords;
use crate::transform::compose_spec;
use crate::transform::LayerTransform;
use crate::tree::TransformUpdateState;
use crate::types::ClipId;
use crate::types::ClipSourcesHandle;
use crate::types::CoordinateSystemId;
use crate::types::PackedLayerIndex;
use crate::types::PipelineId;
use crate::types::ScrollClamping;
use crate::types::ScrollEventPhase;
use crate::types::ScrollLocation;
use crate::types::ScrollSensitivity;
use crate::types::SideOffsets;
use crate::types::StickyOffsetBounds;

verus! {

/// What a clip node needs to produce its mask: a handle to its clip sources
/// in the external clip store, the packed-layer slot its mask renders
/// through, and whether the sources mask anything at all.
#[derive(Clone, Copy, PartialEq, Eq, Structural, Debug)]
pub struct ClipInfo {
    /// The clips for this node, registered with the external clip store.
    pub clip_sources: ClipSourcesHandle,
    /// The packed-layer index used to render a clip mask for this node, if
    /// necessary.
    pub packed_layer_index: PackedLayerIndex,
    /// Whether this clip node automatically creates a mask; the external
    /// clip store derives it from the registered clip sources.
    pub is_masking: bool,
}

impl ClipInfo {
    /// Builds the clip payload around a clip-source registration: the store
    /// that registered the sources reports the handle and whether they mask.
    pub fn new(
        clip_sources: ClipSourcesHandle,
        packed_layer_index: PackedLayerIndex,
        is_masking: bool,
    ) -> (r: ClipInfo)
        ensures
            r == (ClipInfo { clip_sources, packed_layer_index, is_masking }),
    {
        ClipInfo { clip_sources, packed_layer_index, is_masking }
    }
}

/// The sticky-positioning parameters of a sticky frame, and the offset its
/// last transform update solved for.
#[derive(Clone, Copy, PartialEq, Eq, Structural, Debug)]
pub struct StickyFrameInfo {
    pub margins: SideOffsets,
    pub vertical_offset_bounds: StickyOffsetBounds,
    pub horizontal_offset_bounds: StickyOffsetBounds,
    pub current_offset: LayerVector2D,
}

impl StickyFrameInfo {
    pub fn new(
        margins: SideOffsets,
        vertical_offset_bounds: StickyOffsetBounds,
        horizontal_offset_bounds: StickyOffsetBounds,
    ) -> (r: StickyFrameInfo)
        ensures
            r == (StickyFrameInfo {
                margins,
                vertical_offset_bounds,
                horizontal_offset_bounds,
                current_offset: LayerVector2D { x: 0i64, y: 0i64 },
            }),
    {
        StickyFrameInfo {
            margins,
            vertical_offset_bounds,
            horizontal_offset_bounds,
            current_offset: LayerVector2D::zero(),
        }
    }
}

/// The transform a reference frame establishes, and where the frame sits in
/// its parent reference frame.
#[derive(Clone, Copy, PartialEq, Eq, Structural, Debug)]
pub struct ReferenceFrameInfo {
    /// The transformation establishing this reference frame, relative to the
    /// parent reference frame; the frame's origin is rolled into it.
    pub transform: LayerTransform,
    /// The frame's origin relative to the parent reference frame, kept apart
    /// from the transform so sticky descendants can track the viewport.
    pub origin_in_parent_reference_frame: LayerVector2D,
}

/// Which of the four node kinds a node is, with its kind-specific payload;
/// fixed at construction.
#[derive(Clone, Copy, Debug)]
pub enum NodeType {
    /// Establishes a new coordinate space in the tree.
    ReferenceFrame(ReferenceFrameInfo),
    /// Only clips, with no transformation.
    Clip(ClipInfo),
    /// Offsets its content by a scroll offset without introducing a new
    /// coordinate space.
    ScrollFrame(ScrollingState),
    /// Adjusts its position to honour viewport margins as its scrolling
    /// ancestor moves.
    StickyFrame(StickyFrameInfo),
}

/// One node of the scene tree.
#[derive(Debug)]
pub struct ClipScrollNode {
    /// Viewing rectangle in the coordinate system of the parent reference
    /// frame.
    pub local_viewport_rect: LayerRect,
    /// Clip rect of this node: the viewport rect unless overridden.
    pub local_clip_rect: LayerRect,
    /// The viewport clipped against every ancestor clip on the way to the
    /// root, in this node's own coordinate system; conservative across
    /// reference-frame boundaries.
    pub combined_local_viewport_rect: LayerRect,
    /// World transform of the viewport rect: the parent reference frame's
    /// transform plus the scroll offsets accumulated below it.
    pub world_viewport_transform: LayerTransform,
    /// World transform of the content inside this node: the viewport
    /// transform plus this node's own scroll offset.
    pub world_content_transform: LayerTransform,
    /// Scroll offset of all the nodes between this one and its nearest
    /// ancestor reference frame.
    pub reference_frame_relative_scroll_offset: LayerVector2D,
    /// The pipeline this node belongs to.
    pub pipeline_id: PipelineId,
    /// The parent node, or `None` at the root.
    pub parent: Option<ClipId>,
    /// The child nodes.
    pub children: Vec<ClipId>,
    /// Which kind of node this is, with its payload.
    pub node_type: NodeType,
    /// The chain of clips that mask content parented to this node, a handle
    /// into the walk's chain arena.
    pub clip_chain_node: Option<usize>,
    /// The intersected device-space outer bounds of the clips for this node.
    pub combined_clip_outer_bounds: DeviceIntRect,
    /// The axis-aligned coordinate system this node belongs to.
    pub coordinate_system_id: CoordinateSystemId,
}

/// The sticky offset a sticky frame solves for: on each axis the minimal
/// move that brings the scrolled frame back flush with a configured viewport
/// margin, the start-side margin winning over the end side, the result
/// clamped into the frame's offset bounds. Zero when no margin is set.
pub open spec fn sticky_offset_spec(
    info: StickyFrameInfo,
    local_viewport_rect: LayerRect,
    viewport_scroll_offset: LayerVector2D,
    viewport_rect: LayerRect,
) -> LayerVector2D {
    if info.margins.all_unset() {
        LayerVector2D { x: 0i64, y: 0i64 }
    } else {
        let sticky_rect = local_viewport_rect.translate_spec(viewport_scroll_offset);
        let top_y = match info.margins.top {
            Option::Some(margin) => {
                let top_edge = sadd(viewport_rect.min_y_spec(), margin as int);
                if sticky_rect.min_y_spec() < top_edge {
                    ssub(top_edge, sticky_rect.min_y_spec())
                } else {
                    0
                }
            },
            Option::None => 0,
        };
        let raw_y = if top_y == 0 {
            match info.margins.bottom {
                Option::Some(margin) => {
                    let bottom_edge = ssub(viewport_rect.max_y_spec(), margin as int);
                    if sticky_rect.max_y_spec() > bottom_edge {
                        ssub(bottom_edge, sticky_rect.max_y_spec())
                    } else {
                        0
                    }
                },
                Option::None => 0,
            }
        } else {
            top_y
        };
        let left_x = match info.margins.left {
            Option::Some(margin) => {
                let left_edge = sadd(viewport_rect.min_x_spec(), margin as int);
                if sticky_rect.min_x_spec() < left_edge {
                    ssub(left_edge, sticky_rect.min_x_spec())
                } else {
                    0
                }
            },
            Option::None => 0,
        };
        let raw_x = if left_x == 0 {
            match info.margins.right {
                Option::Some(margin) => {
                    let right_edge = ssub(viewport_rect.max_x_spec(), margin as int);
                    if sticky_rect.max_x_spec() > right_edge {
                        ssub(right_edge, sticky_rect.max_x_spec())
                    } else {
                        0
                    }
                },
                Option::None => 0,
            }
        } else {
            left_x
        };
        LayerVector2D {
            x: imin(
                imax(raw_x, info.horizontal_offset_bounds.min as int),
                info.horizontal_offset_bounds.max as int,
            ) as i64,
            y: imin(
                imax(raw_y, info.vertical_offset_bounds.min as int),
                info.vertical_offset_bounds.max as int,
            ) as i64,
        }
    }
}

/// With no margin set, the sticky offset is zero for every viewport and
/// scroll input.
pub proof fn lemma_sticky_offset_zero_when_unset(
    info: StickyFrameInfo,
    local_viewport_rect: LayerRect,
    viewport_scroll_offset: LayerVector2D,
    viewport_rect: LayerRect,
)
    requires
        info.margins.all_unset(),
    ensures
        sticky_offset_spec(info, local_viewport_rect, viewport_scroll_offset, viewport_rect)
            == (LayerVector2D { x: 0i64, y: 0i64 }),
{
}

/// With some margin set and ordered offset bounds, the sticky offset lies
/// within the configured horizontal and vertical bounds.
pub proof fn lemma_sticky_offset_within_bounds(
    info: StickyFrameInfo,
    local_viewport_rect: LayerRect,
    viewport_scroll_offset: LayerVector2D,
    viewport_rect: LayerRect,
)
    requires
        !info.margins.all_unset(),
        info.horizontal_offset_bounds.min <= info.horizontal_offset_bounds.max,
        info.vertical_offset_bounds.min <= info.vertical_offset_bounds.max,
    ensures
        ({
            let r = sticky_offset_spec(
                info,
                local_viewport_rect,
                viewport_scroll_offset,
                viewport_rect,
            );
            &&& info.horizontal_offset_bounds.min <= r.x <= info.horizontal_offset_bounds.max
            &&& info.vertical_offset_bounds.min <= r.y <= info.vertical_offset_bounds.max
        }),
{
}

/// The sticky offset a node's transform update will apply: the solved offset
/// for a sticky frame, zero for every other node kind.
pub open spec fn node_sticky_offset(node: ClipScrollNode, state: TransformUpdateState) -> LayerVector2D {
    match node.node_type {
        NodeType::StickyFrame(info) => sticky_offset_spec(
            info,
            node.local_viewport_rect,
            state.nearest_scrolling_ancestor_offset,
            state.nearest_scrolling_ancestor_viewport,
        ),
        _ => LayerVector2D { x: 0i64, y: 0i64 },
    }
}

/// The scroll offset a node applies to its own content: the scroll state's
/// offset for a scroll frame, zero for every other node kind.
pub open spec fn scroll_offset_spec(node: ClipScrollNode) -> LayerVector2D {
    match node.node_type {
        NodeType::ScrollFrame(scrolling) => scrolling.offset,
        _ => LayerVector2D { x: 0i64, y: 0i64 },
    }
}

/// The scrollable extent of a node: the scroll state's extent for a scroll
/// frame, zero for every other node kind.
pub open spec fn scrollable_size_spec(node: ClipScrollNode) -> LayerSize {
    match node.node_type {
        NodeType::ScrollFrame(scrolling) => scrolling.scrollable_size,
        _ => LayerSize { width: 0i64, height: 0i64 },
    }
}

/// The combined local viewport a transform update computes for the node:
/// the inverse footprint of the parent's combined viewport for a reference
/// frame; the parent's combined viewport (moved by the negated sticky offset
/// for a sticky frame) intersected with the node's local clip rect
/// otherwise.
pub open spec fn updated_combined_rect(
    node: ClipScrollNode,
    state: TransformUpdateState,
) -> LayerRect {
    match node.node_type {
        NodeType::ReferenceFrame(info) => info.transform.inverse_rect_footprint_spec(
            state.parent_combined_viewport_rect,
        ),
        NodeType::Clip(_) | NodeType::ScrollFrame(_) => state.parent_combined_viewport_rect
            .intersection_spec(node.local_clip_rect),
        NodeType::StickyFrame(_) => state.parent_combined_viewport_rect.translate_spec(
            node_sticky_offset(node, state).neg_spec(),
        ).intersection_spec(node.local_clip_rect),
    }
}

/// The scroll offset accumulated between the nearest reference frame and the
/// node, after the node's transform update: reset does not happen here (a
/// reference frame resets it only for its children), a sticky frame adds its
/// sticky offset, other kinds pass the parent's value through.
pub open spec fn updated_relative_offset(
    node: ClipScrollNode,
    state: TransformUpdateState,
) -> LayerVector2D {
    match node.node_type {
        NodeType::ReferenceFrame(_) => LayerVector2D { x: 0i64, y: 0i64 },
        NodeType::Clip(_) | NodeType::ScrollFrame(_) => state.parent_accumulated_scroll_offset,
        NodeType::StickyFrame(_) => state.parent_accumulated_scroll_offset.plus_spec(
            node_sticky_offset(node, state),
        ),
    }
}

/// The local transform a node contributes: a reference frame's own
/// transform; the identity for every other kind.
pub open spec fn local_transform_spec(node: ClipScrollNode) -> LayerTransform {
    match node.node_type {
        NodeType::ReferenceFrame(info) => info.transform,
        _ => LayerTransform::identity_spec(),
    }
}

/// The scroll offset folded into the node's world viewport transform: what
/// the accumulated offset is at this node (a reference frame keeps its
/// parent's accumulation; it resets it only for its children).
pub open spec fn accumulated_offset_spec(
    node: ClipScrollNode,
    state: TransformUpdateState,
) -> LayerVector2D {
    match node.node_type {
        NodeType::ReferenceFrame(_) => state.parent_accumulated_scroll_offset,
        _ => updated_relative_offset(node, state),
    }
}

/// The node's world viewport transform after its update: the parent
/// reference frame's transform, pre-translated by the accumulated scroll
/// offset, with the node's own local transform applied to points first.
pub open spec fn updated_world_viewport_transform(
    node: ClipScrollNode,
    state: TransformUpdateState,
) -> LayerTransform {
    compose_spec(
        local_transform_spec(node),
        state.parent_reference_frame_transform.pre_translate_spec(
            accumulated_offset_spec(node, state),
        ),
    )
}

/// The node's payload after its transform update: a sticky frame records the
/// sticky offset it solved for, everything else is unchanged.
pub open spec fn updated_node_type(node: ClipScrollNode, state: TransformUpdateState) -> NodeType {
    match node.node_type {
        NodeType::StickyFrame(info) => NodeType::StickyFrame(
            StickyFrameInfo { current_offset: node_sticky_offset(node, state), ..info },
        ),
        _ => node.node_type,
    }
}

/// The node after its transform update.
pub open spec fn updated_node(node: ClipScrollNode, state: TransformUpdateState) -> ClipScrollNode {
    let world_viewport = updated_world_viewport_transform(node, state);
    ClipScrollNode {
        combined_local_viewport_rect: updated_combined_rect(node, state),
        reference_frame_relative_scroll_offset: updated_relative_offset(node, state),
        world_viewport_transform: world_viewport,
        world_content_transform: world_viewport.pre_translate_spec(scroll_offset_spec(node)),
        node_type: updated_node_type(node, state),
        ..node
    }
}

/// The walk state after the node's transform update, read by the node's
/// children: a reference frame installs its world transform and combined
/// viewport and resets the accumulated offset, allocating a new coordinate
/// system when its transform does not preserve axis alignment; a clip node
/// narrows the combined viewport; a scroll frame scrolls it and becomes the
/// nearest scrolling ancestor; a sticky frame narrows it and adds its offset
/// to the accumulation.
pub open spec fn updated_state(
    node: ClipScrollNode,
    state: TransformUpdateState,
) -> TransformUpdateState {
    let combined = updated_combined_rect(node, state);
    match node.node_type {
        NodeType::ReferenceFrame(info) => {
            let moved = TransformUpdateState {
                parent_reference_frame_transform: updated_world_viewport_transform(node, state),
                parent_combined_viewport_rect: combined,
                parent_accumulated_scroll_offset: LayerVector2D { x: 0i64, y: 0i64 },
                nearest_scrolling_ancestor_viewport: state.nearest_scrolling_ancestor_viewport
                    .translate_spec(info.origin_in_parent_reference_frame),
                ..state
            };
            if !info.transform.preserves_2d_axis_alignment_spec() {
                TransformUpdateState {
                    current_coordinate_system_id: state.next_coordinate_system_id,
                    next_coordinate_system_id: CoordinateSystemId(
                        (state.next_coordinate_system_id.0 + 1) as u64,
                    ),
                    ..moved
                }
            } else {
                moved
            }
        },
        NodeType::Clip(_) => TransformUpdateState {
            parent_combined_viewport_rect: combined,
            ..state
        },
        NodeType::ScrollFrame(scrolling) => TransformUpdateState {
            parent_combined_viewport_rect: combined.translate_spec(scrolling.offset.neg_spec()),
            parent_accumulated_scroll_offset: scrolling.offset.plus_spec(
                state.parent_accumulated_scroll_offset,
            ),
            nearest_scrolling_ancestor_offset: scrolling.offset,
            nearest_scrolling_ancestor_viewport: node.local_viewport_rect,
            ..state
        },
        NodeType::StickyFrame(_) => TransformUpdateState {
            parent_combined_viewport_rect: combined,
            parent_accumulated_scroll_offset: state.parent_accumulated_scroll_offset.plus_spec(
                node_sticky_offset(node, state),
            ),
            ..state
        },
    }
}

/// A reference frame's children sit in a strictly higher coordinate system
/// than the frame itself exactly when the frame's transform does not
/// preserve axis alignment; otherwise they share the frame's system.
pub proof fn lemma_reference_frame_coordinate_system(
    node: ClipScrollNode,
    state: TransformUpdateState,
)
    requires
        state.coordinate_ids_well_formed(),
        state.next_coordinate_system_id.0 < u64::MAX,
        node.node_type matches NodeType::ReferenceFrame(_),
    ensures
        ({
            let after = updated_state(node, state);
            match node.node_type {
                NodeType::ReferenceFrame(info) => {
                    &&& (after.current_coordinate_system_id.0
                        > state.current_coordinate_system_id.0)
                        <==> !info.transform.preserves_2d_axis_alignment_spec()
                    &&& info.transform.preserves_2d_axis_alignment_spec()
                        ==> after.current_coordinate_system_id
                        == state.current_coordinate_system_id
                    &&& after.coordinate_ids_well_formed()
                },
                _ => true,
            }
        }),
{
}

/// The combined local viewport a transform update computes for a
/// non-reference-frame node lies within the node's own local clip rect, and
/// within the parent's combined viewport as the node sees it (for a sticky
/// frame, the parent's viewport moved by the negated sticky offset).
pub proof fn lemma_combined_rect_subset(node: ClipScrollNode, state: TransformUpdateState)
    requires
        !(node.node_type matches NodeType::ReferenceFrame(_)),
    ensures
        rect_subset(updated_combined_rect(node, state), node.local_clip_rect),
        !(node.node_type matches NodeType::StickyFrame(_)) ==> rect_subset(
            updated_combined_rect(node, state),
            state.parent_combined_viewport_rect,
        ),
        node.node_type matches NodeType::StickyFrame(_) ==> rect_subset(
            updated_combined_rect(node, state),
            state.parent_combined_viewport_rect.translate_spec(
                node_sticky_offset(node, state).neg_spec(),
            ),
        ),
{
    match node.node_type {
        NodeType::Clip(_) | NodeType::ScrollFrame(_) => {
            crate::geom::lemma_intersection_subset(
                state.parent_combined_viewport_rect,
                node.local_clip_rect,
            );
        },
        NodeType::StickyFrame(_) => {
            crate::geom::lemma_intersection_subset(
                state.parent_combined_viewport_rect.translate_spec(
                    node_sticky_offset(node, state).neg_spec(),
                ),
                node.local_clip_rect,
            );
        },
        NodeType::ReferenceFrame(_) => {},
    }
}

/// Whether a node is a clip node whose sources actually mask.
pub open spec fn is_masking_clip(node: ClipScrollNode) -> bool {
    node.node_type matches NodeType::Clip(info) && info.is_masking
}

/// The work item a masking clip node contributes to the clip chain.
pub open spec fn masking_work_item(node: ClipScrollNode, state: TransformUpdateState) -> ClipWorkItem {
    match node.node_type {
        NodeType::Clip(info) => ClipWorkItem {
            packed_layer_index: info.packed_layer_index,
            clip_sources: info.clip_sources,
            coordinate_system_id: state.current_coordinate_system_id,
        },
        _ => ClipWorkItem {
            packed_layer_index: PackedLayerIndex(0usize),
            clip_sources: ClipSourcesHandle(0u64),
            coordinate_system_id: state.current_coordinate_system_id,
        },
    }
}

impl ClipScrollNode {
    /// The node every constructor builds: geometry set, no children yet,
    /// transforms at the identity, nothing combined or clipped yet.
    pub open spec fn is_new_node(
        self,
        pipeline_id: PipelineId,
        parent_id: Option<ClipId>,
        rect: LayerRect,
        node_type: NodeType,
    ) -> bool {
        &&& self.local_viewport_rect == rect
        &&& self.local_clip_rect == rect
        &&& self.combined_local_viewport_rect == LayerRect::zero_spec()
        &&& self.world_viewport_transform == LayerTransform::identity_spec()
        &&& self.world_content_transform == LayerTransform::identity_spec()
        &&& self.reference_frame_relative_scroll_offset == (LayerVector2D { x: 0i64, y: 0i64 })
        &&& self.pipeline_id == pipeline_id
        &&& self.parent == parent_id
        &&& self.children@ == Seq::<ClipId>::empty()
        &&& self.node_type == node_type
        &&& self.clip_chain_node == Option::<usize>::None
        &&& self.combined_clip_outer_bounds == LayerRect::max_rect_spec()
        &&& self.coordinate_system_id == CoordinateSystemId(0u64)
    }

    fn new(
        pipeline_id: PipelineId,
        parent_id: Option<ClipId>,
        rect: &LayerRect,
        node_type: NodeType,
    ) -> (r: ClipScrollNode)
        ensures
            r.is_new_node(pipeline_id, parent_id, *rect, node_type),
    {
        let r = ClipScrollNode {
            local_viewport_rect: *rect,
            local_clip_rect: *rect,
            combined_local_viewport_rect: LayerRect::zero(),
            world_viewport_transform: LayerTransform::identity(),
            world_content_transform: LayerTransform::identity(),
            reference_frame_relative_scroll_offset: LayerVector2D::zero(),
            pipeline_id,
            parent: parent_id,
            children: Vec::new(),
            node_type,
            clip_chain_node: None,
            combined_clip_outer_bounds: LayerRect::max_rect(),
            coordinate_system_id: CoordinateSystemId::root(),
        };
        proof {
            assert(r.children@ =~= Seq::<ClipId>::empty());
        }
        r
    }

    /// A scroll frame showing `frame_rect` of content of `content_size`: it
    /// can scroll by the excess of the content over the frame, never less
    /// than zero, on each axis.
    pub fn new_scroll_frame(
        pipeline_id: PipelineId,
        parent_id: ClipId,
        frame_rect: &LayerRect,
        content_size: &LayerSize,
        scroll_sensitivity: ScrollSensitivity,
    ) -> (r: ClipScrollNode)
        ensures
            r.is_new_node(
                pipeline_id,
                Option::Some(parent_id),
                *frame_rect,
                NodeType::ScrollFrame(
                    ScrollingState {
                        offset: LayerVector2D { x: 0i64, y: 0i64 },
                        spring: SpringCoords {
                            start: LayerPoint { x: 0i64, y: 0i64 },
                            current: LayerPoint { x: 0i64, y: 0i64 },
                            target: LayerPoint { x: 0i64, y: 0i64 },
                        },
                        started_bouncing_back: false,
                        bouncing_back: false,
                        should_handoff_scroll: false,
                        scroll_sensitivity,
                        scrollable_size: LayerSize {
                            width: imax(
                                ssub(content_size.width as int, frame_rect.size.width as int),
                                0,
                            ) as i64,
                            height: imax(
                                ssub(content_size.height as int, frame_rect.size.height as int),
                                0,
                            ) as i64,
                        },
                    },
                ),
            ),
    {
        let node_type = NodeType::ScrollFrame(
            ScrollingState::new(
                scroll_sensitivity,
                LayerSize::new(
                    max64(sat_sub64(content_size.width, frame_rect.size.width), 0),
                    max64(sat_sub64(content_size.height, frame_rect.size.height), 0),
                ),
            ),
        );
        Self::new(pipeline_id, Some(parent_id), frame_rect, node_type)
    }

    pub fn new_clip_node(
        pipeline_id: PipelineId,
        parent_id: ClipId,
        clip_info: ClipInfo,
        clip_rect: LayerRect,
    ) -> (r: ClipScrollNode)
        ensures
            r.is_new_node(pipeline_id, Option::Some(parent_id), clip_rect, NodeType::Clip(clip_info)),
    {
        Self::new(pipeline_id, Some(parent_id), &clip_rect, NodeType::Clip(clip_info))
    }

    pub fn new_reference_frame(
        parent_id: Option<ClipId>,
        frame_rect: &LayerRect,
        transform: &LayerTransform,
        origin_in_parent_reference_frame: LayerVector2D,
        pipeline_id: PipelineId,
    ) -> (r: ClipScrollNode)
        ensures
            r.is_new_node(
                pipeline_id,
                parent_id,
                *frame_rect,
                NodeType::ReferenceFrame(
                    ReferenceFrameInfo {
                        transform: *transform,
                        origin_in_parent_reference_frame,
                    },
                ),
            ),
    {
        let info = ReferenceFrameInfo { transform: *transform, origin_in_parent_reference_frame };
        Self::new(pipeline_id, parent_id, frame_rect, NodeType::ReferenceFrame(info))
    }

    pub fn new_sticky_frame(
        parent_id: ClipId,
        frame_rect: LayerRect,
        sticky_frame_info: StickyFrameInfo,
        pipeline_id: PipelineId,
    ) -> (r: ClipScrollNode)
        ensures
            r.is_new_node(
                pipeline_id,
                Option::Some(parent_id),
                frame_rect,
                NodeType::StickyFrame(sticky_frame_info),
            ),
    {
        Self::new(pipeline_id, Some(parent_id), &frame_rect, NodeType::StickyFrame(sticky_frame_info))
    }

    pub fn add_child(&mut self, child: ClipId)
        ensures
            final(self).children@ == old(self).children@.push(child),
            *final(self) == (ClipScrollNode { children: final(self).children, ..*old(self) }),
    {
        self.children.push(child);
    }

    /// Carries scroll state over from the node of the previous scene build:
    /// a scroll frame adopts the old offset and animation state but keeps
    /// its own sensitivity; every other kind is left alone.
    pub fn apply_old_scrolling_state(&mut self, new_scrolling: &ScrollingState)
        ensures
            match old(self).node_type {
                NodeType::ScrollFrame(old_state) => *final(self) == (ClipScrollNode {
                    node_type: NodeType::ScrollFrame(
                        ScrollingState {
                            scroll_sensitivity: old_state.scroll_sensitivity,
                            ..*new_scrolling
                        },
                    ),
                    ..*old(self)
                }),
                _ => *final(self) == *old(self),
            },
    {
        match self.node_type {
            NodeType::ScrollFrame(scrolling) => {
                self.node_type = NodeType::ScrollFrame(
                    ScrollingState {
                        scroll_sensitivity: scrolling.scroll_sensitivity,
                        ..*new_scrolling
                    },
                );
            },
            _ => {},
        }
    }

    /// Places the scroll offset at `-origin`: clamped into the scrollable
    /// range under `ToContentBounds` (a no-op when there is no scrollable
    /// extent), exact under `NoClamping`. Reports whether anything changed;
    /// a non-scroll node is left alone.
    pub fn set_scroll_origin(&mut self, origin: &LayerPoint, clamp: ScrollClamping) -> (r: bool)
        ensures
            match old(self).node_type {
                NodeType::ScrollFrame(s) => {
                    let step = set_origin_step(s, *origin, clamp);
                    r == step.0 && *final(self) == (ClipScrollNode {
                        node_type: NodeType::ScrollFrame(step.1),
                        ..*old(self)
                    })
                },
                _ => r == false && *final(self) == *old(self),
            },
    {
        let scrolling = match self.node_type {
            NodeType::ScrollFrame(scrolling) => scrolling,
            _ => {
                return false;
            },
        };
        let scrollable_width = scrolling.scrollable_size.width;
        let scrollable_height = scrolling.scrollable_size.height;

        let new_offset = match clamp {
            ScrollClamping::ToContentBounds => {
                if scrollable_height <= 0 && scrollable_width <= 0 {
                    return false;
                }
                let origin_x = max64(origin.x, 0);
                let origin_y = max64(origin.y, 0);
                LayerVector2D::new(
                    min64(max64(sat_neg64(origin_x), sat_neg64(scrollable_width)), 0),
                    min64(max64(sat_neg64(origin_y), sat_neg64(scrollable_height)), 0),
                )
            },
            ScrollClamping::NoClamping => LayerVector2D::new(
                sat_neg64(origin.x),
                sat_neg64(origin.y),
            ),
        };

        if new_offset == scrolling.offset {
            return false;
        }

        self.node_type = NodeType::ScrollFrame(
            ScrollingState {
                offset: new_offset,
                bouncing_back: false,
                started_bouncing_back: false,
                ..scrolling
            },
        );
        true
    }

    /// Applies one scroll event. `Start` and `End` jump to the extremes of
    /// the vertical axis; a delta moves the offset, damped while
    /// overscrolled and clamped into the scrollable range unless
    /// `can_overscroll` permits going past it. Reports whether the offset
    /// changed or a bounce-back was armed; a non-scroll node is left alone.
    pub fn scroll(
        &mut self,
        scroll_location: ScrollLocation,
        phase: ScrollEventPhase,
        can_overscroll: bool,
    ) -> (r: bool)
        ensures
            match old(self).node_type {
                NodeType::ScrollFrame(s) => {
                    let step = scroll_step(s, scroll_location, phase, can_overscroll);
                    r == step.0 && *final(self) == (ClipScrollNode {
                        node_type: NodeType::ScrollFrame(step.1),
                        ..*old(self)
                    })
                },
                _ => r == false && *final(self) == *old(self),
            },
    {
        let scrolling = match self.node_type {
            NodeType::ScrollFrame(scrolling) => scrolling,
            _ => {
                return false;
            },
        };

        if scrolling.started_bouncing_back && phase == ScrollEventPhase::Move(false) {
            return false;
        }

        let mut delta = match scroll_location {
            ScrollLocation::Delta(delta) => delta,
            ScrollLocation::Start => {
                if scrolling.offset.y >= 0 {
                    // Nothing to do on this node.
                    return false;
                }
                self.node_type = NodeType::ScrollFrame(
                    ScrollingState {
                        offset: LayerVector2D { x: scrolling.offset.x, y: 0 },
                        ..scrolling
                    },
                );
                return true;
            },
            ScrollLocation::End => {
                let end_pos = sat_neg64(scrolling.scrollable_size.height);
                if scrolling.offset.y <= end_pos {
                    // Nothing to do on this node.
                    return false;
                }
                self.node_type = NodeType::ScrollFrame(
                    ScrollingState {
                        offset: LayerVector2D { x: scrolling.offset.x, y: end_pos },
                        ..scrolling
                    },
                );
                return true;
            },
        };

        let overscroll_amount = scrolling.overscroll_amount();
        let overscrolling = can_overscroll && (overscroll_amount.x != 0 || overscroll_amount.y
            != 0);
        if overscrolling {
            if overscroll_amount.x != 0 {
                delta.x = trunc_div_mag64(delta.x, overscroll_amount.x);
            }
            if overscroll_amount.y != 0 {
                delta.y = trunc_div_mag64(delta.y, overscroll_amount.y);
            }
        }

        let scrollable_width = scrolling.scrollable_size.width;
        let scrollable_height = scrolling.scrollable_size.height;
        let original_offset = scrolling.offset;

        let mut offset = scrolling.offset;
        if scrollable_width > 0 {
            offset.x = sat_add64(offset.x, delta.x);
            if !can_overscroll {
                offset.x = max64(min64(offset.x, 0), sat_neg64(scrollable_width));
            }
        }
        if scrollable_height > 0 {
            offset.y = sat_add64(offset.y, delta.y);
            if !can_overscroll {
                offset.y = max64(min64(offset.y, 0), sat_neg64(scrollable_height));
            }
        }

        let mut started_bouncing_back = scrolling.started_bouncing_back;
        let mut bouncing_back = scrolling.bouncing_back;
        if phase == ScrollEventPhase::Start || phase == ScrollEventPhase::Move(true) {
            started_bouncing_back = false;
        } else if overscrolling && ((delta.x < 1 && delta.y < 1) || phase
            == ScrollEventPhase::End) {
            started_bouncing_back = true;
            bouncing_back = true;
        }

        let mut new_scrolling = ScrollingState {
            offset,
            started_bouncing_back,
            bouncing_back,
            ..scrolling
        };
        if can_overscroll {
            new_scrolling.stretch_overscroll_spring(overscroll_amount);
        }
        self.node_type = NodeType::ScrollFrame(new_scrolling);

        offset != original_offset || started_bouncing_back
    }

    /// Takes one step of the external bounce integrator into a scroll
    /// frame's state; every other kind is left alone.
    pub fn tick_scrolling_bounce_animation(&mut self, spring_position: LayerPoint, finished: bool)
        ensures
            match old(self).node_type {
                NodeType::ScrollFrame(s) => *final(self) == (ClipScrollNode {
                    node_type: NodeType::ScrollFrame(
                        ScrollingState {
                            offset: LayerVector2D { x: spring_position.x, y: spring_position.y },
                            spring: SpringCoords { current: spring_position, ..s.spring },
                            bouncing_back: if finished { false } else { s.bouncing_back },
                            ..s
                        },
                    ),
                    ..*old(self)
                }),
                _ => *final(self) == *old(self),
            },
    {
        match self.node_type {
            NodeType::ScrollFrame(scrolling) => {
                let mut scrolling = scrolling;
                scrolling.tick_scrolling_bounce_animation(spring_position, finished);
                self.node_type = NodeType::ScrollFrame(scrolling);
            },
            _ => {},
        }
    }

    pub fn scrollable_size(&self) -> (r: LayerSize)
        ensures
            r == scrollable_size_spec(*self),
    {
        match self.node_type {
            NodeType::ScrollFrame(state) => state.scrollable_size,
            _ => LayerSize::zero(),
        }
    }

    pub fn scroll_offset(&self) -> (r: LayerVector2D)
        ensures
            r == scroll_offset_spec(*self),
    {
        match self.node_type {
            NodeType::ScrollFrame(scrolling) => scrolling.offset,
            _ => LayerVector2D::zero(),
        }
    }

    /// Whether a scroll frame's offset sits outside its scrollable range;
    /// false for every other kind.
    pub fn is_overscrolling(&self) -> (r: bool)
        ensures
            r == match self.node_type {
                NodeType::ScrollFrame(s) => overscroll_spec(s) != (LayerVector2D {
                    x: 0i64,
                    y: 0i64,
                }),
                _ => false,
            },
    {
        match self.node_type {
            NodeType::ScrollFrame(state) => state.is_overscrolling(),
            _ => false,
        }
    }

    /// Solves the sticky constraints of a sticky frame against the nearest
    /// scrolling ancestor's live offset and viewport; zero for every other
    /// kind.
    pub fn calculate_sticky_offset(
        &self,
        viewport_scroll_offset: &LayerVector2D,
        viewport_rect: &LayerRect,
    ) -> (r: LayerVector2D)
        ensures
            r == match self.node_type {
                NodeType::StickyFrame(info) => sticky_offset_spec(
                    info,
                    self.local_viewport_rect,
                    *viewport_scroll_offset,
                    *viewport_rect,
                ),
                _ => LayerVector2D { x: 0i64, y: 0i64 },
            },
    {
        let info = match self.node_type {
            NodeType::StickyFrame(info) => info,
            _ => {
                return LayerVector2D::zero();
            },
        };

        if info.margins.top.is_none() && info.margins.bottom.is_none() && info.margins.left.is_none()
            && info.margins.right.is_none() {
            return LayerVector2D::zero();
        }

        // The viewport and margins of the item establish the maximum amount
        // it may be offset to keep it on screen; working against the
        // ancestor's live scroll offset relates the scrolled content to the
        // unscrolled viewport.
        let sticky_rect = self.local_viewport_rect.translate(viewport_scroll_offset);

        let mut sticky_offset = LayerVector2D::zero();
        if let Some(margin) = info.margins.top {
            // A sticky rect above the top viewport edge (plus margin) moves
            // down until it is flush with the edge.
            let top_viewport_edge = sat_add64(viewport_rect.min_y(), margin);
            if sticky_rect.min_y() < top_viewport_edge {
                sticky_offset.y = sat_sub64(top_viewport_edge, sticky_rect.min_y());
            }
        }

        if sticky_offset.y == 0 {
            if let Some(margin) = info.margins.bottom {
                // A sticky rect below the bottom viewport edge (minus
                // margin) moves up until it is flush with the edge.
                let bottom_viewport_edge = sat_sub64(viewport_rect.max_y(), margin);
                if sticky_rect.max_y() > bottom_viewport_edge {
                    sticky_offset.y = sat_sub64(bottom_viewport_edge, sticky_rect.max_y());
                }
            }
        }

        if let Some(margin) = info.margins.left {
            let left_viewport_edge = sat_add64(viewport_rect.min_x(), margin);
            if sticky_rect.min_x() < left_viewport_edge {
                sticky_offset.x = sat_sub64(left_viewport_edge, sticky_rect.min_x());
            }
        }

        if sticky_offset.x == 0 {
            if let Some(margin) = info.margins.right {
                let right_viewport_edge = sat_sub64(viewport_rect.max_x(), margin);
                if sticky_rect.max_x() > right_viewport_edge {
                    sticky_offset.x = sat_sub64(right_viewport_edge, sticky_rect.max_x());
                }
            }
        }

        sticky_offset.y = max64(sticky_offset.y, info.vertical_offset_bounds.min);
        sticky_offset.y = min64(sticky_offset.y, info.vertical_offset_bounds.max);
        sticky_offset.x = max64(sticky_offset.x, info.horizontal_offset_bounds.min);
        sticky_offset.x = min64(sticky_offset.x, info.horizontal_offset_bounds.max);

        sticky_offset
    }

    /// Computes this node's transforms and combined viewport from its
    /// parent's exit state, and writes the node's own exit state back for
    /// its children.
    pub fn update_transform(&mut self, state: &mut TransformUpdateState)
        requires
            old(state).coordinate_ids_well_formed(),
            old(state).next_coordinate_system_id.0 < u64::MAX,
        ensures
            *final(self) == updated_node(*old(self), *old(state)),
            *final(state) == updated_state(*old(self), *old(state)),
            final(state).coordinate_ids_well_formed(),
    {
        // Computed up front since the node-type branches below read it.
        let sticky_offset = self.calculate_sticky_offset(
            &state.nearest_scrolling_ancestor_offset,
            &state.nearest_scrolling_ancestor_viewport,
        );

        let (local_transform, accumulated_scroll_offset) = match self.node_type {
            NodeType::ReferenceFrame(info) => {
                self.combined_local_viewport_rect = info.transform.inverse_rect_footprint(
                    &state.parent_combined_viewport_rect,
                );
                self.reference_frame_relative_scroll_offset = LayerVector2D::zero();
                (info.transform, state.parent_accumulated_scroll_offset)
            },
            NodeType::Clip(_) | NodeType::ScrollFrame(_) => {
                // The parent's viewport, intersected with the local clip
                // rectangle, is the local viewport.
                self.combined_local_viewport_rect = state.parent_combined_viewport_rect
                    .intersection(&self.local_clip_rect);
                self.reference_frame_relative_scroll_offset =
                    state.parent_accumulated_scroll_offset;
                (LayerTransform::identity(), self.reference_frame_relative_scroll_offset)
            },
            NodeType::StickyFrame(info) => {
                self.node_type = NodeType::StickyFrame(
                    StickyFrameInfo { current_offset: sticky_offset, ..info },
                );
                self.combined_local_viewport_rect = state.parent_combined_viewport_rect.translate(
                    &sticky_offset.saturating_neg(),
                ).intersection(&self.local_clip_rect);
                self.reference_frame_relative_scroll_offset =
                    state.parent_accumulated_scroll_offset.saturating_add(sticky_offset);
                (LayerTransform::identity(), self.reference_frame_relative_scroll_offset)
            },
        };

        // The world transform of this viewport is the parent reference
        // frame's transform, pre-translated by the scroll offsets
        // accumulated between that frame and this node, with any local
        // transform of this node applied to points first.
        self.world_viewport_transform = state.parent_reference_frame_transform.pre_translate(
            accumulated_scroll_offset,
        ).pre_mul(&local_transform);

        // Content inside this node is additionally moved by its own scroll
        // offset.
        let scroll_offset = self.scroll_offset();
        self.world_content_transform = self.world_viewport_transform.pre_translate(scroll_offset);

        match self.node_type {
            NodeType::ReferenceFrame(info) => {
                state.parent_reference_frame_transform = self.world_viewport_transform;
                state.parent_combined_viewport_rect = self.combined_local_viewport_rect;
                state.parent_accumulated_scroll_offset = LayerVector2D::zero();
                state.nearest_scrolling_ancestor_viewport = state
                    .nearest_scrolling_ancestor_viewport.translate(
                    &info.origin_in_parent_reference_frame,
                );
                if !info.transform.preserves_2d_axis_alignment() {
                    state.current_coordinate_system_id = state.next_coordinate_system_id;
                    state.next_coordinate_system_id = state.next_coordinate_system_id.next();
                }
            },
            NodeType::Clip(_) => {
                state.parent_combined_viewport_rect = self.combined_local_viewport_rect;
            },
            NodeType::ScrollFrame(scrolling) => {
                state.parent_combined_viewport_rect = self.combined_local_viewport_rect.translate(
                    &scrolling.offset.saturating_neg(),
                );
                state.parent_accumulated_scroll_offset = scrolling.offset.saturating_add(
                    state.parent_accumulated_scroll_offset,
                );
                state.nearest_scrolling_ancestor_offset = scrolling.offset;
                state.nearest_scrolling_ancestor_viewport = self.local_viewport_rect;
            },
            NodeType::StickyFrame(info) => {
                // The combined rect is not moved by the sticky offset: a
                // sticky offset adjusts the node itself, while a scroll
                // offset applies only to contents inside the node.
                state.parent_combined_viewport_rect = self.combined_local_viewport_rect;
                state.parent_accumulated_scroll_offset = state.parent_accumulated_scroll_offset
                    .saturating_add(info.current_offset);
            },
        }
    }

    /// The transform the external packed layer and clip store see for this
    /// node's mask: the world viewport transform carried to the node's own
    /// origin.
    pub fn clip_mask_transform(&self) -> (t: LayerTransform)
        ensures
            t == self.world_viewport_transform.pre_translate_spec(
                LayerVector2D { x: self.local_viewport_rect.origin.x, y: self.local_viewport_rect.origin.y },
            ),
    {
        self.world_viewport_transform.pre_translate(self.local_viewport_rect.origin.to_vector())
    }

    /// The combined viewport moved into the node's own local coordinate
    /// system, as the external packed layer stores it.
    pub fn clip_mask_local_rect(&self) -> (r: LayerRect)
        ensures
            r == self.combined_local_viewport_rect.translate_spec(
                (LayerVector2D { x: self.local_viewport_rect.origin.x, y: self.local_viewport_rect.origin.y }).neg_spec(),
            ),
    {
        self.combined_local_viewport_rect.translate(
            &self.local_viewport_rect.origin.to_vector().saturating_neg(),
        )
    }

    /// Adopts the walk's coordinate system and extends the clip chain: a
    /// masking clip node prepends its work item to the parent chain and
    /// narrows the device-space outer bounds by `clip_source_outer_bounds`
    /// (what the external clip store computed for its sources, `None`
    /// standing for empty); every other node forwards the parent's chain and
    /// bounds unchanged.
    pub fn update_clip_work_item(
        &mut self,
        state: &mut TransformUpdateState,
        arena: &mut ClipChainArena,
        clip_source_outer_bounds: Option<DeviceIntRect>,
    )
        requires
            arena_well_formed(old(arena).nodes@),
            valid_chain(old(arena).nodes@, old(state).parent_clip_chain),
            old(arena).nodes@.len() < usize::MAX,
        ensures
            arena_well_formed(final(arena).nodes@),
            valid_chain(final(arena).nodes@, final(state).parent_clip_chain),
            valid_chain(final(arena).nodes@, final(self).clip_chain_node),
            !is_masking_clip(*old(self)) ==> {
                &&& *final(self) == (ClipScrollNode {
                    coordinate_system_id: old(state).current_coordinate_system_id,
                    clip_chain_node: old(state).parent_clip_chain,
                    combined_clip_outer_bounds: old(state).combined_outer_clip_bounds,
                    ..*old(self)
                })
                &&& *final(state) == *old(state)
                &&& final(arena).nodes@ == old(arena).nodes@
            },
            is_masking_clip(*old(self)) ==> {
                let item = masking_work_item(*old(self), *old(state));
                let outer = match clip_source_outer_bounds {
                    Option::Some(rect) => rect,
                    Option::None => LayerRect::zero_spec(),
                };
                let combined = outer.intersection_spec(old(state).combined_outer_clip_bounds);
                let idx = old(arena).nodes@.len() as usize;
                &&& *final(self) == (ClipScrollNode {
                    coordinate_system_id: old(state).current_coordinate_system_id,
                    clip_chain_node: Option::Some(idx),
                    combined_clip_outer_bounds: combined,
                    ..*old(self)
                })
                &&& final(arena).nodes@ == old(arena).nodes@.push(
                    ClipChainNode { work_item: item, prev: old(state).parent_clip_chain },
                )
                &&& *final(state) == (TransformUpdateState {
                    parent_clip_chain: Option::Some(idx),
                    combined_outer_clip_bounds: combined,
                    ..*old(state)
                })
                &&& chain_seq(final(arena).nodes@, final(self).clip_chain_node) == seq![item]
                    + chain_seq(old(arena).nodes@, old(state).parent_clip_chain)
            },
    {
        self.coordinate_system_id = state.current_coordinate_system_id;

        let current_clip_chain = state.parent_clip_chain;
        let clip_info = match self.node_type {
            NodeType::Clip(info) => {
                if info.is_masking {
                    info
                } else {
                    self.clip_chain_node = current_clip_chain;
                    self.combined_clip_outer_bounds = state.combined_outer_clip_bounds;
                    return;
                }
            },
            _ => {
                self.clip_chain_node = current_clip_chain;
                self.combined_clip_outer_bounds = state.combined_outer_clip_bounds;
                return;
            },
        };

        // The external clip store recomputed the device-space bounds of this
        // node's clip sources against the current transform; an absent outer
        // bound stands for an empty one.
        let outer_bounds = match clip_source_outer_bounds {
            Some(rect) => rect,
            None => LayerRect::zero(),
        };

        self.combined_clip_outer_bounds = outer_bounds.intersection(
            &state.combined_outer_clip_bounds,
        );

        let work_item = ClipWorkItem {
            packed_layer_index: clip_info.packed_layer_index,
            clip_sources: clip_info.clip_sources,
            coordinate_system_id: state.current_coordinate_system_id,
        };
        let idx = arena.push_node(work_item, current_clip_chain);
        proof {
            crate::clip_chain::lemma_chain_seq_push(
                old(arena).nodes@,
                ClipChainNode { work_item, prev: current_clip_chain },
                current_clip_chain,
            );
        }
        self.clip_chain_node = Some(idx);

        state.combined_outer_clip_bounds = self.combined_clip_outer_bounds;
        state.parent_clip_chain = self.clip_chain_node;
    }

    /// Whether a world-space point hits this node: the point is pulled back
    /// through the node's world viewport transform and tested against the
    /// local viewport rect. A node with a singular transform, or one with no
    /// scrollable extent, is never hit.
    pub fn ray_intersects_node(&self, cursor: &WorldPoint) -> (r: bool)
        ensures
            r == (scrollable_size_spec(*self) != (LayerSize { width: 0i64, height: 0i64 })
                && self.world_viewport_transform.preimage_in_rect_spec(
                self.local_viewport_rect,
                *cursor,
            )),
    {
        let det = self.world_viewport_transform.determinant();
        if det == 0 {
            return false;
        }

        let scrollable = self.scrollable_size();
        if scrollable.width == 0 && scrollable.height == 0 {
            return false;
        }

        self.world_viewport_transform.preimage_in_rect(&self.local_viewport_rect, cursor)
    }
}

} // verus!
