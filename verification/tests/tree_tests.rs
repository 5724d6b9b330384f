use clip_scroll::clip_chain::ClipChainArena;
use clip_scroll::geom::LayerPoint;
use clip_scroll::geom::LayerRect;
use clip_scroll::geom::LayerSize;
use clip_scroll::geom::LayerVector2D;
use clip_scroll::node::ClipInfo;
use clip_scroll::node::ClipScrollNode;
use clip_scroll::node::NodeType;
use clip_scroll::node::StickyFrameInfo;
use clip_scroll::transform::LayerTransform;
use clip_scroll::tree::TransformUpdateState;
use clip_scroll::types::ClipId;
use clip_scroll::types::ClipSourcesHandle;
use clip_scroll::types::CoordinateSystemId;
use clip_scroll::types::PackedLayerIndex;
use clip_scroll::types::PipelineId;
use clip_scroll::types::ScrollClamping;
use clip_scroll::types::ScrollSensitivity;
use clip_scroll::types::SideOffsets;
use clip_scroll::types::StickyOffsetBounds;

fn rect(x: i64, y: i64, w: i64, h: i64) -> LayerRect {
    LayerRect::new(LayerPoint::new(x, y), LayerSize::new(w, h))
}

fn pipeline() -> PipelineId {
    PipelineId(1, 1)
}

fn parent_id() -> ClipId {
    ClipId(0, pipeline())
}

fn rotation_45() -> LayerTransform {
    // A rotation-with-scale that maps the axes onto diagonals: it does not
    // preserve axis alignment.
    LayerTransform { m11: 1, m12: 1, m21: -1, m22: 1, m31: 0, m32: 0 }
}

fn scale_2() -> LayerTransform {
    LayerTransform { m11: 2, m12: 0, m21: 0, m22: 2, m31: 0, m32: 0 }
}

#[test]
fn rect_intersection_overlap_and_disjoint() {
    let a = rect(0, 0, 100, 100);
    let b = rect(50, 60, 100, 100);
    assert_eq!(a.intersection(&b), rect(50, 60, 50, 40));
    let c = rect(200, 0, 10, 10);
    assert_eq!(a.intersection(&c), LayerRect::zero());
    // Touching edges share no area.
    let d = rect(100, 0, 10, 10);
    assert_eq!(a.intersection(&d), LayerRect::zero());
}

#[test]
fn identity_reference_frame_keeps_viewport_and_coordinate_system() {
    let mut state = TransformUpdateState::new(rect(0, 0, 400, 400));
    let mut node = ClipScrollNode::new_reference_frame(
        None,
        &rect(0, 0, 400, 400),
        &LayerTransform::identity(),
        LayerVector2D::new(0, 0),
        pipeline(),
    );
    node.update_transform(&mut state);

    assert_eq!(node.combined_local_viewport_rect, rect(0, 0, 400, 400));
    assert_eq!(state.parent_combined_viewport_rect, rect(0, 0, 400, 400));
    assert_eq!(state.current_coordinate_system_id, CoordinateSystemId(0));
    assert_eq!(state.next_coordinate_system_id, CoordinateSystemId(1));
    assert_eq!(node.world_viewport_transform, LayerTransform::identity());
}

#[test]
fn rotated_reference_frame_allocates_a_coordinate_system() {
    let mut state = TransformUpdateState::new(rect(0, 0, 400, 400));
    let mut node = ClipScrollNode::new_reference_frame(
        None,
        &rect(0, 0, 400, 400),
        &rotation_45(),
        LayerVector2D::new(0, 0),
        pipeline(),
    );
    node.update_transform(&mut state);

    // Children sit in a strictly newer coordinate system than the frame.
    assert_eq!(state.current_coordinate_system_id, CoordinateSystemId(1));
    assert_eq!(state.next_coordinate_system_id, CoordinateSystemId(2));
}

#[test]
fn scaling_reference_frame_shrinks_the_viewport_for_children() {
    let mut state = TransformUpdateState::new(rect(0, 0, 400, 300));
    let mut node = ClipScrollNode::new_reference_frame(
        None,
        &rect(0, 0, 400, 300),
        &scale_2(),
        LayerVector2D::new(0, 0),
        pipeline(),
    );
    node.update_transform(&mut state);

    // The inverse footprint of the parent viewport through a doubling
    // transform is the viewport at half size.
    assert_eq!(node.combined_local_viewport_rect, rect(0, 0, 200, 150));
    // A scale preserves axis alignment: no new coordinate system.
    assert_eq!(state.current_coordinate_system_id, CoordinateSystemId(0));
}

#[test]
fn clip_node_narrows_the_viewport() {
    let mut state = TransformUpdateState::new(rect(0, 0, 400, 400));
    let info = ClipInfo::new(ClipSourcesHandle(7), PackedLayerIndex(0), true);
    let mut node = ClipScrollNode::new_clip_node(pipeline(), parent_id(), info, rect(50, 50, 100, 500));
    node.update_transform(&mut state);

    assert_eq!(node.combined_local_viewport_rect, rect(50, 50, 100, 350));
    assert_eq!(state.parent_combined_viewport_rect, rect(50, 50, 100, 350));
}

#[test]
fn scroll_frame_scrolls_the_viewport_for_children() {
    let mut state = TransformUpdateState::new(rect(0, 0, 100, 100));
    let mut node = ClipScrollNode::new_scroll_frame(
        pipeline(),
        parent_id(),
        &rect(0, 0, 100, 100),
        &LayerSize::new(100, 300),
        ScrollSensitivity::ScriptAndInputEvents,
    );
    assert!(node.set_scroll_origin(&LayerPoint::new(0, 50), ScrollClamping::ToContentBounds));
    node.update_transform(&mut state);

    // Children see the viewport moved against the offset, and the offset
    // joins the accumulation and the nearest-scrolling-ancestor trackers.
    assert_eq!(state.parent_combined_viewport_rect, rect(0, 50, 100, 100));
    assert_eq!(state.parent_accumulated_scroll_offset, LayerVector2D::new(0, -50));
    assert_eq!(state.nearest_scrolling_ancestor_offset, LayerVector2D::new(0, -50));
    assert_eq!(state.nearest_scrolling_ancestor_viewport, rect(0, 0, 100, 100));
    // The content transform carries the offset; the viewport transform does
    // not.
    assert_eq!(node.world_viewport_transform, LayerTransform::identity());
    assert_eq!(
        node.world_content_transform,
        LayerTransform { m11: 1, m12: 0, m21: 0, m22: 1, m31: 0, m32: -50 },
    );
}

fn sticky_frame(margins: SideOffsets, frame: LayerRect) -> ClipScrollNode {
    let info = StickyFrameInfo::new(
        margins,
        StickyOffsetBounds::new(-1000, 1000),
        StickyOffsetBounds::new(-1000, 1000),
    );
    ClipScrollNode::new_sticky_frame(parent_id(), frame, info, pipeline())
}

#[test]
fn sticky_offset_zero_without_margins() {
    let node = sticky_frame(SideOffsets::new(None, None, None, None), rect(0, 0, 50, 20));
    let offset = node.calculate_sticky_offset(
        &LayerVector2D::new(0, -40),
        &rect(0, 0, 300, 300),
    );
    assert_eq!(offset, LayerVector2D::new(0, 0));
}

#[test]
fn sticky_top_margin_pushes_the_frame_back_into_view() {
    // Content scrolled up by 40 carries the sticky rect to (0, -40); the top
    // margin of 10 demands min_y at 10, so the offset is 50.
    let node = sticky_frame(SideOffsets::new(Some(10), None, None, None), rect(0, 0, 50, 20));
    let offset = node.calculate_sticky_offset(
        &LayerVector2D::new(0, -40),
        &rect(0, 0, 300, 300),
    );
    assert_eq!(offset, LayerVector2D::new(0, 50));
}

#[test]
fn sticky_offset_is_clamped_into_its_bounds() {
    let info = StickyFrameInfo::new(
        SideOffsets::new(Some(10), None, None, None),
        StickyOffsetBounds::new(0, 30),
        StickyOffsetBounds::new(0, 0),
    );
    let node = ClipScrollNode::new_sticky_frame(parent_id(), rect(0, 0, 50, 20), info, pipeline());
    let offset = node.calculate_sticky_offset(
        &LayerVector2D::new(0, -40),
        &rect(0, 0, 300, 300),
    );
    assert_eq!(offset, LayerVector2D::new(0, 30));
}

#[test]
fn sticky_bottom_margin_only_counts_when_top_is_at_rest() {
    // Both margins set; the frame has been scrolled down past the bottom
    // edge, the top edge is satisfied, so the bottom constraint moves it up.
    let node = sticky_frame(
        SideOffsets::new(Some(0), None, Some(0), None),
        rect(0, 280, 50, 40),
    );
    let offset = node.calculate_sticky_offset(
        &LayerVector2D::new(0, 0),
        &rect(0, 0, 300, 300),
    );
    assert_eq!(offset, LayerVector2D::new(0, -20));
}

#[test]
fn sticky_update_transform_records_the_offset_and_moves_the_viewport() {
    let mut state = TransformUpdateState::new(rect(0, 0, 300, 300));
    state.nearest_scrolling_ancestor_offset = LayerVector2D::new(0, -40);
    let mut node = sticky_frame(SideOffsets::new(Some(10), None, None, None), rect(0, 0, 50, 20));
    node.update_transform(&mut state);

    match node.node_type {
        NodeType::StickyFrame(info) => {
            assert_eq!(info.current_offset, LayerVector2D::new(0, 50));
        }
        _ => panic!("not a sticky frame"),
    }
    // The combined viewport is the parent's, moved by the negated sticky
    // offset, cut to the local clip rect.
    assert_eq!(node.combined_local_viewport_rect, rect(0, 0, 50, 20));
    // The sticky offset joins the accumulated scroll offset for children.
    assert_eq!(state.parent_accumulated_scroll_offset, LayerVector2D::new(0, 50));
    // The combined viewport itself is passed on untranslated.
    assert_eq!(state.parent_combined_viewport_rect, rect(0, 0, 50, 20));
}

#[test]
fn clip_chain_of_three_masking_clips() {
    let screen = rect(0, 0, 1000, 1000);
    let mut state = TransformUpdateState::new(screen);
    let mut arena = ClipChainArena::new();

    let bounds = [
        rect(0, 0, 500, 500),
        rect(100, 100, 500, 500),
        rect(0, 0, 300, 250),
    ];
    let mut nodes = Vec::new();
    for (i, b) in bounds.iter().enumerate() {
        let info = ClipInfo::new(ClipSourcesHandle(i as u64), PackedLayerIndex(i), true);
        let mut node =
            ClipScrollNode::new_clip_node(pipeline(), parent_id(), info, rect(0, 0, 1000, 1000));
        node.update_transform(&mut state);
        node.update_clip_work_item(&mut state, &mut arena, Some(*b));
        nodes.push(node);
    }

    // The chain at the innermost node has three links whose prev pointers
    // walk back to the start of the chain.
    let innermost = &nodes[2];
    assert_eq!(arena.chain_length(innermost.clip_chain_node), 3);
    let link2 = arena.nodes[innermost.clip_chain_node.unwrap()];
    let link1 = arena.nodes[link2.prev.unwrap()];
    let link0 = arena.nodes[link1.prev.unwrap()];
    assert!(link0.prev.is_none());
    assert_eq!(link0.work_item.clip_sources, ClipSourcesHandle(0));
    assert_eq!(link1.work_item.clip_sources, ClipSourcesHandle(1));
    assert_eq!(link2.work_item.clip_sources, ClipSourcesHandle(2));

    // The innermost combined bounds are the intersection of all three
    // device bounds.
    let expected = bounds[0].intersection(&bounds[1]).intersection(&bounds[2]);
    assert_eq!(innermost.combined_clip_outer_bounds, expected);
    assert_eq!(expected, rect(100, 100, 200, 150));
}

#[test]
fn non_masking_nodes_forward_the_chain() {
    let mut state = TransformUpdateState::new(rect(0, 0, 1000, 1000));
    let mut arena = ClipChainArena::new();

    let info = ClipInfo::new(ClipSourcesHandle(0), PackedLayerIndex(0), true);
    let mut masking =
        ClipScrollNode::new_clip_node(pipeline(), parent_id(), info, rect(0, 0, 1000, 1000));
    masking.update_clip_work_item(&mut state, &mut arena, Some(rect(0, 0, 500, 500)));

    let inert = ClipInfo::new(ClipSourcesHandle(1), PackedLayerIndex(1), false);
    let mut non_masking =
        ClipScrollNode::new_clip_node(pipeline(), parent_id(), inert, rect(0, 0, 1000, 1000));
    non_masking.update_clip_work_item(&mut state, &mut arena, None);

    // The non-masking clip contributes no link but keeps the chain intact.
    assert_eq!(non_masking.clip_chain_node, masking.clip_chain_node);
    assert_eq!(non_masking.combined_clip_outer_bounds, masking.combined_clip_outer_bounds);
    assert_eq!(arena.chain_length(non_masking.clip_chain_node), 1);

    let mut scroll = ClipScrollNode::new_scroll_frame(
        pipeline(),
        parent_id(),
        &rect(0, 0, 100, 100),
        &LayerSize::new(100, 300),
        ScrollSensitivity::ScriptAndInputEvents,
    );
    scroll.update_clip_work_item(&mut state, &mut arena, None);
    assert_eq!(scroll.clip_chain_node, masking.clip_chain_node);
}

#[test]
fn coordinate_system_id_is_adopted_from_the_walk() {
    let mut state = TransformUpdateState::new(rect(0, 0, 400, 400));
    let mut arena = ClipChainArena::new();
    let mut frame = ClipScrollNode::new_reference_frame(
        None,
        &rect(0, 0, 400, 400),
        &rotation_45(),
        LayerVector2D::new(0, 0),
        pipeline(),
    );
    frame.update_transform(&mut state);
    frame.update_clip_work_item(&mut state, &mut arena, None);
    // The frame itself was visited after its transform update, so it adopts
    // the newly allocated system; so would its children.
    assert_eq!(frame.coordinate_system_id, CoordinateSystemId(1));
}

#[test]
fn clip_mask_geometry_is_carried_to_the_node_origin() {
    let mut state = TransformUpdateState::new(rect(0, 0, 400, 400));
    let info = ClipInfo::new(ClipSourcesHandle(7), PackedLayerIndex(0), true);
    let mut node =
        ClipScrollNode::new_clip_node(pipeline(), parent_id(), info, rect(50, 50, 100, 100));
    node.update_transform(&mut state);

    // The packed layer's transform carries the world transform to the
    // node's own origin; its rect is the combined viewport in that space.
    assert_eq!(
        node.clip_mask_transform(),
        LayerTransform { m11: 1, m12: 0, m21: 0, m22: 1, m31: 50, m32: 50 },
    );
    assert_eq!(node.clip_mask_local_rect(), rect(0, 0, 100, 100));
}

#[test]
fn ray_intersects_scrollable_nodes_under_the_cursor() {
    let mut state = TransformUpdateState::new(rect(0, 0, 400, 400));
    let mut node = ClipScrollNode::new_scroll_frame(
        pipeline(),
        parent_id(),
        &rect(10, 10, 100, 100),
        &LayerSize::new(100, 300),
        ScrollSensitivity::ScriptAndInputEvents,
    );
    node.update_transform(&mut state);

    assert!(node.ray_intersects_node(&LayerPoint::new(50, 50)));
    assert!(!node.ray_intersects_node(&LayerPoint::new(150, 50)));
}

#[test]
fn ray_misses_nodes_without_scrollable_extent() {
    let node = ClipScrollNode::new_reference_frame(
        None,
        &rect(0, 0, 400, 400),
        &LayerTransform::identity(),
        LayerVector2D::new(0, 0),
        pipeline(),
    );
    assert!(!node.ray_intersects_node(&LayerPoint::new(50, 50)));
}

#[test]
fn ray_misses_singular_transforms() {
    let mut node = ClipScrollNode::new_scroll_frame(
        pipeline(),
        parent_id(),
        &rect(0, 0, 100, 100),
        &LayerSize::new(100, 300),
        ScrollSensitivity::ScriptAndInputEvents,
    );
    node.world_viewport_transform =
        LayerTransform { m11: 0, m12: 0, m21: 0, m22: 0, m31: 0, m32: 0 };
    assert!(!node.ray_intersects_node(&LayerPoint::new(50, 50)));
}

#[test]
fn add_child_links_children_in_order() {
    let mut node = ClipScrollNode::new_reference_frame(
        None,
        &rect(0, 0, 400, 400),
        &LayerTransform::identity(),
        LayerVector2D::new(0, 0),
        pipeline(),
    );
    node.add_child(ClipId(1, pipeline()));
    node.add_child(ClipId(2, pipeline()));
    assert_eq!(node.children, vec![ClipId(1, pipeline()), ClipId(2, pipeline())]);
}

#[test]
fn nested_scroll_frames_accumulate_offsets() {
    let mut state = TransformUpdateState::new(rect(0, 0, 100, 100));
    let mut outer = ClipScrollNode::new_scroll_frame(
        pipeline(),
        parent_id(),
        &rect(0, 0, 100, 100),
        &LayerSize::new(100, 300),
        ScrollSensitivity::ScriptAndInputEvents,
    );
    assert!(outer.set_scroll_origin(&LayerPoint::new(0, 30), ScrollClamping::ToContentBounds));
    outer.update_transform(&mut state);

    let mut inner = ClipScrollNode::new_scroll_frame(
        pipeline(),
        ClipId(1, pipeline()),
        &rect(0, 0, 100, 100),
        &LayerSize::new(100, 200),
        ScrollSensitivity::ScriptAndInputEvents,
    );
    assert!(inner.set_scroll_origin(&LayerPoint::new(0, 20), ScrollClamping::ToContentBounds));
    inner.update_transform(&mut state);

    assert_eq!(state.parent_accumulated_scroll_offset, LayerVector2D::new(0, -50));
    assert_eq!(
        inner.world_content_transform,
        LayerTransform { m11: 1, m12: 0, m21: 0, m22: 1, m31: 0, m32: -50 },
    );
    assert_eq!(inner.reference_frame_relative_scroll_offset, LayerVector2D::new(0, -30));
}
