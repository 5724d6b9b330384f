use clip_scroll::geom::LayerPoint;
use clip_scroll::geom::LayerRect;
use clip_scroll::geom::LayerSize;
use clip_scroll::geom::LayerVector2D;
use clip_scroll::node::ClipScrollNode;
use clip_scroll::node::NodeType;
use clip_scroll::scrolling::ScrollingState;
use clip_scroll::types::ClipId;
use clip_scroll::types::PipelineId;
use clip_scroll::types::ScrollClamping;
use clip_scroll::types::ScrollEventPhase;
use clip_scroll::types::ScrollLocation;
use clip_scroll::types::ScrollSensitivity;

fn rect(x: i64, y: i64, w: i64, h: i64) -> LayerRect {
    LayerRect::new(LayerPoint::new(x, y), LayerSize::new(w, h))
}

fn pipeline() -> PipelineId {
    PipelineId(1, 1)
}

fn parent_id() -> ClipId {
    ClipId(0, pipeline())
}

fn scroll_frame(frame: LayerRect, content: LayerSize) -> ClipScrollNode {
    ClipScrollNode::new_scroll_frame(
        pipeline(),
        parent_id(),
        &frame,
        &content,
        ScrollSensitivity::ScriptAndInputEvents,
    )
}

fn scrolling_state(node: &ClipScrollNode) -> ScrollingState {
    match node.node_type {
        NodeType::ScrollFrame(s) => s,
        _ => panic!("not a scroll frame"),
    }
}

#[test]
fn scroll_frame_scrollable_size_is_content_excess() {
    let node = scroll_frame(rect(0, 0, 100, 100), LayerSize::new(100, 300));
    assert_eq!(node.scrollable_size(), LayerSize::new(0, 200));
}

#[test]
fn scroll_frame_scrollable_size_never_negative() {
    let node = scroll_frame(rect(0, 0, 100, 100), LayerSize::new(40, 50));
    assert_eq!(node.scrollable_size(), LayerSize::new(0, 0));
}

#[test]
fn set_scroll_origin_clamps_and_scroll_clamps_to_bounds() {
    let mut node = scroll_frame(rect(0, 0, 100, 100), LayerSize::new(100, 300));
    assert_eq!(node.scrollable_size(), LayerSize::new(0, 200));

    let changed = node.set_scroll_origin(&LayerPoint::new(0, 50), ScrollClamping::ToContentBounds);
    assert!(changed);
    assert_eq!(node.scroll_offset(), LayerVector2D::new(0, -50));

    let changed = node.scroll(
        ScrollLocation::Delta(LayerVector2D::new(0, -300)),
        ScrollEventPhase::Move(false),
        false,
    );
    assert!(changed);
    assert_eq!(node.scroll_offset(), LayerVector2D::new(0, -200));
}

#[test]
fn set_scroll_origin_second_call_is_a_no_op() {
    let mut node = scroll_frame(rect(0, 0, 100, 100), LayerSize::new(100, 300));
    assert!(node.set_scroll_origin(&LayerPoint::new(0, 50), ScrollClamping::ToContentBounds));
    assert!(!node.set_scroll_origin(&LayerPoint::new(0, 50), ScrollClamping::ToContentBounds));
    assert_eq!(node.scroll_offset(), LayerVector2D::new(0, -50));
}

#[test]
fn set_scroll_origin_clamps_origin_past_the_extent() {
    let mut node = scroll_frame(rect(0, 0, 100, 100), LayerSize::new(300, 400));
    assert!(node.set_scroll_origin(&LayerPoint::new(500, -20), ScrollClamping::ToContentBounds));
    assert_eq!(node.scroll_offset(), LayerVector2D::new(-200, 0));
}

#[test]
fn set_scroll_origin_without_extent_is_ignored() {
    let mut node = scroll_frame(rect(0, 0, 100, 100), LayerSize::new(50, 50));
    assert!(!node.set_scroll_origin(&LayerPoint::new(0, 50), ScrollClamping::ToContentBounds));
    assert_eq!(node.scroll_offset(), LayerVector2D::new(0, 0));
}

#[test]
fn set_scroll_origin_no_clamping_allows_overscroll() {
    let mut node = scroll_frame(rect(0, 0, 100, 100), LayerSize::new(100, 300));
    assert!(node.set_scroll_origin(&LayerPoint::new(0, 500), ScrollClamping::NoClamping));
    assert_eq!(node.scroll_offset(), LayerVector2D::new(0, -500));
    assert!(node.is_overscrolling());
}

#[test]
fn set_scroll_origin_on_non_scroll_node_is_ignored() {
    let mut node = ClipScrollNode::new_reference_frame(
        None,
        &rect(0, 0, 100, 100),
        &clip_scroll::transform::LayerTransform::identity(),
        LayerVector2D::new(0, 0),
        pipeline(),
    );
    assert!(!node.set_scroll_origin(&LayerPoint::new(0, 50), ScrollClamping::ToContentBounds));
    assert!(!node.scroll(
        ScrollLocation::Delta(LayerVector2D::new(0, -10)),
        ScrollEventPhase::Move(false),
        false,
    ));
    assert_eq!(node.scroll_offset(), LayerVector2D::new(0, 0));
}

#[test]
fn scroll_location_start_jumps_to_the_top() {
    let mut node = scroll_frame(rect(0, 0, 100, 100), LayerSize::new(100, 300));
    assert!(node.set_scroll_origin(&LayerPoint::new(0, 50), ScrollClamping::ToContentBounds));
    assert!(node.scroll(ScrollLocation::Start, ScrollEventPhase::Move(false), false));
    assert_eq!(node.scroll_offset(), LayerVector2D::new(0, 0));
    // Already at the top: nothing to do.
    assert!(!node.scroll(ScrollLocation::Start, ScrollEventPhase::Move(false), false));
}

#[test]
fn scroll_location_end_jumps_to_the_bottom() {
    let mut node = scroll_frame(rect(0, 0, 100, 100), LayerSize::new(100, 300));
    assert!(node.scroll(ScrollLocation::End, ScrollEventPhase::Move(false), false));
    assert_eq!(node.scroll_offset(), LayerVector2D::new(0, -200));
    // Already at the bottom: nothing to do.
    assert!(!node.scroll(ScrollLocation::End, ScrollEventPhase::Move(false), false));
}

#[test]
fn scroll_offsets_stay_clamped_over_a_sequence_of_events() {
    let mut node = scroll_frame(rect(0, 0, 100, 100), LayerSize::new(250, 300));
    let deltas = [
        (30, -500),
        (-700, 40),
        (-10, -10),
        (500, 500),
        (-100, -90),
    ];
    for (dx, dy) in deltas {
        node.scroll(
            ScrollLocation::Delta(LayerVector2D::new(dx, dy)),
            ScrollEventPhase::Move(false),
            false,
        );
        let offset = node.scroll_offset();
        assert!(-150 <= offset.x && offset.x <= 0);
        assert!(-200 <= offset.y && offset.y <= 0);
    }
}

#[test]
fn scroll_with_overscroll_enabled_goes_past_the_bounds() {
    let mut node = scroll_frame(rect(0, 0, 100, 100), LayerSize::new(100, 300));
    assert!(node.scroll(
        ScrollLocation::Delta(LayerVector2D::new(0, -250)),
        ScrollEventPhase::Move(true),
        true,
    ));
    assert_eq!(node.scroll_offset(), LayerVector2D::new(0, -250));
    assert!(node.is_overscrolling());
    // The spring now aims back at the scrollable range: target is the
    // offset plus the overscroll amount (-250 past -200 gives 50).
    let state = scrolling_state(&node);
    assert_eq!(state.spring.target, LayerPoint::new(0, -250));

    // A small follow-up move while overscrolled is damped and arms the
    // bounce-back.
    assert!(node.scroll(
        ScrollLocation::Delta(LayerVector2D::new(0, 0)),
        ScrollEventPhase::Move(false),
        true,
    ));
    let state = scrolling_state(&node);
    assert!(state.started_bouncing_back);
    assert!(state.bouncing_back);
    assert_eq!(state.spring.target, LayerPoint::new(0, -200));
}

#[test]
fn overscroll_damping_divides_the_delta() {
    let mut node = scroll_frame(rect(0, 0, 100, 100), LayerSize::new(100, 300));
    assert!(node.set_scroll_origin(&LayerPoint::new(0, 210), ScrollClamping::NoClamping));
    // Overscrolled by 10 past -200; a delta of -25 is divided by 10.
    node.scroll(
        ScrollLocation::Delta(LayerVector2D::new(0, -25)),
        ScrollEventPhase::Move(true),
        true,
    );
    assert_eq!(node.scroll_offset(), LayerVector2D::new(0, -212));
}

#[test]
fn move_after_a_settled_bounce_is_ignored() {
    let mut node = scroll_frame(rect(0, 0, 100, 100), LayerSize::new(100, 300));
    node.scroll(
        ScrollLocation::Delta(LayerVector2D::new(0, -250)),
        ScrollEventPhase::Move(true),
        true,
    );
    node.scroll(
        ScrollLocation::Delta(LayerVector2D::new(0, 0)),
        ScrollEventPhase::End,
        true,
    );
    assert!(scrolling_state(&node).started_bouncing_back);
    // A non-initial move while the bounce is armed does nothing.
    assert!(!node.scroll(
        ScrollLocation::Delta(LayerVector2D::new(0, -50)),
        ScrollEventPhase::Move(false),
        true,
    ));
}

#[test]
fn bounce_tick_applies_the_integrator_position() {
    let mut node = scroll_frame(rect(0, 0, 100, 100), LayerSize::new(100, 300));
    node.scroll(
        ScrollLocation::Delta(LayerVector2D::new(0, -250)),
        ScrollEventPhase::Move(true),
        true,
    );
    node.scroll(
        ScrollLocation::Delta(LayerVector2D::new(0, 0)),
        ScrollEventPhase::End,
        true,
    );
    assert!(scrolling_state(&node).bouncing_back);

    node.tick_scrolling_bounce_animation(LayerPoint::new(0, -220), false);
    assert_eq!(node.scroll_offset(), LayerVector2D::new(0, -220));
    assert!(scrolling_state(&node).bouncing_back);

    node.tick_scrolling_bounce_animation(LayerPoint::new(0, -200), true);
    assert_eq!(node.scroll_offset(), LayerVector2D::new(0, -200));
    assert!(!scrolling_state(&node).bouncing_back);
}

#[test]
fn apply_old_scrolling_state_keeps_sensitivity() {
    let mut node = ClipScrollNode::new_scroll_frame(
        pipeline(),
        parent_id(),
        &rect(0, 0, 100, 100),
        &LayerSize::new(100, 300),
        ScrollSensitivity::Script,
    );
    let mut old_state = ScrollingState::new(
        ScrollSensitivity::ScriptAndInputEvents,
        LayerSize::new(0, 200),
    );
    old_state.offset = LayerVector2D::new(0, -120);
    node.apply_old_scrolling_state(&old_state);

    let state = scrolling_state(&node);
    assert_eq!(state.offset, LayerVector2D::new(0, -120));
    assert!(!state.sensitive_to_input_events());
}

#[test]
fn sensitivity_is_queryable() {
    let both = ScrollingState::new(
        ScrollSensitivity::ScriptAndInputEvents,
        LayerSize::new(10, 10),
    );
    let script = ScrollingState::new(ScrollSensitivity::Script, LayerSize::new(10, 10));
    assert!(both.sensitive_to_input_events());
    assert!(!script.sensitive_to_input_events());
}

#[test]
fn overscroll_amount_measures_distance_past_the_bounds() {
    let mut state = ScrollingState::new(
        ScrollSensitivity::ScriptAndInputEvents,
        LayerSize::new(100, 200),
    );
    assert_eq!(state.overscroll_amount(), LayerVector2D::new(0, 0));
    state.offset = LayerVector2D::new(30, -250);
    assert_eq!(state.overscroll_amount(), LayerVector2D::new(-30, 50));
    assert!(state.is_overscrolling());
}
