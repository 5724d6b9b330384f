//! Per-node scroll state: offset, overscroll, and the bounce-back spring.
//!
//! The damped-oscillator integrator that animates a bounce-back lives outside
//! this core; [`ScrollingState`] keeps the coordinate triple the integrator
//! works on and takes the integrator's position back through
//! [`ScrollingState::tick_scrolling_bounce_animation`].

use vstd::prelude::*;

use crate::geom::abs_int;
use crate::geom::imax;
use crate::geom::imin;
use crate::geom::sadd;
use crate::geom::sat_add64;
use crate::geom::sat_neg64;
use crate::geom::sat_sub64;
use crate::geom::sneg;
use crate::geom::ssub;
use crate::geom::trunc_div_int;
use crate::geom::LayerPoint;
use crate::geom::LayerSize;
use crate::geom::LayerVector2D;
use crate::types::ScrollClamping;
use crate::types::ScrollEventPhase;
use crate::types::ScrollLocation;
use crate::types::ScrollSensitivity;

verus! {

/// The coordinate triple a damped-oscillator integrator converges over:
/// where the animation started, where it is now, and where it should come to
/// rest.
#[derive(Clone, Copy, PartialEq, Eq, Structural, Debug)]
pub struct SpringCoords {
    pub start: LayerPoint,
    pub current: LayerPoint,
    pub target: LayerPoint,
}

impl SpringCoords {
    pub fn at(p: LayerPoint) -> (r: SpringCoords)
        ensures
            r == (SpringCoords { start: p, current: p, target: p }),
    {
        SpringCoords { start: p, current: p, target: p }
    }
}

/// The scroll state of one scroll frame.
#[derive(Clone, Copy, PartialEq, Eq, Structural, Debug)]
pub struct ScrollingState {
    pub offset: LayerVector2D,
    pub spring: SpringCoords,
    pub started_bouncing_back: bool,
    pub bouncing_back: bool,
    pub should_handoff_scroll: bool,
    pub scroll_sensitivity: ScrollSensitivity,
    /// Amount this scroll frame can scroll in both directions.
    pub scrollable_size: LayerSize,
}

/// How far past the scrollable range the offset sits on one axis: zero
/// inside `[-scrollable, 0]`, otherwise the signed distance past the nearer
/// bound.
pub open spec fn axis_overscroll(offset: int, scrollable: int) -> int {
    if offset > 0 {
        -offset
    } else if offset < sneg(scrollable) {
        ssub(sneg(scrollable), offset)
    } else {
        0
    }
}

/// The overscroll amount of a scroll state, per axis.
pub open spec fn overscroll_spec(s: ScrollingState) -> LayerVector2D {
    LayerVector2D {
        x: axis_overscroll(s.offset.x as int, s.scrollable_size.width as int) as i64,
        y: axis_overscroll(s.offset.y as int, s.scrollable_size.height as int) as i64,
    }
}

/// An offset clamped into `[-scrollable, 0]` the way a scroll event clamps:
/// first capped at zero, then raised to `-scrollable`.
pub open spec fn clamp_axis(v: int, scrollable: int) -> int {
    imax(imin(v, 0), sneg(scrollable))
}

/// The spring triple fed while overscroll is live: start and current at the
/// present offset, the target past it by the overscroll amount.
pub open spec fn stretched_spring(offset: LayerVector2D, overscroll: LayerVector2D) -> SpringCoords {
    SpringCoords {
        start: LayerPoint { x: offset.x, y: offset.y },
        current: LayerPoint { x: offset.x, y: offset.y },
        target: LayerPoint {
            x: sadd(offset.x as int, overscroll.x as int) as i64,
            y: sadd(offset.y as int, overscroll.y as int) as i64,
        },
    }
}

/// The offset a `set_scroll_origin` call aims at, or `None` when the call is
/// ignored because the frame has no scrollable extent.
pub open spec fn desired_offset(
    s: ScrollingState,
    origin: LayerPoint,
    clamp: ScrollClamping,
) -> Option<LayerVector2D> {
    match clamp {
        ScrollClamping::ToContentBounds => {
            if s.scrollable_size.height <= 0 && s.scrollable_size.width <= 0 {
                None
            } else {
                let ox = imax(origin.x as int, 0);
                let oy = imax(origin.y as int, 0);
                Some(
                    LayerVector2D {
                        x: imin(imax(-ox, sneg(s.scrollable_size.width as int)), 0) as i64,
                        y: imin(imax(-oy, sneg(s.scrollable_size.height as int)), 0) as i64,
                    },
                )
            }
        },
        ScrollClamping::NoClamping => Some(
            LayerVector2D { x: sneg(origin.x as int) as i64, y: sneg(origin.y as int) as i64 },
        ),
    }
}

/// What a `set_scroll_origin` call does to a scroll state: whether the state
/// changed, and the state after the call.
pub open spec fn set_origin_step(
    s: ScrollingState,
    origin: LayerPoint,
    clamp: ScrollClamping,
) -> (bool, ScrollingState) {
    match desired_offset(s, origin, clamp) {
        Option::None => (false, s),
        Option::Some(o) => if o == s.offset {
            (false, s)
        } else {
            (
                true,
                ScrollingState { offset: o, started_bouncing_back: false, bouncing_back: false, ..s },
            )
        },
    }
}

/// The incoming delta, divided on each overscrolling axis by the magnitude
/// of the overscroll so that pushing further into overscroll gets
/// progressively harder; untouched when overscroll is not live.
pub open spec fn damped_delta(
    delta: LayerVector2D,
    overscroll: LayerVector2D,
    overscrolling: bool,
) -> LayerVector2D {
    if overscrolling {
        LayerVector2D {
            x: if overscroll.x != 0 {
                crate::geom::sat_i64(trunc_div_int(delta.x as int, abs_int(overscroll.x as int)))
                    as i64
            } else {
                delta.x
            },
            y: if overscroll.y != 0 {
                crate::geom::sat_i64(trunc_div_int(delta.y as int, abs_int(overscroll.y as int)))
                    as i64
            } else {
                delta.y
            },
        }
    } else {
        delta
    }
}

/// What a scroll event with a relative delta does to a scroll state.
pub open spec fn scroll_delta_step(
    s: ScrollingState,
    raw_delta: LayerVector2D,
    phase: ScrollEventPhase,
    can_overscroll: bool,
) -> (bool, ScrollingState) {
    let overscroll = overscroll_spec(s);
    let overscrolling = can_overscroll && overscroll != (LayerVector2D { x: 0i64, y: 0i64 });
    let delta = damped_delta(raw_delta, overscroll, overscrolling);
    let w = s.scrollable_size.width;
    let h = s.scrollable_size.height;
    let new_x = if w > 0 {
        let moved = sadd(s.offset.x as int, delta.x as int);
        if !can_overscroll {
            clamp_axis(moved, w as int) as i64
        } else {
            moved as i64
        }
    } else {
        s.offset.x
    };
    let new_y = if h > 0 {
        let moved = sadd(s.offset.y as int, delta.y as int);
        if !can_overscroll {
            clamp_axis(moved, h as int) as i64
        } else {
            moved as i64
        }
    } else {
        s.offset.y
    };
    let new_offset = LayerVector2D { x: new_x, y: new_y };
    let (started, bouncing) = if phase == ScrollEventPhase::Start || phase
        == ScrollEventPhase::Move(true) {
        (false, s.bouncing_back)
    } else if overscrolling && ((delta.x < 1 && delta.y < 1) || phase == ScrollEventPhase::End) {
        (true, true)
    } else {
        (s.started_bouncing_back, s.bouncing_back)
    };
    let spring = if can_overscroll {
        stretched_spring(new_offset, overscroll)
    } else {
        s.spring
    };
    (
        new_offset != s.offset || started,
        ScrollingState {
            offset: new_offset,
            started_bouncing_back: started,
            bouncing_back: bouncing,
            spring,
            ..s
        },
    )
}

/// What a scroll event does to a scroll state: whether the offset changed or
/// a bounce-back was armed, and the state after the event.
pub open spec fn scroll_step(
    s: ScrollingState,
    location: ScrollLocation,
    phase: ScrollEventPhase,
    can_overscroll: bool,
) -> (bool, ScrollingState) {
    if s.started_bouncing_back && phase == ScrollEventPhase::Move(false) {
        (false, s)
    } else {
        match location {
            ScrollLocation::Delta(d) => scroll_delta_step(s, d, phase, can_overscroll),
            ScrollLocation::Start => {
                if s.offset.y >= 0 {
                    (false, s)
                } else {
                    (true, ScrollingState { offset: LayerVector2D { x: s.offset.x, y: 0i64 }, ..s })
                }
            },
            ScrollLocation::End => {
                let end_pos = sneg(s.scrollable_size.height as int);
                if s.offset.y as int <= end_pos {
                    (false, s)
                } else {
                    (
                        true,
                        ScrollingState {
                            offset: LayerVector2D { x: s.offset.x, y: end_pos as i64 },
                            ..s
                        },
                    )
                }
            },
        }
    }
}

/// A scroll state whose scrollable extent is non-negative, as every state
/// built by a scroll-frame constructor is.
pub open spec fn valid_scrollable_size(s: ScrollingState) -> bool {
    s.scrollable_size.width >= 0 && s.scrollable_size.height >= 0
}

/// The offset sits inside the scrollable range on both axes.
pub open spec fn offset_within_scrollable(s: ScrollingState) -> bool {
    &&& -(s.scrollable_size.width as int) <= s.offset.x as int <= 0
    &&& -(s.scrollable_size.height as int) <= s.offset.y as int <= 0
}

/// A scroll state with a zero offset, as every constructor builds, sits
/// inside any non-negative scrollable range: the base case of the clamping
/// invariant that scroll events preserve.
pub proof fn lemma_initial_offset_within_scrollable(s: ScrollingState)
    requires
        valid_scrollable_size(s),
        s.offset == (LayerVector2D { x: 0i64, y: 0i64 }),
    ensures
        offset_within_scrollable(s),
{
}

/// With overscroll disabled, a scroll event keeps the offset inside the
/// scrollable range: `offset.x` stays in `[-scrollable.width, 0]` and
/// `offset.y` in `[-scrollable.height, 0]`.
pub proof fn lemma_scroll_stays_clamped(
    s: ScrollingState,
    location: ScrollLocation,
    phase: ScrollEventPhase,
)
    requires
        valid_scrollable_size(s),
        offset_within_scrollable(s),
    ensures
        offset_within_scrollable(scroll_step(s, location, phase, false).1),
{
}

/// A `set_scroll_origin` call that clamps to the content bounds leaves the
/// offset inside the scrollable range, whether or not it changed anything.
pub proof fn lemma_set_scroll_origin_clamps(s: ScrollingState, origin: LayerPoint)
    requires
        valid_scrollable_size(s),
        offset_within_scrollable(s),
    ensures
        offset_within_scrollable(
            set_origin_step(s, origin, ScrollClamping::ToContentBounds).1,
        ),
{
}

/// `set_scroll_origin` is idempotent: applied a second time with the same
/// origin and clamp mode it reports no change and leaves the state as the
/// first application left it.
pub proof fn lemma_set_scroll_origin_idempotent(
    s: ScrollingState,
    origin: LayerPoint,
    clamp: ScrollClamping,
)
    ensures
        ({
            let first = set_origin_step(s, origin, clamp);
            let second = set_origin_step(first.1, origin, clamp);
            second.0 == false && second.1 == first.1
        }),
{
}

impl ScrollingState {
    pub fn new(scroll_sensitivity: ScrollSensitivity, scrollable_size: LayerSize) -> (r:
        ScrollingState)
        ensures
            r == (ScrollingState {
                offset: LayerVector2D { x: 0i64, y: 0i64 },
                spring: SpringCoords {
                    start: LayerPoint { x: 0i64, y: 0i64 },
                    current: LayerPoint { x: 0i64, y: 0i64 },
                    target: LayerPoint { x: 0i64, y: 0i64 },
                },
                started_bouncing_back: false,
                bouncing_back: false,
                should_handoff_scroll: false,
                scroll_sensitivity,
                scrollable_size,
            }),
    {
        ScrollingState {
            offset: LayerVector2D::zero(),
            spring: SpringCoords::at(LayerPoint::zero()),
            started_bouncing_back: false,
            bouncing_back: false,
            should_handoff_scroll: false,
            scroll_sensitivity,
            scrollable_size,
        }
    }

    pub fn sensitive_to_input_events(&self) -> (r: bool)
        ensures
            r == (self.scroll_sensitivity == ScrollSensitivity::ScriptAndInputEvents),
    {
        match self.scroll_sensitivity {
            ScrollSensitivity::ScriptAndInputEvents => true,
            ScrollSensitivity::Script => false,
        }
    }

    /// Re-aims the bounce spring at the live overscroll: start and current
    /// at the present offset, target past it by `overscroll_amount`.
    pub fn stretch_overscroll_spring(&mut self, overscroll_amount: LayerVector2D)
        ensures
            *final(self) == (ScrollingState {
                spring: stretched_spring(old(self).offset, overscroll_amount),
                ..*old(self)
            }),
    {
        let offset = self.offset.to_point();
        self.spring = SpringCoords {
            start: offset,
            current: offset,
            target: LayerPoint {
                x: sat_add64(self.offset.x, overscroll_amount.x),
                y: sat_add64(self.offset.y, overscroll_amount.y),
            },
        };
    }

    /// Takes one step of the external spring integrator back into the scroll
    /// state: the integrator's position becomes the offset, and a finished
    /// animation clears `bouncing_back`.
    pub fn tick_scrolling_bounce_animation(&mut self, spring_position: LayerPoint, finished: bool)
        ensures
            *final(self) == (ScrollingState {
                offset: LayerVector2D { x: spring_position.x, y: spring_position.y },
                spring: SpringCoords { current: spring_position, ..old(self).spring },
                bouncing_back: if finished { false } else { old(self).bouncing_back },
                ..*old(self)
            }),
    {
        self.spring = SpringCoords { current: spring_position, ..self.spring };
        self.offset = spring_position.to_vector();
        if finished {
            self.bouncing_back = false;
        }
    }

    /// How far past the scrollable range the offset sits, per axis.
    pub fn overscroll_amount(&self) -> (r: LayerVector2D)
        ensures
            r == overscroll_spec(*self),
    {
        let overscroll_x = if self.offset.x > 0 {
            sat_neg64(self.offset.x)
        } else {
            let low = sat_neg64(self.scrollable_size.width);
            if self.offset.x < low {
                sat_sub64(low, self.offset.x)
            } else {
                0
            }
        };
        let overscroll_y = if self.offset.y > 0 {
            sat_neg64(self.offset.y)
        } else {
            let low = sat_neg64(self.scrollable_size.height);
            if self.offset.y < low {
                sat_sub64(low, self.offset.y)
            } else {
                0
            }
        };
        LayerVector2D { x: overscroll_x, y: overscroll_y }
    }

    /// Whether the offset sits outside the scrollable range on some axis.
    pub fn is_overscrolling(&self) -> (r: bool)
        ensures
            r == (overscroll_spec(*self) != (LayerVector2D { x: 0i64, y: 0i64 })),
    {
        let amount = self.overscroll_amount();
        amount.x != 0 || amount.y != 0
    }
}

} // verus!
