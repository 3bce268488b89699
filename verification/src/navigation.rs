//! Scroll-to-zoom and drag-to-orbit.

use vstd::prelude::*;
use crate::fixed::{clamp_int, clamp_to, trunc_div, MICRO};

verus! {

/// The unit in which a mouse wheel reports its movement.
#[derive(Clone, Copy, Debug, PartialEq, Eq, Structural)]
pub enum ScrollUnit {
    /// Whole lines or notches.
    Line,
    /// Pixels, as sent by touchpads and smooth wheels.
    Pixel,
}

/// One mouse-wheel event: `amount` is the vertical movement in millionths of
/// a line or pixel, positive when scrolling toward the globe.
#[derive(Clone, Copy, Debug, PartialEq, Eq, Structural)]
pub struct ScrollEvent {
    pub unit: ScrollUnit,
    pub amount: i64,
}

/// The camera's distance from the centre when the viewer starts, in
/// millionths of a scene unit.
pub const START_DISTANCE: i64 = 2_000_000;

/// How many pixels of scrolling move the camera by one scene unit.
pub const PIXELS_PER_UNIT: i64 = 300;

/// How many lines of scrolling move the camera by one scene unit.
pub const LINES_PER_UNIT: i64 = 10;

/// The radial change that a scroll movement asks for: a three-hundredth of a
/// pixel amount, a tenth of a line amount, rounded toward zero.
pub open spec fn scroll_amount(unit: ScrollUnit, amount: int) -> int {
    match unit {
        ScrollUnit::Pixel => trunc_div(amount, PIXELS_PER_UNIT as int),
        ScrollUnit::Line => trunc_div(amount, LINES_PER_UNIT as int),
    }
}

/// What a [`ZoomConfig`] holds, as plain numbers.
pub struct ZoomLimits {
    /// Closest distance from the centre, in millionths of a scene unit.
    pub min_radius: int,
    /// Farthest distance from the centre, in millionths of a scene unit.
    pub max_radius: int,
    /// When set, line-unit scroll events leave the distance alone.
    pub ignore_line_scroll: bool,
}

impl ZoomLimits {
    /// The limits are positive and ordered.
    pub open spec fn wf(self) -> bool {
        0 < self.min_radius <= self.max_radius
    }

    /// The distance that a scroll movement leads to from `distance`.
    pub open spec fn zoom_target(self, distance: int, unit: ScrollUnit, amount: int) -> int {
        if unit == ScrollUnit::Line && self.ignore_line_scroll {
            distance
        } else {
            clamp_int(distance - scroll_amount(unit, amount), self.min_radius, self.max_radius)
        }
    }

    /// The camera distance after one scroll event. A camera at the centre has
    /// no direction to move along and stays where it is.
    pub open spec fn zoom_step(self, distance: int, event: ScrollEvent) -> int {
        if distance > 0 {
            self.zoom_target(distance, event.unit, event.amount as int)
        } else {
            distance
        }
    }

    /// The camera distance after a run of scroll events, applied in order.
    pub open spec fn zoom_fold(self, distance: int, events: Seq<ScrollEvent>) -> int
        decreases events.len(),
    {
        if events.len() == 0 {
            distance
        } else {
            self.zoom_step(self.zoom_fold(distance, events.drop_last()), events.last())
        }
    }
}

/// The range of camera distances and the policy for line scrolling.
#[derive(Clone, Copy, Debug)]
pub struct ZoomConfig {
    min_radius: i64,
    max_radius: i64,
    ignore_line_scroll: bool,
}

impl View for ZoomConfig {
    type V = ZoomLimits;

    closed spec fn view(&self) -> ZoomLimits {
        ZoomLimits {
            min_radius: self.min_radius as int,
            max_radius: self.max_radius as int,
            ignore_line_scroll: self.ignore_line_scroll,
        }
    }
}

impl Default for ZoomConfig {
    /// Distances from 1 to 4 scene units, with line scrolling applied.
    fn default() -> (cfg: ZoomConfig)
        ensures
            cfg@ == (ZoomLimits {
                min_radius: 1_000_000,
                max_radius: 4_000_000,
                ignore_line_scroll: false,
            }),
    {
        ZoomConfig { min_radius: 1_000_000, max_radius: 4_000_000, ignore_line_scroll: false }
    }
}

impl ZoomConfig {
    #[verifier::type_invariant]
    closed spec fn inv(self) -> bool {
        self@.wf()
    }

    /// Builds a configuration, or `None` when the limits are not positive and
    /// ordered.
    pub fn new(min_radius: i64, max_radius: i64, ignore_line_scroll: bool) -> (r: Option<
        ZoomConfig,
    >)
        ensures
            r is Some <==> 0 < min_radius <= max_radius,
            r matches Some(cfg) ==> cfg@ == (ZoomLimits {
                min_radius: min_radius as int,
                max_radius: max_radius as int,
                ignore_line_scroll,
            }),
    {
        if 0 < min_radius && min_radius <= max_radius {
            Some(ZoomConfig { min_radius, max_radius, ignore_line_scroll })
        } else {
            None
        }
    }

    /// Closest distance from the centre, in millionths of a scene unit.
    pub fn min_radius(&self) -> (r: i64)
        ensures
            r == self@.min_radius,
            self@.wf(),
    {
        proof {
            use_type_invariant(self);
        }
        self.min_radius
    }

    /// Farthest distance from the centre, in millionths of a scene unit.
    pub fn max_radius(&self) -> (r: i64)
        ensures
            r == self@.max_radius,
            self@.wf(),
    {
        proof {
            use_type_invariant(self);
        }
        self.max_radius
    }

    /// Whether line-unit scroll events leave the distance alone.
    pub fn ignore_line_scroll(&self) -> (r: bool)
        ensures
            r == self@.ignore_line_scroll,
    {
        self.ignore_line_scroll
    }
}

/// The new distance of the camera from the centre after a scroll movement.
pub fn apply_zoom(
    cfg: &ZoomConfig,
    current_distance: i64,
    scroll_delta: i64,
    unit: ScrollUnit,
) -> (r: i64)
    ensures
        r == cfg@.zoom_target(current_distance as int, unit, scroll_delta as int),
        cfg@.min_radius <= current_distance <= cfg@.max_radius ==> cfg@.min_radius <= r
            <= cfg@.max_radius,
{
    proof {
        use_type_invariant(cfg);
    }
    match unit {
        ScrollUnit::Line => {
            if cfg.ignore_line_scroll {
                current_distance
            } else {
                let delta: i64 = scroll_delta / LINES_PER_UNIT;
                clamp_to(current_distance as i128 - delta as i128, cfg.min_radius, cfg.max_radius)
            }
        },
        ScrollUnit::Pixel => {
            let delta: i64 = scroll_delta / PIXELS_PER_UNIT;
            clamp_to(current_distance as i128 - delta as i128, cfg.min_radius, cfg.max_radius)
        },
    }
}

/// Applies the scroll events of one frame in the order they arrived, each
/// one clamped on its own, and returns the camera's new distance.
pub fn scroll_events(cfg: &ZoomConfig, current_distance: i64, events: &Vec<ScrollEvent>) -> (r:
    i64)
    ensures
        r == cfg@.zoom_fold(current_distance as int, events@),
{
    let mut distance: i64 = current_distance;
    let mut i: usize = 0;
    while i < events.len()
        invariant
            i <= events.len(),
            distance == cfg@.zoom_fold(current_distance as int, events@.take(i as int)),
        decreases events.len() - i,
    {
        let event = events[i];
        proof {
            assert(events@.take(i + 1).drop_last() == events@.take(i as int));
            assert(events@.take(i + 1).last() == event);
        }
        if distance > 0 {
            distance = apply_zoom(cfg, distance, event.amount, event.unit);
        }
        i = i + 1;
    }
    proof {
        assert(events@.take(events.len() as int) == events@);
    }
    distance
}

/// A scroll movement never takes a camera that is inside the configured range
/// out of it.
pub proof fn lemma_zoom_stays_in_range(
    limits: ZoomLimits,
    distance: int,
    unit: ScrollUnit,
    amount: int,
)
    requires
        limits.wf(),
        limits.min_radius <= distance <= limits.max_radius,
    ensures
        limits.min_radius <= limits.zoom_target(distance, unit, amount) <= limits.max_radius,
{
}

/// A camera inside the configured range is still inside it after any run of
/// scroll events.
pub proof fn lemma_scroll_events_stay_in_range(
    limits: ZoomLimits,
    distance: int,
    events: Seq<ScrollEvent>,
)
    requires
        limits.wf(),
        limits.min_radius <= distance <= limits.max_radius,
    ensures
        limits.min_radius <= limits.zoom_fold(distance, events) <= limits.max_radius,
    decreases events.len(),
{
    if events.len() > 0 {
        lemma_scroll_events_stay_in_range(limits, distance, events.drop_last());
    }
}

/// The scroll events of two frames move the camera as all of them would in
/// one frame.
pub proof fn lemma_scroll_events_compose(
    limits: ZoomLimits,
    distance: int,
    first: Seq<ScrollEvent>,
    second: Seq<ScrollEvent>,
)
    ensures
        limits.zoom_fold(distance, first + second) == limits.zoom_fold(
            limits.zoom_fold(distance, first),
            second,
        ),
    decreases second.len(),
{
    if second.len() == 0 {
        assert(first + second =~= first);
    } else {
        lemma_scroll_events_compose(limits, distance, first, second.drop_last());
        assert((first + second).drop_last() =~= first + second.drop_last());
        assert((first + second).last() == second.last());
    }
}

/// At the farthest distance, scrolling away from the globe changes nothing.
pub proof fn lemma_zoom_out_at_max_is_fixed(limits: ZoomLimits, unit: ScrollUnit, amount: int)
    requires
        limits.wf(),
        amount <= 0,
    ensures
        limits.zoom_target(limits.max_radius, unit, amount) == limits.max_radius,
{
}

/// At the closest distance, scrolling toward the globe changes nothing.
pub proof fn lemma_zoom_in_at_min_is_fixed(limits: ZoomLimits, unit: ScrollUnit, amount: int)
    requires
        limits.wf(),
        amount >= 0,
    ensures
        limits.zoom_target(limits.min_radius, unit, amount) == limits.min_radius,
{
}

/// Whether the pointer is over the globe, as told by the pointer entering
/// and leaving its surface.
#[derive(Clone, Copy, Debug, PartialEq, Eq, Structural)]
pub struct CursorOverEntity(pub bool);

impl CursorOverEntity {
    /// The pointer starts away from the globe.
    pub fn new() -> (r: CursorOverEntity)
        ensures
            !r.0,
    {
        CursorOverEntity(false)
    }

    /// The pointer has entered the globe's surface.
    pub fn pointer_over(&mut self)
        ensures
            final(self).0,
    {
        self.0 = true;
    }

    /// The pointer has left the globe's surface.
    pub fn pointer_out(&mut self)
        ensures
            !final(self).0,
    {
        self.0 = false;
    }
}

/// The rotation that a pointer drag asks for, as two angles in microradians:
/// `yaw` about the camera's up axis and `pitch` about its right axis. The
/// camera is turned about the centre by the product of the yaw rotation and
/// the pitch rotation, in this order.
#[derive(Clone, Copy, Debug, PartialEq, Eq, Structural)]
pub struct DragRotation {
    pub yaw: i64,
    pub pitch: i64,
}

/// Microradians of rotation per pixel of drag.
pub const ROTATION_SENSITIVITY: i64 = 5_000;

/// The angle for a drag of `delta` millionths of a pixel along one axis: the
/// drag times the sensitivity, negated, rounded toward zero and limited to
/// what the result type holds.
pub open spec fn drag_angle(delta: int, sensitivity: int) -> int {
    clamp_int(trunc_div(-(delta * sensitivity), MICRO as int), i64::MIN as int, i64::MAX as int)
}

/// The rotation for a drag of (`delta_x`, `delta_y`).
pub open spec fn drag_rotation(delta_x: int, delta_y: int, sensitivity: int) -> DragRotation {
    DragRotation {
        yaw: drag_angle(delta_x, sensitivity) as i64,
        pitch: drag_angle(delta_y, sensitivity) as i64,
    }
}

fn drag_axis_angle(delta: i64, sensitivity: i64) -> (r: i64)
    ensures
        r == drag_angle(delta as int, sensitivity as int),
{
    assert(-0x4000_0000_0000_0000_0000_0000_0000_0000 <= delta * sensitivity
        <= 0x4000_0000_0000_0000_0000_0000_0000_0000) by (nonlinear_arith)
        requires
            -0x8000_0000_0000_0000 <= delta <= 0x7fff_ffff_ffff_ffff,
            -0x8000_0000_0000_0000 <= sensitivity <= 0x7fff_ffff_ffff_ffff,
    ;
    let product: i128 = delta as i128 * sensitivity as i128;
    let turned: i128 = -product;
    clamp_to(turned / (MICRO as i128), i64::MIN, i64::MAX)
}

/// The rotation of the camera about the centre for a pointer drag of
/// (`delta_x`, `delta_y`) millionths of a pixel, at `sensitivity` microradians
/// per pixel.
pub fn apply_drag(delta_x: i64, delta_y: i64, sensitivity: i64) -> (r: DragRotation)
    ensures
        r == drag_rotation(delta_x as int, delta_y as int, sensitivity as int),
{
    DragRotation {
        yaw: drag_axis_angle(delta_x, sensitivity),
        pitch: drag_axis_angle(delta_y, sensitivity),
    }
}

/// What a frame's pointer movement does to the camera: the rotation to apply
/// while the left button is held over the globe, and nothing otherwise.
pub open spec fn drag_on_frame(
    cursor_over: bool,
    left_pressed: bool,
    delta_x: int,
    delta_y: int,
) -> Option<DragRotation> {
    if cursor_over && left_pressed {
        Some(drag_rotation(delta_x, delta_y, ROTATION_SENSITIVITY as int))
    } else {
        None
    }
}

/// Turns the accumulated pointer movement of one frame into a rotation of the
/// camera, provided the pointer is over the globe and the left button is held.
pub fn rotate_on_drag(
    cursor_over_entity: &CursorOverEntity,
    left_pressed: bool,
    delta_x: i64,
    delta_y: i64,
) -> (r: Option<DragRotation>)
    ensures
        r == drag_on_frame(cursor_over_entity.0, left_pressed, delta_x as int, delta_y as int),
{
    if !cursor_over_entity.0 {
        return None;
    }
    if !left_pressed {
        return None;
    }
    Some(apply_drag(delta_x, delta_y, ROTATION_SENSITIVITY))
}

} // verus!
