//! Animated flights of the camera to a place on the globe.
//!
//! A flight is requested with a [`NavigateTo`]. Each frame the host measures
//! how well the camera's direction agrees with the target's and asks
//! [`camera_movement`] what to do; after turning the camera it reports the
//! remaining distance to [`camera_arrival`]. A held left button suspends the
//! flight, so that dragging always wins.

use vstd::prelude::*;
use crate::fixed::MICRO;
use crate::navigation::{drag_on_frame, drag_rotation, ROTATION_SENSITIVITY};

verus! {

/// A request to fly the camera above a place, given in microdegrees of
/// latitude and longitude.
#[derive(Clone, Copy, Debug, PartialEq, Eq, Structural)]
pub struct NavigateTo {
    pub lat: i64,
    pub lon: i64,
}

impl NavigateTo {
    /// Latitude within 90 degrees of the equator and longitude within 180
    /// degrees of the prime meridian.
    pub open spec fn in_range(&self) -> bool {
        &&& -90 * MICRO <= self.lat <= 90 * MICRO
        &&& -180 * MICRO <= self.lon <= 180 * MICRO
    }

    /// Whether the coordinates are geographic ones.
    pub fn is_in_range(&self) -> (b: bool)
        ensures
            b == self.in_range(),
    {
        -90_000_000 <= self.lat && self.lat <= 90_000_000 && -180_000_000 <= self.lon && self.lon
            <= 180_000_000
    }
}

/// The flight in progress, if any: the last requested target and whether the
/// camera is still on its way there.
#[derive(Clone, Copy, Debug, PartialEq, Eq, Structural)]
pub struct MovementState {
    pub lat: i64,
    pub lon: i64,
    pub moving_requested: bool,
}

impl MovementState {
    /// The place the camera was last sent to.
    pub open spec fn target(&self) -> NavigateTo {
        NavigateTo { lat: self.lat, lon: self.lon }
    }

    /// The state after a navigation request: the request becomes the target
    /// and the flight is active, whatever was going on before.
    pub open spec fn requested(self, navigation: NavigateTo) -> MovementState {
        MovementState { lat: navigation.lat, lon: navigation.lon, moving_requested: true }
    }

    /// The state after a frame in which the host has measured `alignment`,
    /// the cosine of the angle between the camera's direction and the
    /// target's, in millionths: an advancing flight is over once the
    /// alignment exceeds the threshold.
    pub open spec fn aligned(self, left_pressed: bool, alignment: int) -> MovementState {
        if self.advances(left_pressed) && alignment > ALIGNMENT_THRESHOLD {
            MovementState { moving_requested: false, ..self }
        } else {
            self
        }
    }

    /// The state after the camera was turned and is `distance` millionths of
    /// a scene unit away from the point above the target.
    pub open spec fn arrived(self, distance: int) -> MovementState {
        if distance < ARRIVAL_DISTANCE {
            MovementState { moving_requested: false, ..self }
        } else {
            self
        }
    }

    /// Whether the flight advances this frame: one is active and the left
    /// button is not held.
    pub open spec fn advances(&self, left_pressed: bool) -> bool {
        self.moving_requested && !left_pressed
    }

    /// The state at the end of a frame in which `alignment` was measured
    /// before the turn and `distance` after it. The distance counts only if
    /// the camera was turned.
    pub open spec fn after_frame(
        self,
        left_pressed: bool,
        alignment: int,
        distance: int,
    ) -> MovementState {
        if self.advances(left_pressed) && alignment <= ALIGNMENT_THRESHOLD {
            self.arrived(distance)
        } else {
            self.aligned(left_pressed, alignment)
        }
    }

    /// The place the camera was last sent to.
    pub fn current_target(&self) -> (r: NavigateTo)
        ensures
            r == self.target(),
    {
        NavigateTo { lat: self.lat, lon: self.lon }
    }

    /// Whether the flight advances this frame.
    pub fn camera_movement_runs(&self, left_pressed: bool) -> (b: bool)
        ensures
            b == self.advances(left_pressed),
    {
        self.moving_requested && !left_pressed
    }
}

impl Default for MovementState {
    /// No flight, with the target at latitude 0 and longitude 0.
    fn default() -> (r: MovementState)
        ensures
            r == (MovementState { lat: 0, lon: 0, moving_requested: false }),
    {
        MovementState { lat: 0, lon: 0, moving_requested: false }
    }
}

/// The flight ends once the cosine between the camera's direction and the
/// target's exceeds this many millionths.
pub const ALIGNMENT_THRESHOLD: i64 = 999_900;

/// The flight ends once the camera is closer than this many millionths of a
/// scene unit to the point above the target.
pub const ARRIVAL_DISTANCE: i64 = 50_000;

/// Share of the remaining arc covered per second of frame time.
pub const SPEED: u64 = 3;

/// The share of the remaining arc to cover in a frame of `delta_micros`
/// microseconds, in millionths: the speed times the frame time, and never
/// more than the whole arc.
pub open spec fn interpolation_fraction(delta_micros: int) -> int {
    if SPEED * delta_micros < MICRO {
        SPEED * delta_micros
    } else {
        MICRO as int
    }
}

/// What the flight asks of the camera in one frame.
#[derive(Clone, Copy, Debug, PartialEq, Eq, Structural)]
pub enum FlyStep {
    /// No flight is active, or the left button is held: the flight does not
    /// touch the camera.
    Hold,
    /// The camera already points at the target: leave it alone.
    Arrived,
    /// Turn the camera along the shortest arc toward the target, by
    /// `fraction` millionths of that arc.
    Turn { fraction: u64 },
}

/// The step of a frame of `delta_micros` microseconds in which `alignment`
/// was measured.
pub open spec fn fly_step(
    state: MovementState,
    left_pressed: bool,
    alignment: int,
    delta_micros: int,
) -> FlyStep {
    if !state.advances(left_pressed) {
        FlyStep::Hold
    } else if alignment > ALIGNMENT_THRESHOLD {
        FlyStep::Arrived
    } else {
        FlyStep::Turn { fraction: interpolation_fraction(delta_micros) as u64 }
    }
}

/// Takes a navigation request: its target replaces the current one at once
/// and the flight is active.
pub fn move_camera(navigation: &NavigateTo, state: &mut MovementState)
    ensures
        *final(state) == old(state).requested(*navigation),
{
    state.lat = navigation.lat;
    state.lon = navigation.lon;
    state.moving_requested = true;
}

/// The share of the remaining arc to cover in a frame of `delta_micros`
/// microseconds.
pub fn frame_fraction(delta_micros: u64) -> (t: u64)
    ensures
        t == interpolation_fraction(delta_micros as int),
        t <= MICRO,
{
    if delta_micros >= 333_334 {
        1_000_000
    } else {
        SPEED * delta_micros
    }
}

/// Advances the flight by one frame. `alignment` is the cosine of the angle
/// between the camera's direction and the target's, in millionths. Without
/// an active flight, or while the left button is held, nothing happens. Above
/// the alignment threshold the flight is over and the camera stays; otherwise
/// the camera is to be turned toward the target by the returned share of the
/// arc.
pub fn camera_movement(
    state: &mut MovementState,
    left_pressed: bool,
    alignment: i64,
    delta_micros: u64,
) -> (step: FlyStep)
    ensures
        *final(state) == old(state).aligned(left_pressed, alignment as int),
        step == fly_step(*old(state), left_pressed, alignment as int, delta_micros as int),
        step is Turn ==> *final(state) == *old(state),
        left_pressed ==> step == FlyStep::Hold && *final(state) == *old(state),
{
    if !state.camera_movement_runs(left_pressed) {
        return FlyStep::Hold;
    }
    if alignment > ALIGNMENT_THRESHOLD {
        state.moving_requested = false;
        return FlyStep::Arrived;
    }
    FlyStep::Turn { fraction: frame_fraction(delta_micros) }
}

/// Ends the flight if, after the turn, the camera is within the arrival
/// distance of the point above the target. `distance` is in millionths of a
/// scene unit. The host calls this after a [`FlyStep::Turn`]; the frame as a
/// whole then ends in [`MovementState::after_frame`].
pub fn camera_arrival(state: &mut MovementState, distance: i64)
    ensures
        *final(state) == old(state).arrived(distance as int),
{
    if distance < ARRIVAL_DISTANCE {
        state.moving_requested = false;
    }
}

/// A second navigation request leaves no trace of the first: the state is
/// the one that the second request alone would have produced, with the
/// second target and an active flight.
pub proof fn lemma_request_overwrites(state: MovementState, first: NavigateTo, second: NavigateTo)
    ensures
        state.requested(first).requested(second) == state.requested(second),
        state.requested(first).requested(second).target() == second,
        state.requested(first).requested(second).moving_requested,
{
}

/// A flight only ever ends: neither measuring the alignment nor reporting
/// the distance changes the target or starts a flight.
pub proof fn lemma_flight_only_ends(
    state: MovementState,
    left_pressed: bool,
    alignment: int,
    distance: int,
)
    ensures
        state.aligned(left_pressed, alignment).target() == state.target(),
        state.arrived(distance).target() == state.target(),
        state.aligned(left_pressed, alignment).moving_requested ==> state.moving_requested,
        state.arrived(distance).moving_requested ==> state.moving_requested,
{
}

/// A flight that advances has two ways to end, and either one is enough: the
/// alignment measured before the turn exceeds its threshold, or the distance
/// measured after the turn is under the arrival distance. The two checks are
/// independent, so near a pole or at a small radius one can end the flight
/// while the other would not.
pub proof fn lemma_either_check_ends_the_flight(
    state: MovementState,
    alignment: int,
    distance: int,
)
    requires
        state.moving_requested,
    ensures
        state.after_frame(false, alignment, distance).moving_requested <==> alignment
            <= ALIGNMENT_THRESHOLD && distance >= ARRIVAL_DISTANCE,
        state.after_frame(false, alignment, distance).target() == state.target(),
{
}

/// A frame never covers more than the whole remaining arc, and a frame that
/// takes time covers some of it.
pub proof fn lemma_fraction_bounds(delta_micros: int)
    requires
        0 <= delta_micros,
    ensures
        0 <= interpolation_fraction(delta_micros) <= MICRO,
        delta_micros > 0 ==> interpolation_fraction(delta_micros) > 0,
{
}

/// Dragging wins over flying: while the left button is held the flight
/// neither moves the camera nor changes its own state, whatever alignment is
/// measured, and with the pointer over the globe the camera follows the drag.
pub proof fn lemma_drag_precedence(
    state: MovementState,
    cursor_over: bool,
    delta_x: int,
    delta_y: int,
    alignment: int,
    delta_micros: int,
)
    ensures
        fly_step(state, true, alignment, delta_micros) == FlyStep::Hold,
        state.aligned(true, alignment) == state,
        cursor_over ==> drag_on_frame(cursor_over, true, delta_x, delta_y) == Some(
            drag_rotation(delta_x, delta_y, ROTATION_SENSITIVITY as int),
        ),
{
}

/// The places offered as navigation presets.
#[derive(Clone, Copy, Debug, PartialEq, Eq, Structural)]
pub enum Place {
    Belgium,
    Madagascar,
    Australia,
    Iceland,
    Chile,
    Kansas,
}

impl Place {
    /// The navigation request that the preset stands for.
    pub open spec fn request(self) -> NavigateTo {
        match self {
            Place::Belgium => NavigateTo { lat: 50_702_400, lon: 4_728_100 },
            Place::Madagascar => NavigateTo { lat: -19_658_700i64, lon: 46_524_500 },
            Place::Australia => NavigateTo { lat: -25_822_600i64, lon: 134_171_900 },
            Place::Iceland => NavigateTo { lat: 64_888_100, lon: -18_420_300i64 },
            Place::Chile => NavigateTo { lat: -26_295_800i64, lon: -70_030_700i64 },
            Place::Kansas => NavigateTo { lat: 38_448_600, lon: -98_465_800i64 },
        }
    }

    /// The navigation request that the preset stands for.
    pub fn navigate_to(self) -> (r: NavigateTo)
        ensures
            r == self.request(),
            r.in_range(),
    {
        match self {
            Place::Belgium => NavigateTo { lat: 50_702_400, lon: 4_728_100 },
            Place::Madagascar => NavigateTo { lat: -19_658_700, lon: 46_524_500 },
            Place::Australia => NavigateTo { lat: -25_822_600, lon: 134_171_900 },
            Place::Iceland => NavigateTo { lat: 64_888_100, lon: -18_420_300 },
            Place::Chile => NavigateTo { lat: -26_295_800, lon: -70_030_700 },
            Place::Kansas => NavigateTo { lat: 38_448_600, lon: -98_465_800 },
        }
    }

    /// The name shown for the preset.
    pub fn label(self) -> (r: &'static str)
        ensures
            r@ == self.name(),
    {
        match self {
            Place::Belgium => "Belgium",
            Place::Madagascar => "Madagascar",
            Place::Australia => "Australia",
            Place::Iceland => "Iceland",
            Place::Chile => "Chile",
            Place::Kansas => "Kansas",
        }
    }

    /// The name shown for the preset.
    pub open spec fn name(self) -> Seq<char> {
        match self {
            Place::Belgium => "Belgium"@,
            Place::Madagascar => "Madagascar"@,
            Place::Australia => "Australia"@,
            Place::Iceland => "Iceland"@,
            Place::Chile => "Chile"@,
            Place::Kansas => "Kansas"@,
        }
    }

    /// The presets in the order in which they are offered.
    pub fn all() -> (r: Vec<Place>)
        ensures
            r@ == seq![
                Place::Belgium,
                Place::Madagascar,
                Place::Australia,
                Place::Iceland,
                Place::Chile,
                Place::Kansas,
            ],
    {
        vec![
            Place::Belgium,
            Place::Madagascar,
            Place::Australia,
            Place::Iceland,
            Place::Chile,
            Place::Kansas,
        ]
    }
}

/// Every preset is a geographic coordinate.
pub proof fn lemma_presets_in_range(place: Place)
    ensures
        place.request().in_range(),
{
}

} // verus!
