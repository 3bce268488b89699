//! Debug overlays: the wireframe switch, the equator and the poles.

use vstd::prelude::*;

verus! {

/// Which overlays are shown.
#[derive(Clone, Copy, Debug, PartialEq, Eq, Structural)]
pub struct WireframeState {
    pub draw_wireframe: bool,
    pub draw_geographic_poles: bool,
    pub draw_magnetic_poles: bool,
    pub draw_equator: bool,
}

impl Default for WireframeState {
    /// Nothing is shown.
    fn default() -> (r: WireframeState)
        ensures
            r == (WireframeState {
                draw_wireframe: false,
                draw_geographic_poles: false,
                draw_magnetic_poles: false,
                draw_equator: false,
            }),
    {
        WireframeState {
            draw_wireframe: false,
            draw_geographic_poles: false,
            draw_magnetic_poles: false,
            draw_equator: false,
        }
    }
}

impl WireframeState {
    /// The state after the wireframe key was pressed: the wireframe switch
    /// is turned over and the overlays stay.
    pub open spec fn flipped(self) -> WireframeState {
        WireframeState { draw_wireframe: !self.draw_wireframe, ..self }
    }

    /// Turns the wireframe switch over, as a press of the space key does.
    pub fn flip_wireframe(&mut self)
        ensures
            *final(self) == old(self).flipped(),
    {
        self.draw_wireframe = !self.draw_wireframe;
    }
}

/// The renderer's global wireframe mode that goes with the settings.
pub fn toggle_wireframe(state: &WireframeState) -> (global: bool)
    ensures
        global == state.draw_wireframe,
{
    state.draw_wireframe
}

/// Pressing the wireframe key twice changes nothing.
pub proof fn lemma_flip_twice(state: WireframeState)
    ensures
        state.flipped().flipped() == state,
{
}

/// Number of straight segments that the equator is drawn with.
pub const EQUATOR_SEGMENTS: i64 = 64;

/// A full turn, in microdegrees.
pub const FULL_TURN: i64 = 360_000_000;

/// Radius of the globe, on which the equator is drawn, in millionths of a
/// scene unit.
pub const GLOBE_RADIUS: i64 = 500_000;

/// Angle between the magnetic and the geographic axis, in microdegrees.
pub const MAGNETIC_TILT: i64 = 11_500_000;

/// One straight piece of the equator, between two longitudes in microdegrees
/// at latitude 0.
#[derive(Clone, Copy, Debug, PartialEq, Eq, Structural)]
pub struct EquatorSegment {
    pub from_lon: i64,
    pub to_lon: i64,
}

/// The longitude at which segment `i` of the equator starts: that share of
/// the full turn.
pub open spec fn equator_longitude(i: int) -> int {
    i * FULL_TURN / (EQUATOR_SEGMENTS as int)
}

/// Segment `i` of the equator.
pub open spec fn equator_segment(i: int) -> EquatorSegment {
    EquatorSegment {
        from_lon: equator_longitude(i) as i64,
        to_lon: equator_longitude(i + 1) as i64,
    }
}

/// The segments with which the equator is drawn, eastward from longitude 0.
pub fn draw_equator() -> (r: Vec<EquatorSegment>)
    ensures
        r.len() == EQUATOR_SEGMENTS,
        forall|i: int| 0 <= i < EQUATOR_SEGMENTS ==> #[trigger] r[i] == equator_segment(i),
{
    let mut segments: Vec<EquatorSegment> = Vec::new();
    let mut i: i64 = 0;
    while i < EQUATOR_SEGMENTS
        invariant
            0 <= i <= EQUATOR_SEGMENTS,
            segments.len() == i,
            forall|j: int| 0 <= j < i ==> #[trigger] segments[j] == equator_segment(j),
        decreases EQUATOR_SEGMENTS - i,
    {
        let from_lon: i64 = i * FULL_TURN / EQUATOR_SEGMENTS;
        let to_lon: i64 = (i + 1) * FULL_TURN / EQUATOR_SEGMENTS;
        segments.push(EquatorSegment { from_lon, to_lon });
        i = i + 1;
    }
    segments
}

/// The segments of the equator are equally long, follow one another without
/// a gap and close the circle.
pub proof fn lemma_equator_closes(i: int)
    requires
        0 <= i < EQUATOR_SEGMENTS,
    ensures
        equator_segment(0).from_lon == 0,
        equator_segment(EQUATOR_SEGMENTS - 1).to_lon == FULL_TURN,
        equator_segment(i).to_lon - equator_segment(i).from_lon == 5_625_000,
        i + 1 < EQUATOR_SEGMENTS ==> equator_segment(i).to_lon == equator_segment(i + 1).from_lon,
{
}

} // verus!
