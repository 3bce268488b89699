//! All display settings of the viewer in one value.

use vstd::prelude::*;
use crate::months::{MonthSettings, MonthState};
use crate::wireframes::WireframeState;

verus! {

/// The settings of the viewer: the displayed month with its cycling, and
/// the overlays.
#[derive(Clone, Copy, Debug)]
pub struct GlobalState {
    pub months: MonthState,
    pub wireframes: WireframeState,
}

impl Default for GlobalState {
    /// January, cycling once a second, with no overlay shown.
    fn default() -> (r: GlobalState)
        ensures
            r.months@ == (MonthSettings { month: 1, cycle_month: true, cycle_duration: 1000 }),
            r.wireframes == (WireframeState {
                draw_wireframe: false,
                draw_geographic_poles: false,
                draw_magnetic_poles: false,
                draw_equator: false,
            }),
    {
        GlobalState { months: MonthState::default(), wireframes: WireframeState::default() }
    }
}

} // verus!
