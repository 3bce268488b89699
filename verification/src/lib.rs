//! Camera navigation and display settings for an interactive globe viewer.
//!
//! The globe sits at the origin of the scene and the camera orbits it, always
//! facing the centre. This crate holds the rules of that viewer: how far a
//! scroll event moves the camera, which rotation a pointer drag asks for, how
//! an animated flight to a place starts, advances and ends, how the displayed
//! month cycles, and which overlays are drawn. Rendering, input delivery and
//! vector arithmetic belong to the host application, which hands this crate
//! plain numbers and applies what it gets back.
//!
//! Every quantity is held in fixed point with six decimal places (see
//! [`fixed::MICRO`]): distances in millionths of a scene unit, angles in
//! microradians or microdegrees, scroll and drag amounts in millionths of a
//! line or pixel, cosines in millionths. Times are whole microseconds or
//! nanoseconds, as each function says.

pub mod fixed;
pub mod months;
pub mod navigation;
pub mod places;
pub mod settings;
pub mod wireframes;

pub use fixed::MICRO;
pub use months::{texture_path, texture_paths, CycleTimer, MonthState};
pub use navigation::{
    apply_drag, apply_zoom, rotate_on_drag, scroll_events, CursorOverEntity, DragRotation,
    ScrollEvent, ScrollUnit, ZoomConfig,
};
pub use places::{
    camera_arrival, camera_movement, move_camera, FlyStep, MovementState, NavigateTo, Place,
};
pub use settings::GlobalState;
pub use wireframes::{draw_equator, toggle_wireframe, EquatorSegment, WireframeState};
