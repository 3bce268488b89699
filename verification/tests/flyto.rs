use glam::{Quat, Vec3};
use globe_viewer::places::{
    frame_fraction, ALIGNMENT_THRESHOLD, ARRIVAL_DISTANCE, SPEED,
};
use globe_viewer::{
    camera_arrival, camera_movement, move_camera, rotate_on_drag, CursorOverEntity, FlyStep,
    MovementState, NavigateTo, Place,
};

#[test]
fn no_flight_at_start() {
    let s = MovementState::default();
    assert_eq!(s, MovementState { lat: 0, lon: 0, moving_requested: false });
    assert_eq!(s.current_target(), NavigateTo { lat: 0, lon: 0 });
    assert!(!s.camera_movement_runs(false));
}

#[test]
fn flight_constants() {
    assert_eq!(ALIGNMENT_THRESHOLD, 999_900);
    assert_eq!(ARRIVAL_DISTANCE, 50_000);
    assert_eq!(SPEED, 3);
}

#[test]
fn request_starts_a_flight() {
    let mut s = MovementState::default();
    move_camera(&NavigateTo { lat: 50_702_400, lon: 4_728_100 }, &mut s);
    assert_eq!(s, MovementState { lat: 50_702_400, lon: 4_728_100, moving_requested: true });
    assert!(s.camera_movement_runs(false));
}

#[test]
fn second_request_overwrites_the_first() {
    let first = Place::Belgium.navigate_to();
    let second = Place::Australia.navigate_to();
    let mut twice = MovementState::default();
    move_camera(&first, &mut twice);
    move_camera(&second, &mut twice);
    let mut once = MovementState::default();
    move_camera(&second, &mut once);
    assert_eq!(twice, once);
    assert_eq!(twice.current_target(), second);
    assert!(twice.moving_requested);
}

#[test]
fn request_restarts_a_finished_flight() {
    let mut s = MovementState { lat: 1, lon: 2, moving_requested: false };
    move_camera(&NavigateTo { lat: 3, lon: 4 }, &mut s);
    assert_eq!(s, MovementState { lat: 3, lon: 4, moving_requested: true });
}

#[test]
fn coordinates_in_and_out_of_range() {
    assert!(NavigateTo { lat: 90_000_000, lon: -180_000_000 }.is_in_range());
    assert!(NavigateTo { lat: -90_000_000, lon: 180_000_000 }.is_in_range());
    assert!(NavigateTo { lat: 0, lon: 0 }.is_in_range());
    assert!(!NavigateTo { lat: 90_000_001, lon: 0 }.is_in_range());
    assert!(!NavigateTo { lat: -90_000_001, lon: 0 }.is_in_range());
    assert!(!NavigateTo { lat: 0, lon: 180_000_001 }.is_in_range());
    assert!(!NavigateTo { lat: 0, lon: -180_000_001 }.is_in_range());
}

#[test]
fn fraction_is_three_times_the_frame_time() {
    assert_eq!(frame_fraction(0), 0);
    assert_eq!(frame_fraction(1), 3);
    assert_eq!(frame_fraction(16_667), 50_001);
    assert_eq!(frame_fraction(333_333), 999_999);
}

#[test]
fn fraction_never_exceeds_the_whole_arc() {
    assert_eq!(frame_fraction(333_334), 1_000_000);
    assert_eq!(frame_fraction(500_000), 1_000_000);
    assert_eq!(frame_fraction(u64::MAX), 1_000_000);
}

#[test]
fn aligned_camera_ends_the_flight() {
    let mut s = MovementState { lat: 5, lon: 6, moving_requested: true };
    let step = camera_movement(&mut s, false, 999_901, 16_667);
    assert_eq!(step, FlyStep::Arrived);
    assert_eq!(s, MovementState { lat: 5, lon: 6, moving_requested: false });
    let mut s = MovementState { lat: 5, lon: 6, moving_requested: true };
    assert_eq!(camera_movement(&mut s, false, i64::MAX, 16_667), FlyStep::Arrived);
    assert!(!s.moving_requested);
}

#[test]
fn alignment_at_the_threshold_keeps_flying() {
    let mut s = MovementState { lat: 5, lon: 6, moving_requested: true };
    let step = camera_movement(&mut s, false, 999_900, 16_667);
    assert_eq!(step, FlyStep::Turn { fraction: 50_001 });
    assert_eq!(s, MovementState { lat: 5, lon: 6, moving_requested: true });
}

#[test]
fn opposite_direction_turns() {
    let mut s = MovementState { lat: 5, lon: 6, moving_requested: true };
    let step = camera_movement(&mut s, false, -1_000_000, 1_000_000);
    assert_eq!(step, FlyStep::Turn { fraction: 1_000_000 });
    assert!(s.moving_requested);
}

#[test]
fn arrival_distance_ends_the_flight() {
    let mut s = MovementState { lat: 5, lon: 6, moving_requested: true };
    camera_arrival(&mut s, 50_000);
    assert_eq!(s, MovementState { lat: 5, lon: 6, moving_requested: true });
    camera_arrival(&mut s, 49_999);
    assert_eq!(s, MovementState { lat: 5, lon: 6, moving_requested: false });
    camera_arrival(&mut s, 1_000_000);
    assert_eq!(s, MovementState { lat: 5, lon: 6, moving_requested: false });
}

#[test]
fn idle_state_holds() {
    let mut s = MovementState { lat: 5, lon: 6, moving_requested: false };
    assert_eq!(camera_movement(&mut s, false, 0, 16_667), FlyStep::Hold);
    assert_eq!(camera_movement(&mut s, false, 999_999, 16_667), FlyStep::Hold);
    assert_eq!(camera_movement(&mut s, true, 0, 16_667), FlyStep::Hold);
    assert_eq!(s, MovementState { lat: 5, lon: 6, moving_requested: false });
}

#[test]
fn held_button_holds_even_when_aligned() {
    let mut s = MovementState { lat: 5, lon: 6, moving_requested: true };
    assert_eq!(camera_movement(&mut s, true, 1_000_000, 16_667), FlyStep::Hold);
    assert_eq!(camera_movement(&mut s, true, 0, 16_667), FlyStep::Hold);
    assert_eq!(s, MovementState { lat: 5, lon: 6, moving_requested: true });
}

#[test]
fn either_check_ends_the_flight() {
    // aligned before the turn, far away
    let mut s = MovementState { lat: 5, lon: 6, moving_requested: true };
    assert_eq!(camera_movement(&mut s, false, 999_950, 16_667), FlyStep::Arrived);
    assert!(!s.moving_requested);
    // not aligned, but close after the turn
    let mut s = MovementState { lat: 5, lon: 6, moving_requested: true };
    assert_eq!(camera_movement(&mut s, false, 999_000, 16_667), FlyStep::Turn { fraction: 50_001 });
    camera_arrival(&mut s, 10_000);
    assert!(!s.moving_requested);
    // neither: the flight goes on
    let mut s = MovementState { lat: 5, lon: 6, moving_requested: true };
    assert_eq!(camera_movement(&mut s, false, 999_000, 16_667), FlyStep::Turn { fraction: 50_001 });
    camera_arrival(&mut s, 60_000);
    assert!(s.moving_requested);
}

#[test]
fn held_button_suspends_the_flight() {
    let mut s = MovementState::default();
    move_camera(&Place::Iceland.navigate_to(), &mut s);
    assert!(s.camera_movement_runs(false));
    assert!(!s.camera_movement_runs(true));
    // and the drag is what the frame does
    let over = CursorOverEntity(true);
    assert!(rotate_on_drag(&over, true, 3_000_000, 0).is_some());
    // the suspended flight is still pending
    assert!(s.moving_requested);
}

#[test]
fn presets() {
    assert_eq!(Place::Belgium.navigate_to(), NavigateTo { lat: 50_702_400, lon: 4_728_100 });
    assert_eq!(Place::Madagascar.navigate_to(), NavigateTo { lat: -19_658_700, lon: 46_524_500 });
    assert_eq!(Place::Australia.navigate_to(), NavigateTo { lat: -25_822_600, lon: 134_171_900 });
    assert_eq!(Place::Iceland.navigate_to(), NavigateTo { lat: 64_888_100, lon: -18_420_300 });
    assert_eq!(Place::Chile.navigate_to(), NavigateTo { lat: -26_295_800, lon: -70_030_700 });
    assert_eq!(Place::Kansas.navigate_to(), NavigateTo { lat: 38_448_600, lon: -98_465_800 });
}

#[test]
fn preset_labels_and_order() {
    let all = Place::all();
    let labels: Vec<&str> = all.iter().map(|p| p.label()).collect();
    assert_eq!(labels, vec!["Belgium", "Madagascar", "Australia", "Iceland", "Chile", "Kansas"]);
    for p in all {
        assert!(p.navigate_to().is_in_range());
    }
}

fn to_cartesian(lat: f32, lon: f32, radius: f32) -> Vec3 {
    let lat = lat.to_radians();
    let lon = lon.to_radians();
    Vec3::new(-radius * lat.cos() * lon.cos(), -radius * lat.cos() * lon.sin(), radius * lat.sin())
}

fn degrees(micro: i64) -> f32 {
    micro as f32 / 1.0e6
}

fn micro(x: f32) -> i64 {
    (x as f64 * 1.0e6).round() as i64
}

/// One frame of a flight, with the vector arithmetic done as a host would.
fn fly_frame(state: &mut MovementState, position: Vec3, delta_micros: u64) -> Vec3 {
    fly_frame_with_button(state, false, position, delta_micros)
}

fn fly_frame_with_button(
    state: &mut MovementState,
    left_pressed: bool,
    position: Vec3,
    delta_micros: u64,
) -> Vec3 {
    let target = state.current_target();
    let target_position = to_cartesian(degrees(target.lat), degrees(target.lon), position.length());
    let current_dir = position.normalize();
    let target_dir = target_position.normalize();
    let alignment = micro(current_dir.dot(target_dir));
    match camera_movement(state, left_pressed, alignment, delta_micros) {
        FlyStep::Hold => position,
        FlyStep::Arrived => position,
        FlyStep::Turn { fraction } => {
            let rotation = Quat::from_rotation_arc(current_dir, target_dir);
            let partial = Quat::IDENTITY.slerp(rotation, fraction as f32 / 1.0e6);
            let moved = partial * position;
            camera_arrival(state, micro(moved.distance(target_position)));
            moved
        }
    }
}

#[test]
fn flight_converges_within_500_frames() {
    let mut state = MovementState::default();
    move_camera(&Place::Belgium.navigate_to(), &mut state);
    let mut position = to_cartesian(0.0, 0.0, 2.0);
    let mut frames = 0;
    while state.camera_movement_runs(false) && frames < 500 {
        position = fly_frame(&mut state, position, 16_667);
        frames += 1;
    }
    assert!(!state.moving_requested);
    assert!(frames < 500);
    let target_dir = to_cartesian(50.7024, 4.7281, 1.0).normalize();
    assert!(position.normalize().dot(target_dir) > 0.999);
    assert!((position.length() - 2.0).abs() < 1.0e-4);
}

#[test]
fn flight_from_the_start_pose_converges() {
    let mut state = MovementState::default();
    move_camera(&Place::Kansas.navigate_to(), &mut state);
    let mut position = Vec3::new(0.0, 0.0, 2.0);
    let mut frames = 0;
    while state.camera_movement_runs(false) && frames < 500 {
        position = fly_frame(&mut state, position, 16_667);
        frames += 1;
    }
    assert!(!state.moving_requested);
    let target_dir = to_cartesian(38.4486, -98.4658, 1.0).normalize();
    assert!(position.normalize().dot(target_dir) > 0.999);
}

#[test]
fn slow_frame_does_not_overshoot() {
    let mut state = MovementState::default();
    move_camera(&Place::Belgium.navigate_to(), &mut state);
    let position = fly_frame(&mut state, to_cartesian(0.0, 0.0, 2.0), 2_000_000);
    let target = to_cartesian(50.7024, 4.7281, 2.0);
    assert!(position.distance(target) < 1.0e-3);
    assert!(!state.moving_requested);
}

#[test]
fn overwritten_flight_heads_for_the_new_target() {
    let start = to_cartesian(0.0, 0.0, 2.0);
    let mut state = MovementState::default();
    move_camera(&Place::Belgium.navigate_to(), &mut state);
    let mut position = start;
    for _ in 0..10 {
        position = fly_frame(&mut state, position, 16_667);
    }
    assert!(state.moving_requested);
    move_camera(&Place::Australia.navigate_to(), &mut state);

    // a camera at the same place that was only ever sent to the second target
    let mut fresh = MovementState::default();
    move_camera(&Place::Australia.navigate_to(), &mut fresh);
    assert_eq!(state, fresh);
    let next = fly_frame(&mut state, position, 16_667);
    let next_fresh = fly_frame(&mut fresh, position, 16_667);
    assert_eq!(next, next_fresh);

    let australia = to_cartesian(-25.8226, 134.1719, 1.0).normalize();
    assert!(next.normalize().dot(australia) > position.normalize().dot(australia));
}

#[test]
fn dragging_frame_does_not_fly() {
    let mut state = MovementState::default();
    move_camera(&Place::Chile.navigate_to(), &mut state);
    let position = to_cartesian(0.0, 0.0, 2.0);
    let after = fly_frame_with_button(&mut state, true, position, 16_667);
    assert_eq!(after, position);
    assert_eq!(state.current_target(), Place::Chile.navigate_to());
    assert!(state.moving_requested);
}
