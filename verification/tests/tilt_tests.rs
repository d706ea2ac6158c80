use depth_track::tilt::settle_tilt;
use depth_track::tilt::tilt_target;
use depth_track::tilt::TiltEvent;

#[test]
fn tilt_up_then_down_restores_the_angle() {
    // From 0 degrees, "tilt up" aims at 5; a further "tilt down" goes back.
    let up = tilt_target(0, TiltEvent::Up);
    assert_eq!(up, 5);
    let state = settle_tilt(0, up, true);
    assert_eq!(state, 5);

    let down = tilt_target(state, TiltEvent::Down);
    assert_eq!(down, 0);
    let state = settle_tilt(state, down, true);
    assert_eq!(state, 0);
}

#[test]
fn rejected_command_leaves_tilt_unchanged() {
    let target = tilt_target(25, TiltEvent::Up);
    assert_eq!(target, 30);
    let state = settle_tilt(25, target, false);
    assert_eq!(state, 25);
}

#[test]
fn tilt_down_steps_by_five_degrees() {
    assert_eq!(tilt_target(0, TiltEvent::Down), -5);
    assert_eq!(tilt_target(-5, TiltEvent::Down), -10);
}
