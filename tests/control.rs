use roland::control::{distance_drive, next_line_state, DistanceKeeper, LineFollower, LineState};
use roland::message::SerialCMD;
use roland::pid::PID;

#[test]
fn pid_first_step_is_proportional() {
    let mut pid = PID::new(2, 0, 0, 0, 0, 50);
    assert_eq!(pid.step(40, 0), 20);
}

#[test]
fn pid_first_step_ignores_integral_and_derivative_gains() {
    let mut pid = PID::new(2, 7, 9, -5, 5, 50);
    assert_eq!(pid.step(40, 1234), 20);
}

#[test]
fn pid_later_steps_add_integral_and_derivative() {
    let mut pid = PID::new(2, 1, 1, -5, 5, 50);
    assert_eq!(pid.step(40, 1000), 20);
    // e goes 10 -> 5 over 500 ms: integral 2500 ms (2 after flooring to seconds), derivative -10/s
    assert_eq!(pid.step(45, 1500), 10 + 2 - 10);
    // e goes 5 -> 30 over 1 s: the integral is clamped to 5 s, derivative 25/s
    assert_eq!(pid.step(20, 2500), 60 + 5 + 25);
}

#[test]
fn pid_derivative_uses_previous_error() {
    let mut pid = PID::new(0, 0, 1, -5, 5, 50);
    assert_eq!(pid.step(40, 0), 0);
    assert_eq!(pid.step(40, 1000), 0);
}

#[test]
fn pid_bounds_need_not_straddle_zero() {
    let mut pid = PID::new(0, 1, 0, 2, 3, 10);
    assert_eq!(pid.step(10, 0), 0);
    assert_eq!(pid.step(10, 1000), 2);
}

#[test]
fn pid_rounds_negative_terms_down() {
    let mut pid = PID::new(0, 1, 0, -5, 5, 0);
    assert_eq!(pid.step(0, 0), 0);
    assert_eq!(pid.step(3, 500), -2);
}

#[test]
fn pid_without_elapsed_time_has_no_derivative() {
    let mut pid = PID::new(1, 0, 1000, -5, 5, 10);
    assert_eq!(pid.step(0, 100), 10);
    assert_eq!(pid.step(5, 100), 5);
}

#[test]
fn line_follower_commits_to_left_turn() {
    let mut s = LineState::Unknown;
    s = next_line_state(s, false, false);
    assert_eq!(s, LineState::OnLine);
    s = next_line_state(s, true, false);
    assert_eq!(s, LineState::HalfLeft);
    s = next_line_state(s, true, true);
    assert_eq!(s, LineState::Left);
    s = next_line_state(s, true, true);
    assert_eq!(s, LineState::Left);
}

#[test]
fn line_follower_transition_table() {
    assert_eq!(next_line_state(LineState::Left, false, true), LineState::HalfRight);
    assert_eq!(next_line_state(LineState::OnLine, true, true), LineState::Unknown);
    assert_eq!(next_line_state(LineState::HalfRight, true, true), LineState::Right);
    assert_eq!(next_line_state(LineState::Right, true, true), LineState::Right);
    assert_eq!(next_line_state(LineState::Unknown, true, true), LineState::Unknown);
}

#[test]
fn line_follower_emits_only_on_change() {
    let mut f = LineFollower::new(80);
    let cmds = f.step([false, true, false, true]);
    assert_eq!(f.state(), LineState::OnLine);
    assert_eq!(cmds, vec![SerialCMD::HBridge((47185, 47185)), SerialCMD::LED((0, 255, 0))]);
    assert_eq!(f.step([false, false, false, false]), vec![]);
    let cmds = f.step([true, false, false, false]);
    assert_eq!(cmds, vec![SerialCMD::HBridge((52428, 39321)), SerialCMD::LED((128, 128, 0))]);
    let cmds = f.step([true, false, true, false]);
    assert_eq!(f.state(), LineState::Left);
    assert_eq!(cmds, vec![SerialCMD::HBridge((52428, -39321)), SerialCMD::LED((255, 0, 0))]);
}

#[test]
fn line_follower_stops_when_lost() {
    let mut f = LineFollower::new(100);
    let cmds = f.step([true, false, true, false]);
    assert_eq!(f.state(), LineState::Unknown);
    assert_eq!(cmds, vec![SerialCMD::HBridge((0, 0)), SerialCMD::LED((255, 255, 255))]);
    let cmds = f.step([false, false, true, false]);
    assert_eq!(cmds, vec![SerialCMD::HBridge((49151, 65535)), SerialCMD::LED((0, 128, 128))]);
}

#[test]
fn drive_mapping() {
    assert_eq!(distance_drive(0), 0);
    assert_eq!(distance_drive(5000), -25000);
    assert_eq!(distance_drive(-10), 20010);
    assert_eq!(distance_drive(-180000), 52428);
    assert_eq!(distance_drive(180000), -52428);
    assert_eq!(distance_drive(-32428), 52428);
}

#[test]
fn keep_distance_steps() {
    let mut k = DistanceKeeper::new(40);
    assert_eq!(k.step(Some(30), 0), SerialCMD::HBridge((-25000, -25000)));
    let mut k = DistanceKeeper::new(40);
    assert_eq!(k.step(None, 0), SerialCMD::HBridge((0, 0)));
    let mut k = DistanceKeeper::new(40);
    assert_eq!(k.step(Some(400), 0), SerialCMD::HBridge((52428, 52428)));
}
