use autoware_sentinel::chain::{ChainOutputs, ChainPhase};
use autoware_sentinel::endpoints::Source;
use autoware_sentinel::inputs::{Chore, Input};
use autoware_sentinel::island::{
    init_island, FollowerInput, Interval, Odometry, PlannedPoint, SafetyIsland, SensedAcceleration,
    SensedMotion, TrajectoryPoint, AUTOWARE_STATE_DRIVING,
};
use autoware_sentinel::messages::{AutowareState, Control, GearReport, Motion, Time, Vector3};
use autoware_sentinel::number::Real;
use autoware_sentinel::params::default_params;

fn num(x: f64) -> Real {
    Real::Double(x.to_bits())
}

fn island() -> SafetyIsland {
    SafetyIsland::new(default_params(true), 3).0
}

fn stamp(sec: i32, nanosec: u32) -> Time {
    Time { sec, nanosec }
}

fn motion(x: f64) -> Motion {
    Motion {
        linear: Vector3 { x: num(x), ..Vector3::unset() },
        ..Motion::unset()
    }
}

fn planned(x: f64, pitch: f64) -> PlannedPoint {
    PlannedPoint {
        point: TrajectoryPoint {
            x: num(x),
            y: num(0.5),
            z: num(0.25),
            yaw: num(1.0),
            longitudinal_velocity_mps: num(8.0),
            lateral_velocity_mps: num(0.0),
            acceleration_mps2: num(0.1),
            heading_rate_rps: num(0.0),
            front_wheel_angle_rad: num(0.0),
        },
        pitch: num(pitch),
    }
}

#[test]
fn new_island_stands_and_is_not_engaged() {
    let (i, setup) = SafetyIsland::new(default_params(false), 10);
    assert!(i.is_stopped);
    assert!(!i.controller);
    assert!(!i.autonomous_engaged);
    assert!(!i.external_emergency_stop);
    assert!(!i.has_external_control);
    assert_eq!(i.autoware_state.state, AUTOWARE_STATE_DRIVING);
    assert_eq!(AUTOWARE_STATE_DRIVING, 5);
    assert_eq!(i.current_velocity, Real::zero());
    assert_eq!(i.accel_covariance, [Real::zero(); 36]);
    assert_eq!(i.phase, ChainPhase::Idle);
    assert_eq!(i.last_outputs, ChainOutputs::unset());
    assert_eq!(i.trajectory, vec![]);
    assert_eq!(setup.watchdog_timeout_ms, 60000);
    assert_eq!(setup.first_heartbeat_ms, 0);
    assert_eq!(setup.stop_wz_threshold, Real::plus(2, 2));
    assert!(setup.controller.is_none());
    assert!(island().controller);
}

#[test]
fn first_report_has_no_interval() {
    let i = island();
    assert!(i.is_measurable(stamp(i32::MIN, 9)));
    assert_eq!(i.interval_to(stamp(100, 5)), Interval { seconds: 0, nanoseconds: 0 });
}

#[test]
fn interval_between_reports_keeps_its_sign() {
    let mut i = island();
    i.on_velocity_report(
        stamp(10, 900_000_000),
        SensedMotion { twist: motion(1.0), was_stopped: false, accel: None },
    );
    assert_eq!(
        i.interval_to(stamp(11, 100_000_000)),
        Interval { seconds: 1, nanoseconds: -800_000_000 }
    );
    assert_eq!(
        i.interval_to(stamp(9, 900_000_000)),
        Interval { seconds: -1, nanoseconds: 0 }
    );
}

#[test]
fn interval_that_does_not_fit_is_told() {
    let mut i = island();
    i.on_velocity_report(
        stamp(i32::MIN, 0),
        SensedMotion { twist: motion(0.0), was_stopped: true, accel: None },
    );
    assert!(!i.is_measurable(stamp(0, 0)));
    assert!(i.is_measurable(stamp(-1, 0)));
}

#[test]
fn velocity_report_updates_motion() {
    let mut i = island();
    let accel = SensedAcceleration { accel: motion(0.3), covariance: [num(1.5); 36] };
    i.on_velocity_report(
        stamp(1, 0),
        SensedMotion { twist: motion(4.0), was_stopped: false, accel: Some(accel) },
    );
    assert_eq!(i.prev_stamp, Some(stamp(1, 0)));
    assert_eq!(i.current_velocity, num(4.0));
    assert!(!i.is_stopped);
    assert_eq!(i.twist, motion(4.0));
    assert_eq!(i.accel, motion(0.3));
    assert_eq!(i.accel_covariance, [num(1.5); 36]);
    i.on_velocity_report(
        stamp(2, 0),
        SensedMotion { twist: motion(0.0), was_stopped: true, accel: None },
    );
    assert_eq!(i.current_velocity, num(0.0));
    assert!(i.is_stopped);
    assert_eq!(i.accel, motion(0.3));
    assert_eq!(i.accel_covariance, [num(1.5); 36]);
}

#[test]
fn trajectory_is_cut_at_capacity() {
    let mut i = island();
    let points: Vec<PlannedPoint> = (0..5).map(|k| planned(k as f64, 0.1 * k as f64)).collect();
    i.on_trajectory(&points[1..]);
    assert!(i.has_trajectory);
    let kept: Vec<TrajectoryPoint> = points[1..4].iter().map(|p| p.point).collect();
    assert_eq!(i.trajectory, kept);
    assert_eq!(i.input.current_pose_pitch, num(0.1));
    i.on_trajectory(&points[2..3]);
    assert_eq!(i.trajectory, vec![points[2].point]);
}

#[test]
fn empty_trajectory_keeps_the_pitch() {
    let mut i = island();
    i.on_trajectory(&[planned(1.0, 0.7)]);
    i.on_trajectory(&[]);
    assert!(i.has_trajectory);
    assert_eq!(i.trajectory, vec![]);
    assert_eq!(i.input.current_pose_pitch, num(0.7));
}

#[test]
fn follower_inputs_are_kept() {
    let mut i = island();
    i.on_odometry(Odometry {
        x: num(1.0),
        y: num(2.0),
        z: num(3.0),
        yaw: num(4.0),
        pitch: num(5.0),
        velocity: num(6.0),
    });
    i.on_steering(num(0.2));
    i.on_acceleration(num(-0.4));
    assert!(i.has_odometry && i.has_steering && !i.has_trajectory);
    assert_eq!(
        i.input,
        FollowerInput {
            current_pose_x: num(1.0),
            current_pose_y: num(2.0),
            current_pose_z: num(3.0),
            current_pose_yaw: num(4.0),
            current_pose_pitch: num(5.0),
            current_velocity: num(6.0),
            current_steer: num(0.2),
            current_accel: num(-0.4),
            is_autonomous: false,
            is_in_transition: false,
        }
    );
    assert_eq!(i.current_velocity, Real::zero());
}

#[test]
fn external_control_takes_over() {
    let mut i = island();
    let mut control = Control::unset();
    control.longitudinal.velocity = num(3.0);
    i.on_external_control(control, 77);
    assert!(i.has_external_control);
    assert_eq!(i.last_external_control_ms, 77);
    assert_eq!(i.auto_control, control);
}

#[test]
fn inputs_go_where_they_belong() {
    let mut i = island();
    let control = Control { stamp: stamp(1, 2), ..Control::unset() };
    let state = AutowareState { stamp: stamp(3, 4), state: 2 };
    let gear = GearReport { stamp: stamp(5, 6), report: 20 };
    assert_eq!(i.receive(Source::FollowerControl, Input::Control(control), 9), Chore::Nothing);
    assert_eq!(i.receive(Source::AutowareState, Input::AutowareState(state), 9), Chore::Nothing);
    assert_eq!(i.receive(Source::GearStatus, Input::GearReport(gear), 9), Chore::Nothing);
    assert_eq!(
        i.receive(Source::Trajectory, Input::Trajectory(&[planned(1.0, 0.0)]), 9),
        Chore::Nothing
    );
    assert_eq!(i.receive(Source::SteeringStatus, Input::Steering(num(0.3)), 9), Chore::Nothing);
    assert_eq!(i.receive(Source::Acceleration, Input::Acceleration(num(0.1)), 9), Chore::Nothing);
    assert_eq!((i.auto_control, i.last_external_control_ms), (control, 9));
    assert_eq!(i.autoware_state, state);
    assert_eq!(i.gear_report, gear);
    assert_eq!(i.trajectory.len(), 1);
    assert_eq!(i.input.current_steer, num(0.3));
    assert_eq!(i.input.current_accel, num(0.1));
    assert_eq!(i.phase, ChainPhase::Idle);
}

#[test]
fn heartbeats_and_velocity_reports_are_left_to_the_algorithms() {
    let mut i = island();
    assert_eq!(
        i.receive(Source::Heartbeat, Input::Unreadable, 12),
        Chore::FeedWatchdog { now_ms: 12 }
    );
    assert_eq!(
        i.receive(Source::VelocityStatus, Input::VelocityReport, 12),
        Chore::SenseVelocity
    );
    assert_eq!(i.receive(Source::VelocityStatus, Input::Unreadable, 12), Chore::Nothing);
}

#[test]
fn unreadable_inputs_change_nothing() {
    let mut i = island();
    for source in [
        Source::FollowerControl,
        Source::AutowareState,
        Source::GearStatus,
        Source::Trajectory,
        Source::KinematicState,
        Source::SteeringStatus,
        Source::Acceleration,
    ] {
        assert_eq!(i.receive(source, Input::Unreadable, 1), Chore::Nothing);
    }
    assert!(!i.has_external_control && !i.has_trajectory && !i.has_odometry && !i.has_steering);
    assert_eq!(i.autoware_state.state, AUTOWARE_STATE_DRIVING);
}

#[test]
fn init_replaces_the_island() {
    let mut slot: Option<SafetyIsland> = None;
    let setup = init_island(&mut slot, default_params(true), 5);
    assert!(setup.controller.is_some());
    slot.as_mut().unwrap().set_external_emergency(true);
    init_island(&mut slot, default_params(false), 6);
    let fresh = slot.unwrap();
    assert!(!fresh.external_emergency_stop && !fresh.controller);
    assert_eq!(fresh.trajectory_capacity, 6);
}
