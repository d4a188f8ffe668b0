use autoware_sentinel::chain::{
    ChainAction, ChainEvent, ChainOutputs, ChainPhase, ControllerOutput, GateOutput, MrmOutput,
    StopOrder, StopReport, ValidatorStatus, CONTROL_PERIOD_MS, CONTROL_RATE_HZ,
    EXTERNAL_CONTROL_STALE_MS, MRM_STATE_OPERATING, VALIDATION_FAILURE_THRESHOLD,
};
use autoware_sentinel::endpoints::Service;
use autoware_sentinel::island::{
    Odometry, PlannedPoint, SafetyIsland, SensedMotion, TrajectoryPoint,
};
use autoware_sentinel::messages::{
    Control, GearCommand, HazardLightsCommand, Motion, MrmState, OperationModeAvailability, Time,
    TurnIndicatorsCommand, Vector3,
};
use autoware_sentinel::number::Real;
use autoware_sentinel::params::default_params;

fn num(x: f64) -> Real {
    Real::Double(x.to_bits())
}

fn island(controller: bool) -> SafetyIsland {
    SafetyIsland::new(default_params(controller), 4).0
}

fn moving(island: &mut SafetyIsland, velocity: f64) {
    let linear = Vector3 { x: num(velocity), ..Vector3::unset() };
    island.on_velocity_report(
        Time { sec: 1, nanosec: 0 },
        SensedMotion {
            twist: Motion { linear, ..Motion::unset() },
            was_stopped: false,
            accel: None,
        },
    );
}

fn control(velocity: f64) -> Control {
    let mut c = Control::unset();
    c.lateral.steering_tire_angle = num(0.1);
    c.longitudinal.velocity = num(velocity);
    c.longitudinal.acceleration = num(0.4);
    c.longitudinal.jerk = num(0.2);
    c
}

fn mrm(emergency: Option<bool>, comfortable: Option<bool>) -> MrmOutput {
    MrmOutput {
        mrm_state: MrmState { stamp: Time::unset(), state: 2, behavior: 3 },
        gear: GearCommand { stamp: Time::unset(), command: 22 },
        hazard_lights: HazardLightsCommand { stamp: Time::unset(), command: 2 },
        emergency_stop_operate: emergency,
        comfortable_stop_operate: comfortable,
    }
}

fn report(velocity: f64, is_operating: bool) -> StopReport {
    StopReport { control: control(velocity), is_operating }
}

fn gate_output() -> GateOutput {
    GateOutput {
        control: control(5.5),
        gear: GearCommand { stamp: Time::unset(), command: 2 },
        turn_indicators: TurnIndicatorsCommand { stamp: Time::unset(), command: 1 },
    }
}

fn found(invalid_count: u32) -> ValidatorStatus {
    ValidatorStatus { is_valid_acc: true, invalid_count, ..ValidatorStatus::unset() }
}

/// Runs a pass from the watchdog on, with fixed replies, and gives what was done.
fn rest_of_pass(
    island: &mut SafetyIsland,
    mrm: MrmOutput,
    mrm_state: u16,
    stops: (StopReport, StopReport),
    invalid_count: u32,
    settled: u16,
) -> Vec<ChainAction> {
    vec![
        island.step(ChainEvent::WatchdogChecked(None)),
        island.step(ChainEvent::MrmUpdated { output: mrm, state: mrm_state }),
        island.step(ChainEvent::StopsDriven { emergency: stops.0, comfortable: stops.1 }),
        island.step(ChainEvent::GearDecided { command: 2 }),
        island.step(ChainEvent::GateDriven(gate_output())),
        island.step(ChainEvent::Validated(found(invalid_count))),
        island.step(ChainEvent::MrmSettled { state: settled }),
    ]
}

fn quiet() -> (StopReport, StopReport) {
    (report(0.0, false), report(0.0, false))
}

fn outputs_of(actions: &[ChainAction]) -> ChainOutputs {
    match actions.last() {
        Some(ChainAction::Publish(o)) => *o,
        _ => panic!("the pass did not end in publishing"),
    }
}

#[test]
fn constants_of_the_chain() {
    assert_eq!(MRM_STATE_OPERATING, 2);
    assert_eq!(VALIDATION_FAILURE_THRESHOLD, 30);
    assert_eq!(CONTROL_RATE_HZ, 30);
    assert_eq!(CONTROL_PERIOD_MS, 33);
    assert_eq!(EXTERNAL_CONTROL_STALE_MS, 2000);
}

#[test]
fn pass_goes_through_all_algorithms_in_order() {
    let mut i = island(false);
    moving(&mut i, 3.0);
    i.serve(Service::ChangeToAutonomous, None);
    i.on_external_control(control(7.0), 100);
    assert_eq!(
        i.step(ChainEvent::Timer { now_ms: 150 }),
        ChainAction::CheckWatchdog { now_ms: 150 }
    );
    let news = OperationModeAvailability { stop: true, ..OperationModeAvailability::unset() };
    assert_eq!(
        i.step(ChainEvent::WatchdogChecked(Some(news))),
        ChainAction::UpdateMrm { velocity: num(3.0), availability: Some(news) }
    );
    assert_eq!(
        i.step(ChainEvent::MrmUpdated { output: mrm(Some(true), Some(false)), state: 1 }),
        ChainAction::DriveStops {
            emergency: Some(StopOrder::Start { initial_velocity: num(3.0) }),
            comfortable: Some(StopOrder::End),
        }
    );
    assert_eq!(
        i.step(ChainEvent::StopsDriven {
            emergency: report(1.0, false),
            comfortable: report(2.0, true),
        }),
        ChainAction::DecideGear {
            autoware_state: i.autoware_state,
            control: control(7.0),
            gear_report: i.gear_report,
        }
    );
    let ChainAction::DriveGate(input) = i.step(ChainEvent::GearDecided { command: 20 }) else {
        panic!("the command gate was not driven");
    };
    assert_eq!(input.now_ms, 150);
    assert_eq!(input.autonomous_ms, 100);
    assert_eq!(input.current_speed, num(3.0));
    assert!(input.engaged);
    assert!(!input.system_emergency);
    assert_eq!(input.autonomous.control, control(7.0));
    assert_eq!(input.autonomous.gear.command, 20);
    assert_eq!(input.autonomous.hazard_lights, HazardLightsCommand::unset());
    assert_eq!(input.emergency.control, control(2.0));
    assert_eq!(input.emergency.gear.command, 22);
    assert_eq!(input.emergency.hazard_lights.command, 2);
    assert_eq!(input.emergency.turn_indicators, TurnIndicatorsCommand::unset());
    let ChainAction::Validate(v) = i.step(ChainEvent::GateDriven(gate_output())) else {
        panic!("nothing was validated");
    };
    assert_eq!(v.control, control(5.5));
    assert_eq!(v.velocity, num(3.0));
    assert_eq!(v.target_velocity, num(5.5));
    assert_eq!(v.measured_acceleration, Real::zero());
    assert_eq!(v.further, Real::zero());
    assert_eq!(
        i.step(ChainEvent::Validated(found(29))),
        ChainAction::SettleMrm { availability: None }
    );
    let ChainAction::Publish(o) = i.step(ChainEvent::MrmSettled { state: 2 }) else {
        panic!("nothing was published");
    };
    assert_eq!(o.mrm_state.behavior, 3);
    assert_eq!(o.mrm_gear.command, 22);
    assert_eq!(o.mrm_hazard.command, 2);
    assert_eq!(o.gate_control, control(5.5));
    assert_eq!(o.gate_gear.command, 2);
    assert_eq!(o.gate_turn.command, 1);
    assert_eq!(o.auto_gear, 20);
    assert_eq!(o.op_mode_state.mode, 2);
    assert!(o.autonomous_engaged && o.is_emergency && !o.is_stopped);
    assert!(!o.estop_operating && o.comfy_operating);
    assert_eq!(o.current_velocity, num(3.0));
    assert_eq!(o.cv, found(29));
    assert_eq!(i.last_outputs, o);
    assert_eq!(i.phase, ChainPhase::Idle);
}

#[test]
fn engagement_round_trip_is_reported() {
    let mut i = island(false);
    i.step(ChainEvent::Timer { now_ms: 1 });
    let o = outputs_of(&rest_of_pass(&mut i, mrm(None, None), 1, quiet(), 0, 1));
    assert_eq!(o.op_mode_state.mode, 1);
    i.serve(Service::ChangeToAutonomous, None);
    i.step(ChainEvent::Timer { now_ms: 34 });
    let o = outputs_of(&rest_of_pass(&mut i, mrm(None, None), 1, quiet(), 0, 1));
    assert_eq!(o.op_mode_state.mode, 2);
    assert!(o.op_mode_state.is_autoware_control_enabled);
    i.serve(Service::ChangeToStop, None);
    i.step(ChainEvent::Timer { now_ms: 67 });
    let o = outputs_of(&rest_of_pass(&mut i, mrm(None, None), 1, quiet(), 0, 1));
    assert_eq!(o.op_mode_state.mode, 1);
    assert!(!o.op_mode_state.is_autoware_control_enabled);
    assert!(o.op_mode_state.is_remote_mode_available);
}

#[test]
fn stale_control_is_replaced_by_braking() {
    let mut i = island(false);
    moving(&mut i, 6.0);
    i.on_external_control(control(9.0), 1000);
    i.step(ChainEvent::Timer { now_ms: 3000 });
    assert_eq!(i.auto_control, control(9.0));
    rest_of_pass(&mut i, mrm(None, None), 1, quiet(), 0, 1);
    i.step(ChainEvent::Timer { now_ms: 3001 });
    let mut braking = control(9.0);
    braking.longitudinal.velocity = num(6.0);
    braking.longitudinal.acceleration = Real::minus(15, 1);
    assert_eq!(i.auto_control, braking);
    let done = rest_of_pass(&mut i, mrm(None, None), 1, quiet(), 0, 1);
    let ChainAction::DriveGate(input) = done[3] else {
        panic!("the command gate was not driven");
    };
    assert_eq!(input.autonomous.control, braking);
    assert_eq!(input.autonomous_ms, 1000);
}

#[test]
fn clock_behind_the_command_does_not_make_it_stale() {
    let mut i = island(false);
    i.on_external_control(control(9.0), 5000);
    i.step(ChainEvent::Timer { now_ms: 10 });
    assert_eq!(i.auto_control, control(9.0));
}

fn ready_for_following(i: &mut SafetyIsland) {
    let point = TrajectoryPoint {
        x: num(0.0),
        y: num(0.0),
        z: num(0.0),
        yaw: num(0.0),
        longitudinal_velocity_mps: num(1.0),
        lateral_velocity_mps: num(0.0),
        acceleration_mps2: num(0.0),
        heading_rate_rps: num(0.0),
        front_wheel_angle_rad: num(0.0),
    };
    i.on_trajectory(&[PlannedPoint { point, pitch: num(0.0) }]);
    i.on_odometry(Odometry {
        x: num(0.0),
        y: num(0.0),
        z: num(0.0),
        yaw: num(0.0),
        pitch: num(0.0),
        velocity: num(0.0),
    });
    i.on_steering(num(0.0));
}

#[test]
fn trajectory_follower_runs_once_it_knows_enough() {
    let mut i = island(true);
    assert_eq!(
        i.step(ChainEvent::Timer { now_ms: 5 }),
        ChainAction::CheckWatchdog { now_ms: 5 }
    );
    rest_of_pass(&mut i, mrm(None, None), 1, quiet(), 0, 1);
    ready_for_following(&mut i);
    assert_eq!(
        i.step(ChainEvent::Timer { now_ms: 38 }),
        ChainAction::RunController { now_ms: 38 }
    );
    assert!(i.input.is_autonomous);
    let asked = ControllerOutput {
        steering_tire_angle: num(0.3),
        steering_tire_rotation_rate: num(0.4),
        velocity: num(2.0),
        acceleration: num(0.5),
    };
    assert_eq!(
        i.step(ChainEvent::ControllerRan(Some(asked))),
        ChainAction::CheckWatchdog { now_ms: 38 }
    );
    assert_eq!(i.auto_control.lateral.steering_tire_angle, num(0.3));
    assert_eq!(i.auto_control.lateral.steering_tire_rotation_rate, num(0.4));
    assert_eq!(i.auto_control.longitudinal.velocity, num(2.0));
    assert_eq!(i.auto_control.longitudinal.acceleration, num(0.5));
    let done = rest_of_pass(&mut i, mrm(None, None), 1, quiet(), 0, 1);
    let ChainAction::DriveGate(input) = done[3] else {
        panic!("the command gate was not driven");
    };
    assert_eq!(input.autonomous_ms, 38);
    i.step(ChainEvent::Timer { now_ms: 71 });
    i.step(ChainEvent::ControllerRan(None));
    assert_eq!(i.auto_control.longitudinal.velocity, num(2.0));
}

#[test]
fn trajectory_follower_yields_to_external_control() {
    let mut i = island(true);
    ready_for_following(&mut i);
    i.on_external_control(control(1.0), 10);
    assert_eq!(
        i.step(ChainEvent::Timer { now_ms: 20 }),
        ChainAction::CheckWatchdog { now_ms: 20 }
    );
}

#[test]
fn build_without_trajectory_follower_never_runs_it() {
    let mut i = island(false);
    ready_for_following(&mut i);
    assert_eq!(
        i.step(ChainEvent::Timer { now_ms: 20 }),
        ChainAction::CheckWatchdog { now_ms: 20 }
    );
}

#[test]
fn emergency_stop_has_precedence_over_comfortable_stop() {
    for (emergency, comfortable, expected) in [
        (true, true, control(1.0)),
        (true, false, control(1.0)),
        (false, true, control(2.0)),
        (false, false, Control::unset()),
    ] {
        let mut i = island(false);
        i.step(ChainEvent::Timer { now_ms: 1 });
        let stops = (report(1.0, emergency), report(2.0, comfortable));
        let done = rest_of_pass(&mut i, mrm(None, None), 1, stops, 0, 1);
        let ChainAction::DriveGate(input) = done[3] else {
            panic!("the command gate was not driven");
        };
        assert_eq!(input.emergency.control, expected);
        let o = outputs_of(&done);
        assert_eq!((o.estop_operating, o.comfy_operating), (emergency, comfortable));
    }
}

#[test]
fn external_emergency_reaches_gate_and_report() {
    let mut i = island(false);
    i.serve(Service::ExternalEmergencyStop, None);
    i.step(ChainEvent::Timer { now_ms: 1 });
    let done = rest_of_pass(&mut i, mrm(None, None), 1, quiet(), 0, 1);
    assert!(matches!(done[3], ChainAction::DriveGate(input) if input.system_emergency));
    assert!(outputs_of(&done).is_emergency);
    i.serve(Service::ClearExternalEmergencyStop, None);
    i.step(ChainEvent::Timer { now_ms: 34 });
    let done = rest_of_pass(&mut i, mrm(None, None), 1, quiet(), 0, 1);
    assert!(matches!(done[3], ChainAction::DriveGate(input) if !input.system_emergency));
    assert!(!outputs_of(&done).is_emergency);
}

#[test]
fn emergency_is_reported_by_the_settled_state() {
    let mut i = island(false);
    i.step(ChainEvent::Timer { now_ms: 1 });
    let done = rest_of_pass(&mut i, mrm(None, None), 1, quiet(), 0, 2);
    assert!(matches!(done[3], ChainAction::DriveGate(input) if !input.system_emergency));
    assert!(outputs_of(&done).is_emergency);
    i.step(ChainEvent::Timer { now_ms: 34 });
    let done = rest_of_pass(&mut i, mrm(None, None), 2, quiet(), 0, 3);
    assert!(matches!(done[3], ChainAction::DriveGate(input) if input.system_emergency));
    assert!(!outputs_of(&done).is_emergency);
}

#[test]
fn thirty_invalid_commands_call_for_a_manoeuvre() {
    for (count, availability) in [
        (29, None),
        (30, Some(OperationModeAvailability::unset())),
        (u32::MAX, Some(OperationModeAvailability::unset())),
    ] {
        let mut i = island(false);
        i.step(ChainEvent::Timer { now_ms: 1 });
        let done = rest_of_pass(&mut i, mrm(None, None), 1, quiet(), count, 1);
        assert_eq!(done[5], ChainAction::SettleMrm { availability });
    }
}

#[test]
fn stop_manoeuvres_without_orders_get_none() {
    let mut i = island(false);
    i.step(ChainEvent::Timer { now_ms: 1 });
    let done = rest_of_pass(&mut i, mrm(None, Some(true)), 1, quiet(), 0, 1);
    assert_eq!(
        done[1],
        ChainAction::DriveStops {
            emergency: None,
            comfortable: Some(StopOrder::Start { initial_velocity: Real::zero() }),
        }
    );
}

#[test]
fn unexpected_events_change_nothing() {
    let mut i = island(false);
    assert_eq!(i.step(ChainEvent::GearDecided { command: 3 }), ChainAction::Nothing);
    assert_eq!(i.phase, ChainPhase::Idle);
    i.step(ChainEvent::Timer { now_ms: 1 });
    let waiting = i.phase;
    assert_eq!(i.step(ChainEvent::Timer { now_ms: 2 }), ChainAction::Nothing);
    assert_eq!(i.step(ChainEvent::MrmSettled { state: 2 }), ChainAction::Nothing);
    assert_eq!(i.phase, waiting);
    assert_eq!(i.last_outputs, ChainOutputs::unset());
}

#[test]
fn requests_of_external_tools_are_reported_too() {
    let mut i = island(false);
    i.serve(Service::SetEngage, Some(true));
    i.serve(Service::SetEmergency, Some(true));
    i.step(ChainEvent::Timer { now_ms: 1 });
    let o = outputs_of(&rest_of_pass(&mut i, mrm(None, None), 1, quiet(), 0, 1));
    assert_eq!(o.op_mode_state.mode, 2);
    assert!(o.is_emergency);
    i.serve(Service::SetEngage, Some(false));
    i.serve(Service::SetEmergency, Some(false));
    i.serve(Service::SetEngage, None);
    i.step(ChainEvent::Timer { now_ms: 34 });
    let o = outputs_of(&rest_of_pass(&mut i, mrm(None, None), 1, quiet(), 0, 1));
    assert_eq!(o.op_mode_state.mode, 1);
    assert!(!o.is_emergency);
}

#[test]
fn ticks_report_the_latest_requests() {
    let mut i = island(false);
    let tick = |i: &mut SafetyIsland| {
        i.step(ChainEvent::Timer { now_ms: 0 });
        rest_of_pass(i, mrm(None, None), 0, (report(0.0, false), report(0.0, false)), 0, 0);
        (i.last_outputs.autonomous_engaged, i.last_outputs.is_emergency)
    };
    assert_eq!(tick(&mut i), (false, false));
    i.serve(Service::SetEngage, Some(true));
    assert_eq!(tick(&mut i), (true, false));
    i.serve(Service::ExternalEmergencyStop, None);
    i.on_external_control(control(2.0), 3);
    assert_eq!(tick(&mut i), (true, true));
    moving(&mut i, 1.0);
    i.serve(Service::ChangeToStop, None);
    i.serve(Service::SetStop, None);
    assert_eq!(tick(&mut i), (false, true));
    assert_eq!(tick(&mut i), (false, true));
    i.serve(Service::ChangeToAutonomous, None);
    i.serve(Service::SetEmergency, Some(false));
    assert_eq!(tick(&mut i), (true, false));
}
