use autoware_sentinel::number::Real;
use autoware_sentinel::param_table::{Param, ParamValue};
use autoware_sentinel::params::{
    declare_parameters, default_params, read_params, ParameterServer, ReadOnly, SentinelParams,
};

fn declared(controller: bool) -> ParameterServer {
    let mut server = ParameterServer::new();
    declare_parameters(&mut server, controller);
    server
}

#[test]
fn all_parameters_are_declared() {
    assert_eq!(ParameterServer::new().len(), 0);
    assert_eq!(declared(false).len(), 43);
    assert_eq!(declared(true).len(), 62);
}

#[test]
fn parameters_have_their_names_and_defaults() {
    assert_eq!(Param::StopFilterVxThreshold.name(), "stop_filter.vx_threshold");
    assert_eq!(Param::StopFilterVxThreshold.description(), "Velocity stop threshold (m/s)");
    let server = declared(true);
    assert_eq!(server.get_double(Param::StopFilterVxThreshold), Some(Real::plus(1, 1)));
    assert_eq!(server.get_integer(Param::HeartbeatTimeoutMs), Some(60000));
    assert_eq!(server.get_bool(Param::OpModeEnableEngageOnDriving), Some(false));
    assert_eq!(server.get_double(Param::MpcSteerRateLim), Some(Real::plus(17321, 4)));
    assert_eq!(server.get_double(Param::PidStoppedAcc), Some(Real::minus(34, 1)));
    assert_eq!(server.get_double(Param::VehicleInfoMaxSteerAngle), Some(Real::plus(7, 1)));
    assert_eq!(server.get_integer(Param::StopFilterVxThreshold), None);
    assert_eq!(server.get_double(Param::HeartbeatTimeoutMs), None);
}

#[test]
fn parameters_are_found_by_name() {
    for p in Param::declared(true) {
        assert_eq!(Param::from_name(p.name()), Some(p));
    }
    assert_eq!(Param::from_name("pid.kx"), None);
    assert_eq!(Param::from_name(""), None);
    assert_eq!(Param::declared(false).len(), 43);
    assert_eq!(Param::declared(false)[42], Param::VehicleInfoVehicleHeight);
    assert_eq!(Param::declared(true)[43], Param::ControllerCtrlPeriod);
}

#[test]
fn declared_defaults_are_the_default_params() {
    assert_eq!(read_params(&declared(false), false), default_params(false));
    let mut read = read_params(&declared(true), true);
    let tuned = read.controller.unwrap();
    assert_eq!(tuned.node.lateral.unwrap().prediction_horizon, 50);
    assert_eq!(tuned.node.longitudinal.unwrap().kp, Real::plus(1, 0));
    let mut plain = tuned;
    plain.node.lateral = None;
    plain.node.longitudinal = None;
    read.controller = Some(plain);
    assert_eq!(read, default_params(true));
}

#[test]
fn default_params_have_the_documented_values() {
    let p: SentinelParams = default_params(false);
    assert_eq!(p.watchdog_timeout_ms, 60000);
    assert_eq!(p.gate.heartbeat_timeout_ms, 5000);
    assert_eq!(p.gate.filter.vel_lim, Real::plus(25, 0));
    assert_eq!(p.gate.filter.wheel_base, Real::plus(279, 2));
    assert_eq!(p.gate.arbiter.emergency_accel, Real::minus(24, 1));
    assert_eq!(p.control_validator.jerk.wheel_base, Real::plus(279, 2));
    assert_eq!(p.emergency_stop.target_jerk, Real::minus(15, 1));
    assert_eq!(p.mrm_handler.stopped_velocity_threshold, Real::plus(1, 3));
    assert!(p.shift_decider_park_on_goal);
    assert!(p.controller.is_none());
}

/// A server on which the defaults can still be changed.
fn settable(controller: bool) -> ParameterServer {
    let mut server = ParameterServer::new();
    for p in Param::declared(controller) {
        assert_eq!(server.set(p, p.default_value()), Ok(()));
    }
    server
}

#[test]
fn declared_parameters_are_read_only() {
    let mut server = declared(true);
    for p in Param::declared(true) {
        assert_eq!(server.set(p, ParamValue::Integer(250)), Err(ReadOnly));
        assert_eq!(server.get(p), Some(p.default_value()));
    }
    assert_eq!(read_params(&server, true).watchdog_timeout_ms, 60000);
}

#[test]
fn parameters_that_were_not_declared_can_be_set() {
    let mut server = declared(false);
    assert_eq!(server.set(Param::PidKp, ParamValue::Double(Real::plus(9, 0))), Ok(()));
    assert_eq!(server.get_double(Param::PidKp), Some(Real::plus(9, 0)));
    assert_eq!(server.set(Param::PidKp, ParamValue::Double(Real::plus(8, 0))), Ok(()));
    assert_eq!(server.get_double(Param::PidKp), Some(Real::plus(8, 0)));
    assert_eq!(server.get(Param::PidKi), None);
    assert_eq!(read_params(&server, false), default_params(false));
}

#[test]
fn single_declaration_is_read_only() {
    let mut server = ParameterServer::new();
    server.declare(Param::HeartbeatTimeoutMs, ParamValue::Integer(7));
    assert_eq!(server.set(Param::HeartbeatTimeoutMs, ParamValue::Integer(8)), Err(ReadOnly));
    assert_eq!(server.get_integer(Param::HeartbeatTimeoutMs), Some(7));
    assert_eq!(server.len(), 1);
}

#[test]
fn set_values_reach_the_settings() {
    let mut server = settable(false);
    server.set(Param::VehicleInfoWheelBase, ParamValue::Double(Real::plus(3, 0))).unwrap();
    server.set(Param::ShiftDeciderParkOnGoal, ParamValue::Bool(false)).unwrap();
    server.set(Param::HeartbeatTimeoutMs, ParamValue::Integer(250)).unwrap();
    let p = read_params(&server, false);
    assert_eq!(p.gate.filter.wheel_base, Real::plus(3, 0));
    assert_eq!(p.control_validator.jerk.wheel_base, Real::plus(3, 0));
    assert!(!p.shift_decider_park_on_goal);
    assert_eq!(p.watchdog_timeout_ms, 250);
    assert_eq!(p.gate.heartbeat_timeout_ms, 5000);
}

#[test]
fn negative_timeouts_count_down_from_the_top() {
    let mut server = settable(false);
    server.set(Param::HeartbeatTimeoutMs, ParamValue::Integer(-1)).unwrap();
    assert_eq!(read_params(&server, false).watchdog_timeout_ms, u64::MAX);
    server.set(Param::HeartbeatTimeoutMs, ParamValue::Integer(i64::MIN)).unwrap();
    assert_eq!(read_params(&server, false).watchdog_timeout_ms, 1 << 63);
}

#[test]
fn first_missing_parameter_is_the_first_that_is_read() {
    assert_eq!(ParameterServer::new().missing(false), Some(Param::VehicleInfoWheelBase));
    let server = declared(false);
    assert_eq!(server.missing(false), None);
    assert_eq!(server.missing(true), Some(Param::PidKp));
    assert_eq!(declared(true).missing(true), None);
    let mut wrong = settable(false);
    wrong.set(Param::ShiftDeciderParkOnGoal, ParamValue::Integer(1)).unwrap();
    assert_eq!(wrong.missing(false), Some(Param::ShiftDeciderParkOnGoal));
    wrong.set(Param::OpModeAccThreshold, ParamValue::Integer(1)).unwrap();
    assert_eq!(wrong.missing(false), Some(Param::OpModeAccThreshold));
}

#[test]
fn parameters_are_read_in_order() {
    let without = Param::read(false);
    let with = Param::read(true);
    assert_eq!((without.len(), with.len()), (34, 62));
    assert_eq!(without[..21], with[..21]);
    assert_eq!(without[21..], with[49..]);
    assert_eq!(with[1], Param::VehicleCmdGateVelLim);
    assert_eq!(with[21], Param::VehicleInfoWheelRadius);
    assert_eq!(with[61], Param::ShiftDeciderParkOnGoal);
}

#[test]
fn vehicle_dimensions_are_read_for_the_trajectory_follower_only() {
    let mut server = settable(true);
    server.set(Param::VehicleInfoWheelTread, ParamValue::Bool(true)).unwrap();
    assert_eq!(server.missing(false), None);
    assert_eq!(server.missing(true), Some(Param::VehicleInfoWheelTread));
}

#[test]
fn parameters_that_are_not_read_do_not_matter() {
    let mut server = settable(true);
    server.set(Param::PidKp, ParamValue::Double(Real::plus(9, 0))).unwrap();
    server.set(Param::VehicleInfoWheelTread, ParamValue::Double(Real::plus(2, 0))).unwrap();
    assert_eq!(read_params(&server, false), default_params(false));
    assert_ne!(read_params(&server, true), read_params(&declared(true), true));
}
