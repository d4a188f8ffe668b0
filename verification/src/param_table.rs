//! The parameters of the safety island: their names, defaults and meaning.

use vstd::prelude::*;

use crate::number::Real;
use crate::text::same;

verus! {

/// The value of a parameter.
#[derive(Clone, Copy, Debug, PartialEq, Eq, Structural)]
pub enum ParamValue {
    Double(Real),
    Integer(i64),
    Bool(bool),
}

impl ParamValue {
    /// Both values are of the same type.
    pub open spec fn same_type(self, other: ParamValue) -> bool {
        match self {
            ParamValue::Double(_) => other is Double,
            ParamValue::Integer(_) => other is Integer,
            ParamValue::Bool(_) => other is Bool,
        }
    }

    /// Whether both values are of the same type.
    pub fn is_same_type(&self, other: &ParamValue) -> (r: bool)
        ensures
            r == self.same_type(*other),
    {
        match (*self, *other) {
            (ParamValue::Double(_), ParamValue::Double(_)) => true,
            (ParamValue::Integer(_), ParamValue::Integer(_)) => true,
            (ParamValue::Bool(_), ParamValue::Bool(_)) => true,
            _ => false,
        }
    }
}

/// How many parameters there are.
pub const PARAM_COUNT: usize = 62;

/// How many of them come first and do not belong to the trajectory follower.
pub const ISLAND_PARAM_COUNT: usize = 43;

/// A parameter, in the order of declaration.
#[derive(Clone, Copy, Debug, PartialEq, Eq, Structural)]
pub enum Param {
    StopFilterVxThreshold,
    StopFilterWzThreshold,
    VelocityConverterSpeedScaleFactor,
    VelocityConverterStddevVx,
    VelocityConverterStddevWz,
    Twist2accelAccelLowpassGain,
    HeartbeatTimeoutMs,
    MrmEmergencyStopTargetAcceleration,
    MrmEmergencyStopTargetJerk,
    MrmComfortableStopMinAcceleration,
    MrmComfortableStopMinJerk,
    MrmHandlerStoppedVelocityThreshold,
    ShiftDeciderParkOnGoal,
    VehicleCmdGateHeartbeatTimeoutMs,
    VehicleCmdGateStopHoldAccel,
    VehicleCmdGateEmergencyAccel,
    VehicleCmdGateVelLim,
    ControlValidatorAccErrorOffset,
    ControlValidatorAccErrorScale,
    ControlValidatorAccLpfGain,
    ControlValidatorRollingBackVelocity,
    ControlValidatorOverVelocityRatio,
    ControlValidatorOverVelocityOffset,
    ControlValidatorVelLpfGain,
    ControlValidatorLateralJerkThreshold,
    ControlValidatorJerkLpfGain,
    OpModeAllowAutonomousInStopped,
    OpModeStoppedVelocityThreshold,
    OpModeEnableEngageOnDriving,
    OpModeAccThreshold,
    OpModeSpeedUpperThreshold,
    OpModeSpeedLowerThreshold,
    OpModeStableCheckDuration,
    VehicleInfoWheelBase,
    VehicleInfoMaxSteerAngle,
    VehicleInfoWheelRadius,
    VehicleInfoWheelWidth,
    VehicleInfoWheelTread,
    VehicleInfoFrontOverhang,
    VehicleInfoRearOverhang,
    VehicleInfoLeftOverhang,
    VehicleInfoRightOverhang,
    VehicleInfoVehicleHeight,
    ControllerCtrlPeriod,
    ControllerEgoNearestDistThreshold,
    ControllerEgoNearestYawThreshold,
    PidKp,
    PidKi,
    PidKd,
    PidMaxAcc,
    PidMinAcc,
    PidMaxJerk,
    PidMinJerk,
    PidDelayCompensationTime,
    PidStoppedAcc,
    PidEmergencyAcc,
    MpcPredictionHorizon,
    MpcPredictionDt,
    MpcSteerTau,
    MpcSteeringLpfGain,
    MpcInputDelay,
    MpcSteerRateLim,
}

impl Param {
    /// Place in the order of declaration.
    #[verifier::allow_in_spec]
    pub fn index(self) -> usize
        returns
            (match self {
                Param::StopFilterVxThreshold => 0usize,
                Param::StopFilterWzThreshold => 1usize,
                Param::VelocityConverterSpeedScaleFactor => 2usize,
                Param::VelocityConverterStddevVx => 3usize,
                Param::VelocityConverterStddevWz => 4usize,
                Param::Twist2accelAccelLowpassGain => 5usize,
                Param::HeartbeatTimeoutMs => 6usize,
                Param::MrmEmergencyStopTargetAcceleration => 7usize,
                Param::MrmEmergencyStopTargetJerk => 8usize,
                Param::MrmComfortableStopMinAcceleration => 9usize,
                Param::MrmComfortableStopMinJerk => 10usize,
                Param::MrmHandlerStoppedVelocityThreshold => 11usize,
                Param::ShiftDeciderParkOnGoal => 12usize,
                Param::VehicleCmdGateHeartbeatTimeoutMs => 13usize,
                Param::VehicleCmdGateStopHoldAccel => 14usize,
                Param::VehicleCmdGateEmergencyAccel => 15usize,
                Param::VehicleCmdGateVelLim => 16usize,
                Param::ControlValidatorAccErrorOffset => 17usize,
                Param::ControlValidatorAccErrorScale => 18usize,
                Param::ControlValidatorAccLpfGain => 19usize,
                Param::ControlValidatorRollingBackVelocity => 20usize,
                Param::ControlValidatorOverVelocityRatio => 21usize,
                Param::ControlValidatorOverVelocityOffset => 22usize,
                Param::ControlValidatorVelLpfGain => 23usize,
                Param::ControlValidatorLateralJerkThreshold => 24usize,
                Param::ControlValidatorJerkLpfGain => 25usize,
                Param::OpModeAllowAutonomousInStopped => 26usize,
                Param::OpModeStoppedVelocityThreshold => 27usize,
                Param::OpModeEnableEngageOnDriving => 28usize,
                Param::OpModeAccThreshold => 29usize,
                Param::OpModeSpeedUpperThreshold => 30usize,
                Param::OpModeSpeedLowerThreshold => 31usize,
                Param::OpModeStableCheckDuration => 32usize,
                Param::VehicleInfoWheelBase => 33usize,
                Param::VehicleInfoMaxSteerAngle => 34usize,
                Param::VehicleInfoWheelRadius => 35usize,
                Param::VehicleInfoWheelWidth => 36usize,
                Param::VehicleInfoWheelTread => 37usize,
                Param::VehicleInfoFrontOverhang => 38usize,
                Param::VehicleInfoRearOverhang => 39usize,
                Param::VehicleInfoLeftOverhang => 40usize,
                Param::VehicleInfoRightOverhang => 41usize,
                Param::VehicleInfoVehicleHeight => 42usize,
                Param::ControllerCtrlPeriod => 43usize,
                Param::ControllerEgoNearestDistThreshold => 44usize,
                Param::ControllerEgoNearestYawThreshold => 45usize,
                Param::PidKp => 46usize,
                Param::PidKi => 47usize,
                Param::PidKd => 48usize,
                Param::PidMaxAcc => 49usize,
                Param::PidMinAcc => 50usize,
                Param::PidMaxJerk => 51usize,
                Param::PidMinJerk => 52usize,
                Param::PidDelayCompensationTime => 53usize,
                Param::PidStoppedAcc => 54usize,
                Param::PidEmergencyAcc => 55usize,
                Param::MpcPredictionHorizon => 56usize,
                Param::MpcPredictionDt => 57usize,
                Param::MpcSteerTau => 58usize,
                Param::MpcSteeringLpfGain => 59usize,
                Param::MpcInputDelay => 60usize,
                Param::MpcSteerRateLim => 61usize,
            }),
    {
        match self {
            Param::StopFilterVxThreshold => 0usize,
            Param::StopFilterWzThreshold => 1usize,
            Param::VelocityConverterSpeedScaleFactor => 2usize,
            Param::VelocityConverterStddevVx => 3usize,
            Param::VelocityConverterStddevWz => 4usize,
            Param::Twist2accelAccelLowpassGain => 5usize,
            Param::HeartbeatTimeoutMs => 6usize,
            Param::MrmEmergencyStopTargetAcceleration => 7usize,
            Param::MrmEmergencyStopTargetJerk => 8usize,
            Param::MrmComfortableStopMinAcceleration => 9usize,
            Param::MrmComfortableStopMinJerk => 10usize,
            Param::MrmHandlerStoppedVelocityThreshold => 11usize,
            Param::ShiftDeciderParkOnGoal => 12usize,
            Param::VehicleCmdGateHeartbeatTimeoutMs => 13usize,
            Param::VehicleCmdGateStopHoldAccel => 14usize,
            Param::VehicleCmdGateEmergencyAccel => 15usize,
            Param::VehicleCmdGateVelLim => 16usize,
            Param::ControlValidatorAccErrorOffset => 17usize,
            Param::ControlValidatorAccErrorScale => 18usize,
            Param::ControlValidatorAccLpfGain => 19usize,
            Param::ControlValidatorRollingBackVelocity => 20usize,
            Param::ControlValidatorOverVelocityRatio => 21usize,
            Param::ControlValidatorOverVelocityOffset => 22usize,
            Param::ControlValidatorVelLpfGain => 23usize,
            Param::ControlValidatorLateralJerkThreshold => 24usize,
            Param::ControlValidatorJerkLpfGain => 25usize,
            Param::OpModeAllowAutonomousInStopped => 26usize,
            Param::OpModeStoppedVelocityThreshold => 27usize,
            Param::OpModeEnableEngageOnDriving => 28usize,
            Param::OpModeAccThreshold => 29usize,
            Param::OpModeSpeedUpperThreshold => 30usize,
            Param::OpModeSpeedLowerThreshold => 31usize,
            Param::OpModeStableCheckDuration => 32usize,
            Param::VehicleInfoWheelBase => 33usize,
            Param::VehicleInfoMaxSteerAngle => 34usize,
            Param::VehicleInfoWheelRadius => 35usize,
            Param::VehicleInfoWheelWidth => 36usize,
            Param::VehicleInfoWheelTread => 37usize,
            Param::VehicleInfoFrontOverhang => 38usize,
            Param::VehicleInfoRearOverhang => 39usize,
            Param::VehicleInfoLeftOverhang => 40usize,
            Param::VehicleInfoRightOverhang => 41usize,
            Param::VehicleInfoVehicleHeight => 42usize,
            Param::ControllerCtrlPeriod => 43usize,
            Param::ControllerEgoNearestDistThreshold => 44usize,
            Param::ControllerEgoNearestYawThreshold => 45usize,
            Param::PidKp => 46usize,
            Param::PidKi => 47usize,
            Param::PidKd => 48usize,
            Param::PidMaxAcc => 49usize,
            Param::PidMinAcc => 50usize,
            Param::PidMaxJerk => 51usize,
            Param::PidMinJerk => 52usize,
            Param::PidDelayCompensationTime => 53usize,
            Param::PidStoppedAcc => 54usize,
            Param::PidEmergencyAcc => 55usize,
            Param::MpcPredictionHorizon => 56usize,
            Param::MpcPredictionDt => 57usize,
            Param::MpcSteerTau => 58usize,
            Param::MpcSteeringLpfGain => 59usize,
            Param::MpcInputDelay => 60usize,
            Param::MpcSteerRateLim => 61usize,
        }
    }

    /// Name on the parameter server.
    #[verifier::allow_in_spec]
    pub fn name(self) -> &'static str
        returns
            (match self {
                Param::StopFilterVxThreshold => "stop_filter.vx_threshold",
                Param::StopFilterWzThreshold => "stop_filter.wz_threshold",
                Param::VelocityConverterSpeedScaleFactor => "velocity_converter.speed_scale_factor",
                Param::VelocityConverterStddevVx => "velocity_converter.stddev_vx",
                Param::VelocityConverterStddevWz => "velocity_converter.stddev_wz",
                Param::Twist2accelAccelLowpassGain => "twist2accel.accel_lowpass_gain",
                Param::HeartbeatTimeoutMs => "heartbeat.timeout_ms",
                Param::MrmEmergencyStopTargetAcceleration => "mrm_emergency_stop.target_acceleration",
                Param::MrmEmergencyStopTargetJerk => "mrm_emergency_stop.target_jerk",
                Param::MrmComfortableStopMinAcceleration => "mrm_comfortable_stop.min_acceleration",
                Param::MrmComfortableStopMinJerk => "mrm_comfortable_stop.min_jerk",
                Param::MrmHandlerStoppedVelocityThreshold => "mrm_handler.stopped_velocity_threshold",
                Param::ShiftDeciderParkOnGoal => "shift_decider.park_on_goal",
                Param::VehicleCmdGateHeartbeatTimeoutMs => "vehicle_cmd_gate.heartbeat_timeout_ms",
                Param::VehicleCmdGateStopHoldAccel => "vehicle_cmd_gate.stop_hold_accel",
                Param::VehicleCmdGateEmergencyAccel => "vehicle_cmd_gate.emergency_accel",
                Param::VehicleCmdGateVelLim => "vehicle_cmd_gate.vel_lim",
                Param::ControlValidatorAccErrorOffset => "control_validator.acc_error_offset",
                Param::ControlValidatorAccErrorScale => "control_validator.acc_error_scale",
                Param::ControlValidatorAccLpfGain => "control_validator.acc_lpf_gain",
                Param::ControlValidatorRollingBackVelocity => "control_validator.rolling_back_velocity",
                Param::ControlValidatorOverVelocityRatio => "control_validator.over_velocity_ratio",
                Param::ControlValidatorOverVelocityOffset => "control_validator.over_velocity_offset",
                Param::ControlValidatorVelLpfGain => "control_validator.vel_lpf_gain",
                Param::ControlValidatorLateralJerkThreshold => "control_validator.lateral_jerk_threshold",
                Param::ControlValidatorJerkLpfGain => "control_validator.jerk_lpf_gain",
                Param::OpModeAllowAutonomousInStopped => "op_mode.allow_autonomous_in_stopped",
                Param::OpModeStoppedVelocityThreshold => "op_mode.stopped_velocity_threshold",
                Param::OpModeEnableEngageOnDriving => "op_mode.enable_engage_on_driving",
                Param::OpModeAccThreshold => "op_mode.acc_threshold",
                Param::OpModeSpeedUpperThreshold => "op_mode.speed_upper_threshold",
                Param::OpModeSpeedLowerThreshold => "op_mode.speed_lower_threshold",
                Param::OpModeStableCheckDuration => "op_mode.stable_check_duration",
                Param::VehicleInfoWheelBase => "vehicle_info.wheel_base",
                Param::VehicleInfoMaxSteerAngle => "vehicle_info.max_steer_angle",
                Param::VehicleInfoWheelRadius => "vehicle_info.wheel_radius",
                Param::VehicleInfoWheelWidth => "vehicle_info.wheel_width",
                Param::VehicleInfoWheelTread => "vehicle_info.wheel_tread",
                Param::VehicleInfoFrontOverhang => "vehicle_info.front_overhang",
                Param::VehicleInfoRearOverhang => "vehicle_info.rear_overhang",
                Param::VehicleInfoLeftOverhang => "vehicle_info.left_overhang",
                Param::VehicleInfoRightOverhang => "vehicle_info.right_overhang",
                Param::VehicleInfoVehicleHeight => "vehicle_info.vehicle_height",
                Param::ControllerCtrlPeriod => "controller.ctrl_period",
                Param::ControllerEgoNearestDistThreshold => "controller.ego_nearest_dist_threshold",
                Param::ControllerEgoNearestYawThreshold => "controller.ego_nearest_yaw_threshold",
                Param::PidKp => "pid.kp",
                Param::PidKi => "pid.ki",
                Param::PidKd => "pid.kd",
                Param::PidMaxAcc => "pid.max_acc",
                Param::PidMinAcc => "pid.min_acc",
                Param::PidMaxJerk => "pid.max_jerk",
                Param::PidMinJerk => "pid.min_jerk",
                Param::PidDelayCompensationTime => "pid.delay_compensation_time",
                Param::PidStoppedAcc => "pid.stopped_acc",
                Param::PidEmergencyAcc => "pid.emergency_acc",
                Param::MpcPredictionHorizon => "mpc.prediction_horizon",
                Param::MpcPredictionDt => "mpc.prediction_dt",
                Param::MpcSteerTau => "mpc.steer_tau",
                Param::MpcSteeringLpfGain => "mpc.steering_lpf_gain",
                Param::MpcInputDelay => "mpc.input_delay",
                Param::MpcSteerRateLim => "mpc.steer_rate_lim",
            }),
    {
        match self {
            Param::StopFilterVxThreshold => "stop_filter.vx_threshold",
            Param::StopFilterWzThreshold => "stop_filter.wz_threshold",
            Param::VelocityConverterSpeedScaleFactor => "velocity_converter.speed_scale_factor",
            Param::VelocityConverterStddevVx => "velocity_converter.stddev_vx",
            Param::VelocityConverterStddevWz => "velocity_converter.stddev_wz",
            Param::Twist2accelAccelLowpassGain => "twist2accel.accel_lowpass_gain",
            Param::HeartbeatTimeoutMs => "heartbeat.timeout_ms",
            Param::MrmEmergencyStopTargetAcceleration => "mrm_emergency_stop.target_acceleration",
            Param::MrmEmergencyStopTargetJerk => "mrm_emergency_stop.target_jerk",
            Param::MrmComfortableStopMinAcceleration => "mrm_comfortable_stop.min_acceleration",
            Param::MrmComfortableStopMinJerk => "mrm_comfortable_stop.min_jerk",
            Param::MrmHandlerStoppedVelocityThreshold => "mrm_handler.stopped_velocity_threshold",
            Param::ShiftDeciderParkOnGoal => "shift_decider.park_on_goal",
            Param::VehicleCmdGateHeartbeatTimeoutMs => "vehicle_cmd_gate.heartbeat_timeout_ms",
            Param::VehicleCmdGateStopHoldAccel => "vehicle_cmd_gate.stop_hold_accel",
            Param::VehicleCmdGateEmergencyAccel => "vehicle_cmd_gate.emergency_accel",
            Param::VehicleCmdGateVelLim => "vehicle_cmd_gate.vel_lim",
            Param::ControlValidatorAccErrorOffset => "control_validator.acc_error_offset",
            Param::ControlValidatorAccErrorScale => "control_validator.acc_error_scale",
            Param::ControlValidatorAccLpfGain => "control_validator.acc_lpf_gain",
            Param::ControlValidatorRollingBackVelocity => "control_validator.rolling_back_velocity",
            Param::ControlValidatorOverVelocityRatio => "control_validator.over_velocity_ratio",
            Param::ControlValidatorOverVelocityOffset => "control_validator.over_velocity_offset",
            Param::ControlValidatorVelLpfGain => "control_validator.vel_lpf_gain",
            Param::ControlValidatorLateralJerkThreshold => "control_validator.lateral_jerk_threshold",
            Param::ControlValidatorJerkLpfGain => "control_validator.jerk_lpf_gain",
            Param::OpModeAllowAutonomousInStopped => "op_mode.allow_autonomous_in_stopped",
            Param::OpModeStoppedVelocityThreshold => "op_mode.stopped_velocity_threshold",
            Param::OpModeEnableEngageOnDriving => "op_mode.enable_engage_on_driving",
            Param::OpModeAccThreshold => "op_mode.acc_threshold",
            Param::OpModeSpeedUpperThreshold => "op_mode.speed_upper_threshold",
            Param::OpModeSpeedLowerThreshold => "op_mode.speed_lower_threshold",
            Param::OpModeStableCheckDuration => "op_mode.stable_check_duration",
            Param::VehicleInfoWheelBase => "vehicle_info.wheel_base",
            Param::VehicleInfoMaxSteerAngle => "vehicle_info.max_steer_angle",
            Param::VehicleInfoWheelRadius => "vehicle_info.wheel_radius",
            Param::VehicleInfoWheelWidth => "vehicle_info.wheel_width",
            Param::VehicleInfoWheelTread => "vehicle_info.wheel_tread",
            Param::VehicleInfoFrontOverhang => "vehicle_info.front_overhang",
            Param::VehicleInfoRearOverhang => "vehicle_info.rear_overhang",
            Param::VehicleInfoLeftOverhang => "vehicle_info.left_overhang",
            Param::VehicleInfoRightOverhang => "vehicle_info.right_overhang",
            Param::VehicleInfoVehicleHeight => "vehicle_info.vehicle_height",
            Param::ControllerCtrlPeriod => "controller.ctrl_period",
            Param::ControllerEgoNearestDistThreshold => "controller.ego_nearest_dist_threshold",
            Param::ControllerEgoNearestYawThreshold => "controller.ego_nearest_yaw_threshold",
            Param::PidKp => "pid.kp",
            Param::PidKi => "pid.ki",
            Param::PidKd => "pid.kd",
            Param::PidMaxAcc => "pid.max_acc",
            Param::PidMinAcc => "pid.min_acc",
            Param::PidMaxJerk => "pid.max_jerk",
            Param::PidMinJerk => "pid.min_jerk",
            Param::PidDelayCompensationTime => "pid.delay_compensation_time",
            Param::PidStoppedAcc => "pid.stopped_acc",
            Param::PidEmergencyAcc => "pid.emergency_acc",
            Param::MpcPredictionHorizon => "mpc.prediction_horizon",
            Param::MpcPredictionDt => "mpc.prediction_dt",
            Param::MpcSteerTau => "mpc.steer_tau",
            Param::MpcSteeringLpfGain => "mpc.steering_lpf_gain",
            Param::MpcInputDelay => "mpc.input_delay",
            Param::MpcSteerRateLim => "mpc.steer_rate_lim",
        }
    }

    /// Value unless configured otherwise.
    #[verifier::allow_in_spec]
    pub fn default_value(self) -> ParamValue
        returns
            (match self {
                Param::StopFilterVxThreshold => ParamValue::Double(Real::plus(1, 1)),
                Param::StopFilterWzThreshold => ParamValue::Double(Real::plus(2, 2)),
                Param::VelocityConverterSpeedScaleFactor => ParamValue::Double(Real::plus(1, 0)),
                Param::VelocityConverterStddevVx => ParamValue::Double(Real::plus(2, 1)),
                Param::VelocityConverterStddevWz => ParamValue::Double(Real::plus(1, 1)),
                Param::Twist2accelAccelLowpassGain => ParamValue::Double(Real::plus(9, 1)),
                Param::HeartbeatTimeoutMs => ParamValue::Integer(60000),
                Param::MrmEmergencyStopTargetAcceleration => ParamValue::Double(Real::minus(25, 1)),
                Param::MrmEmergencyStopTargetJerk => ParamValue::Double(Real::minus(15, 1)),
                Param::MrmComfortableStopMinAcceleration => ParamValue::Double(Real::minus(1, 0)),
                Param::MrmComfortableStopMinJerk => ParamValue::Double(Real::minus(3, 1)),
                Param::MrmHandlerStoppedVelocityThreshold => ParamValue::Double(Real::plus(1, 3)),
                Param::ShiftDeciderParkOnGoal => ParamValue::Bool(true),
                Param::VehicleCmdGateHeartbeatTimeoutMs => ParamValue::Integer(5000),
                Param::VehicleCmdGateStopHoldAccel => ParamValue::Double(Real::minus(15, 1)),
                Param::VehicleCmdGateEmergencyAccel => ParamValue::Double(Real::minus(24, 1)),
                Param::VehicleCmdGateVelLim => ParamValue::Double(Real::plus(25, 0)),
                Param::ControlValidatorAccErrorOffset => ParamValue::Double(Real::plus(8, 1)),
                Param::ControlValidatorAccErrorScale => ParamValue::Double(Real::plus(2, 1)),
                Param::ControlValidatorAccLpfGain => ParamValue::Double(Real::plus(97, 2)),
                Param::ControlValidatorRollingBackVelocity => ParamValue::Double(Real::plus(5, 1)),
                Param::ControlValidatorOverVelocityRatio => ParamValue::Double(Real::plus(2, 1)),
                Param::ControlValidatorOverVelocityOffset => ParamValue::Double(Real::plus(2, 0)),
                Param::ControlValidatorVelLpfGain => ParamValue::Double(Real::plus(9, 1)),
                Param::ControlValidatorLateralJerkThreshold => ParamValue::Double(
                    Real::plus(10, 0),
                ),
                Param::ControlValidatorJerkLpfGain => ParamValue::Double(Real::plus(8, 1)),
                Param::OpModeAllowAutonomousInStopped => ParamValue::Bool(true),
                Param::OpModeStoppedVelocityThreshold => ParamValue::Double(Real::plus(1, 2)),
                Param::OpModeEnableEngageOnDriving => ParamValue::Bool(false),
                Param::OpModeAccThreshold => ParamValue::Double(Real::plus(15, 1)),
                Param::OpModeSpeedUpperThreshold => ParamValue::Double(Real::plus(10, 0)),
                Param::OpModeSpeedLowerThreshold => ParamValue::Double(Real::minus(10, 0)),
                Param::OpModeStableCheckDuration => ParamValue::Double(Real::plus(1, 1)),
                Param::VehicleInfoWheelBase => ParamValue::Double(Real::plus(279, 2)),
                Param::VehicleInfoMaxSteerAngle => ParamValue::Double(Real::plus(7, 1)),
                Param::VehicleInfoWheelRadius => ParamValue::Double(Real::plus(383, 3)),
                Param::VehicleInfoWheelWidth => ParamValue::Double(Real::plus(235, 3)),
                Param::VehicleInfoWheelTread => ParamValue::Double(Real::plus(164, 2)),
                Param::VehicleInfoFrontOverhang => ParamValue::Double(Real::plus(1, 0)),
                Param::VehicleInfoRearOverhang => ParamValue::Double(Real::plus(11, 1)),
                Param::VehicleInfoLeftOverhang => ParamValue::Double(Real::plus(128, 3)),
                Param::VehicleInfoRightOverhang => ParamValue::Double(Real::plus(128, 3)),
                Param::VehicleInfoVehicleHeight => ParamValue::Double(Real::plus(25, 1)),
                Param::ControllerCtrlPeriod => ParamValue::Double(Real::plus(33, 3)),
                Param::ControllerEgoNearestDistThreshold => ParamValue::Double(Real::plus(3, 0)),
                Param::ControllerEgoNearestYawThreshold => ParamValue::Double(Real::plus(157, 2)),
                Param::PidKp => ParamValue::Double(Real::plus(1, 0)),
                Param::PidKi => ParamValue::Double(Real::plus(1, 1)),
                Param::PidKd => ParamValue::Double(Real::plus(0, 0)),
                Param::PidMaxAcc => ParamValue::Double(Real::plus(3, 0)),
                Param::PidMinAcc => ParamValue::Double(Real::minus(5, 0)),
                Param::PidMaxJerk => ParamValue::Double(Real::plus(2, 0)),
                Param::PidMinJerk => ParamValue::Double(Real::minus(5, 0)),
                Param::PidDelayCompensationTime => ParamValue::Double(Real::plus(17, 2)),
                Param::PidStoppedAcc => ParamValue::Double(Real::minus(34, 1)),
                Param::PidEmergencyAcc => ParamValue::Double(Real::minus(5, 0)),
                Param::MpcPredictionHorizon => ParamValue::Integer(50),
                Param::MpcPredictionDt => ParamValue::Double(Real::plus(1, 1)),
                Param::MpcSteerTau => ParamValue::Double(Real::plus(27, 2)),
                Param::MpcSteeringLpfGain => ParamValue::Double(Real::plus(8, 1)),
                Param::MpcInputDelay => ParamValue::Double(Real::plus(0, 0)),
                Param::MpcSteerRateLim => ParamValue::Double(Real::plus(17321, 4)),
            }),
    {
        match self {
            Param::StopFilterVxThreshold => ParamValue::Double(Real::plus(1, 1)),
            Param::StopFilterWzThreshold => ParamValue::Double(Real::plus(2, 2)),
            Param::VelocityConverterSpeedScaleFactor => ParamValue::Double(Real::plus(1, 0)),
            Param::VelocityConverterStddevVx => ParamValue::Double(Real::plus(2, 1)),
            Param::VelocityConverterStddevWz => ParamValue::Double(Real::plus(1, 1)),
            Param::Twist2accelAccelLowpassGain => ParamValue::Double(Real::plus(9, 1)),
            Param::HeartbeatTimeoutMs => ParamValue::Integer(60000),
            Param::MrmEmergencyStopTargetAcceleration => ParamValue::Double(Real::minus(25, 1)),
            Param::MrmEmergencyStopTargetJerk => ParamValue::Double(Real::minus(15, 1)),
            Param::MrmComfortableStopMinAcceleration => ParamValue::Double(Real::minus(1, 0)),
            Param::MrmComfortableStopMinJerk => ParamValue::Double(Real::minus(3, 1)),
            Param::MrmHandlerStoppedVelocityThreshold => ParamValue::Double(Real::plus(1, 3)),
            Param::ShiftDeciderParkOnGoal => ParamValue::Bool(true),
            Param::VehicleCmdGateHeartbeatTimeoutMs => ParamValue::Integer(5000),
            Param::VehicleCmdGateStopHoldAccel => ParamValue::Double(Real::minus(15, 1)),
            Param::VehicleCmdGateEmergencyAccel => ParamValue::Double(Real::minus(24, 1)),
            Param::VehicleCmdGateVelLim => ParamValue::Double(Real::plus(25, 0)),
            Param::ControlValidatorAccErrorOffset => ParamValue::Double(Real::plus(8, 1)),
            Param::ControlValidatorAccErrorScale => ParamValue::Double(Real::plus(2, 1)),
            Param::ControlValidatorAccLpfGain => ParamValue::Double(Real::plus(97, 2)),
            Param::ControlValidatorRollingBackVelocity => ParamValue::Double(Real::plus(5, 1)),
            Param::ControlValidatorOverVelocityRatio => ParamValue::Double(Real::plus(2, 1)),
            Param::ControlValidatorOverVelocityOffset => ParamValue::Double(Real::plus(2, 0)),
            Param::ControlValidatorVelLpfGain => ParamValue::Double(Real::plus(9, 1)),
            Param::ControlValidatorLateralJerkThreshold => ParamValue::Double(Real::plus(10, 0)),
            Param::ControlValidatorJerkLpfGain => ParamValue::Double(Real::plus(8, 1)),
            Param::OpModeAllowAutonomousInStopped => ParamValue::Bool(true),
            Param::OpModeStoppedVelocityThreshold => ParamValue::Double(Real::plus(1, 2)),
            Param::OpModeEnableEngageOnDriving => ParamValue::Bool(false),
            Param::OpModeAccThreshold => ParamValue::Double(Real::plus(15, 1)),
            Param::OpModeSpeedUpperThreshold => ParamValue::Double(Real::plus(10, 0)),
            Param::OpModeSpeedLowerThreshold => ParamValue::Double(Real::minus(10, 0)),
            Param::OpModeStableCheckDuration => ParamValue::Double(Real::plus(1, 1)),
            Param::VehicleInfoWheelBase => ParamValue::Double(Real::plus(279, 2)),
            Param::VehicleInfoMaxSteerAngle => ParamValue::Double(Real::plus(7, 1)),
            Param::VehicleInfoWheelRadius => ParamValue::Double(Real::plus(383, 3)),
            Param::VehicleInfoWheelWidth => ParamValue::Double(Real::plus(235, 3)),
            Param::VehicleInfoWheelTread => ParamValue::Double(Real::plus(164, 2)),
            Param::VehicleInfoFrontOverhang => ParamValue::Double(Real::plus(1, 0)),
            Param::VehicleInfoRearOverhang => ParamValue::Double(Real::plus(11, 1)),
            Param::VehicleInfoLeftOverhang => ParamValue::Double(Real::plus(128, 3)),
            Param::VehicleInfoRightOverhang => ParamValue::Double(Real::plus(128, 3)),
            Param::VehicleInfoVehicleHeight => ParamValue::Double(Real::plus(25, 1)),
            Param::ControllerCtrlPeriod => ParamValue::Double(Real::plus(33, 3)),
            Param::ControllerEgoNearestDistThreshold => ParamValue::Double(Real::plus(3, 0)),
            Param::ControllerEgoNearestYawThreshold => ParamValue::Double(Real::plus(157, 2)),
            Param::PidKp => ParamValue::Double(Real::plus(1, 0)),
            Param::PidKi => ParamValue::Double(Real::plus(1, 1)),
            Param::PidKd => ParamValue::Double(Real::plus(0, 0)),
            Param::PidMaxAcc => ParamValue::Double(Real::plus(3, 0)),
            Param::PidMinAcc => ParamValue::Double(Real::minus(5, 0)),
            Param::PidMaxJerk => ParamValue::Double(Real::plus(2, 0)),
            Param::PidMinJerk => ParamValue::Double(Real::minus(5, 0)),
            Param::PidDelayCompensationTime => ParamValue::Double(Real::plus(17, 2)),
            Param::PidStoppedAcc => ParamValue::Double(Real::minus(34, 1)),
            Param::PidEmergencyAcc => ParamValue::Double(Real::minus(5, 0)),
            Param::MpcPredictionHorizon => ParamValue::Integer(50),
            Param::MpcPredictionDt => ParamValue::Double(Real::plus(1, 1)),
            Param::MpcSteerTau => ParamValue::Double(Real::plus(27, 2)),
            Param::MpcSteeringLpfGain => ParamValue::Double(Real::plus(8, 1)),
            Param::MpcInputDelay => ParamValue::Double(Real::plus(0, 0)),
            Param::MpcSteerRateLim => ParamValue::Double(Real::plus(17321, 4)),
        }
    }

    /// What the parameter means, with its unit.
    #[verifier::allow_in_spec]
    pub fn description(self) -> &'static str
        returns
            (match self {
                Param::StopFilterVxThreshold => "Velocity stop threshold (m/s)",
                Param::StopFilterWzThreshold => "Angular velocity stop threshold (rad/s)",
                Param::VelocityConverterSpeedScaleFactor => "Speed scaling factor",
                Param::VelocityConverterStddevVx => "Longitudinal velocity std dev (m/s)",
                Param::VelocityConverterStddevWz => "Angular velocity std dev (rad/s)",
                Param::Twist2accelAccelLowpassGain => "Acceleration lowpass filter gain",
                Param::HeartbeatTimeoutMs => "Heartbeat timeout (ms) — set high to account for zenoh discovery delay",
                Param::MrmEmergencyStopTargetAcceleration => "Emergency stop target acceleration (m/s^2)",
                Param::MrmEmergencyStopTargetJerk => "Emergency stop target jerk (m/s^3)",
                Param::MrmComfortableStopMinAcceleration => "Comfortable stop min acceleration (m/s^2)",
                Param::MrmComfortableStopMinJerk => "Comfortable stop min jerk (m/s^3)",
                Param::MrmHandlerStoppedVelocityThreshold => "Velocity below which vehicle is stopped (m/s)",
                Param::ShiftDeciderParkOnGoal => "Shift to park when goal reached",
                Param::VehicleCmdGateHeartbeatTimeoutMs => "Gate heartbeat timeout (ms)",
                Param::VehicleCmdGateStopHoldAccel => "Stop-hold acceleration (m/s^2)",
                Param::VehicleCmdGateEmergencyAccel => "Emergency acceleration (m/s^2)",
                Param::VehicleCmdGateVelLim => "Velocity limit (m/s)",
                Param::ControlValidatorAccErrorOffset => "Acceleration error offset (m/s^2)",
                Param::ControlValidatorAccErrorScale => "Acceleration error scale factor",
                Param::ControlValidatorAccLpfGain => "Acceleration LPF gain",
                Param::ControlValidatorRollingBackVelocity => "Rolling back velocity threshold (m/s)",
                Param::ControlValidatorOverVelocityRatio => "Over-velocity ratio threshold",
                Param::ControlValidatorOverVelocityOffset => "Over-velocity offset (m/s)",
                Param::ControlValidatorVelLpfGain => "Velocity LPF gain",
                Param::ControlValidatorLateralJerkThreshold => "Lateral jerk threshold (m/s^3)",
                Param::ControlValidatorJerkLpfGain => "Lateral jerk LPF gain",
                Param::OpModeAllowAutonomousInStopped => "Allow autonomous engagement when stopped",
                Param::OpModeStoppedVelocityThreshold => "Stopped velocity threshold (m/s)",
                Param::OpModeEnableEngageOnDriving => "Allow engagement while driving",
                Param::OpModeAccThreshold => "Acceleration threshold for engagement (m/s^2)",
                Param::OpModeSpeedUpperThreshold => "Upper speed threshold (m/s)",
                Param::OpModeSpeedLowerThreshold => "Lower speed threshold (m/s)",
                Param::OpModeStableCheckDuration => "Stable check duration (s)",
                Param::VehicleInfoWheelBase => "Wheel base (m)",
                Param::VehicleInfoMaxSteerAngle => "Max steering angle (rad)",
                Param::VehicleInfoWheelRadius => "Wheel radius (m)",
                Param::VehicleInfoWheelWidth => "Wheel width (m)",
                Param::VehicleInfoWheelTread => "Wheel tread (m)",
                Param::VehicleInfoFrontOverhang => "Front overhang (m)",
                Param::VehicleInfoRearOverhang => "Rear overhang (m)",
                Param::VehicleInfoLeftOverhang => "Left overhang (m)",
                Param::VehicleInfoRightOverhang => "Right overhang (m)",
                Param::VehicleInfoVehicleHeight => "Vehicle height (m)",
                Param::ControllerCtrlPeriod => "Control period (s)",
                Param::ControllerEgoNearestDistThreshold => "Nearest point distance threshold (m)",
                Param::ControllerEgoNearestYawThreshold => "Nearest point yaw threshold (rad)",
                Param::PidKp => "PID proportional gain",
                Param::PidKi => "PID integral gain",
                Param::PidKd => "PID derivative gain",
                Param::PidMaxAcc => "Max acceleration (m/s^2)",
                Param::PidMinAcc => "Min acceleration (m/s^2)",
                Param::PidMaxJerk => "Max jerk (m/s^3)",
                Param::PidMinJerk => "Min jerk (m/s^3)",
                Param::PidDelayCompensationTime => "Delay compensation time (s)",
                Param::PidStoppedAcc => "Stopped state acceleration (m/s^2)",
                Param::PidEmergencyAcc => "Emergency state acceleration (m/s^2)",
                Param::MpcPredictionHorizon => "MPC prediction horizon (steps)",
                Param::MpcPredictionDt => "MPC prediction time step (s)",
                Param::MpcSteerTau => "Steering time constant (s)",
                Param::MpcSteeringLpfGain => "Steering output LPF gain",
                Param::MpcInputDelay => "Input delay compensation (s)",
                Param::MpcSteerRateLim => "Steering rate limit (rad/s)",
            }),
    {
        match self {
            Param::StopFilterVxThreshold => "Velocity stop threshold (m/s)",
            Param::StopFilterWzThreshold => "Angular velocity stop threshold (rad/s)",
            Param::VelocityConverterSpeedScaleFactor => "Speed scaling factor",
            Param::VelocityConverterStddevVx => "Longitudinal velocity std dev (m/s)",
            Param::VelocityConverterStddevWz => "Angular velocity std dev (rad/s)",
            Param::Twist2accelAccelLowpassGain => "Acceleration lowpass filter gain",
            Param::HeartbeatTimeoutMs => "Heartbeat timeout (ms) — set high to account for zenoh discovery delay",
            Param::MrmEmergencyStopTargetAcceleration => "Emergency stop target acceleration (m/s^2)",
            Param::MrmEmergencyStopTargetJerk => "Emergency stop target jerk (m/s^3)",
            Param::MrmComfortableStopMinAcceleration => "Comfortable stop min acceleration (m/s^2)",
            Param::MrmComfortableStopMinJerk => "Comfortable stop min jerk (m/s^3)",
            Param::MrmHandlerStoppedVelocityThreshold => "Velocity below which vehicle is stopped (m/s)",
            Param::ShiftDeciderParkOnGoal => "Shift to park when goal reached",
            Param::VehicleCmdGateHeartbeatTimeoutMs => "Gate heartbeat timeout (ms)",
            Param::VehicleCmdGateStopHoldAccel => "Stop-hold acceleration (m/s^2)",
            Param::VehicleCmdGateEmergencyAccel => "Emergency acceleration (m/s^2)",
            Param::VehicleCmdGateVelLim => "Velocity limit (m/s)",
            Param::ControlValidatorAccErrorOffset => "Acceleration error offset (m/s^2)",
            Param::ControlValidatorAccErrorScale => "Acceleration error scale factor",
            Param::ControlValidatorAccLpfGain => "Acceleration LPF gain",
            Param::ControlValidatorRollingBackVelocity => "Rolling back velocity threshold (m/s)",
            Param::ControlValidatorOverVelocityRatio => "Over-velocity ratio threshold",
            Param::ControlValidatorOverVelocityOffset => "Over-velocity offset (m/s)",
            Param::ControlValidatorVelLpfGain => "Velocity LPF gain",
            Param::ControlValidatorLateralJerkThreshold => "Lateral jerk threshold (m/s^3)",
            Param::ControlValidatorJerkLpfGain => "Lateral jerk LPF gain",
            Param::OpModeAllowAutonomousInStopped => "Allow autonomous engagement when stopped",
            Param::OpModeStoppedVelocityThreshold => "Stopped velocity threshold (m/s)",
            Param::OpModeEnableEngageOnDriving => "Allow engagement while driving",
            Param::OpModeAccThreshold => "Acceleration threshold for engagement (m/s^2)",
            Param::OpModeSpeedUpperThreshold => "Upper speed threshold (m/s)",
            Param::OpModeSpeedLowerThreshold => "Lower speed threshold (m/s)",
            Param::OpModeStableCheckDuration => "Stable check duration (s)",
            Param::VehicleInfoWheelBase => "Wheel base (m)",
            Param::VehicleInfoMaxSteerAngle => "Max steering angle (rad)",
            Param::VehicleInfoWheelRadius => "Wheel radius (m)",
            Param::VehicleInfoWheelWidth => "Wheel width (m)",
            Param::VehicleInfoWheelTread => "Wheel tread (m)",
            Param::VehicleInfoFrontOverhang => "Front overhang (m)",
            Param::VehicleInfoRearOverhang => "Rear overhang (m)",
            Param::VehicleInfoLeftOverhang => "Left overhang (m)",
            Param::VehicleInfoRightOverhang => "Right overhang (m)",
            Param::VehicleInfoVehicleHeight => "Vehicle height (m)",
            Param::ControllerCtrlPeriod => "Control period (s)",
            Param::ControllerEgoNearestDistThreshold => "Nearest point distance threshold (m)",
            Param::ControllerEgoNearestYawThreshold => "Nearest point yaw threshold (rad)",
            Param::PidKp => "PID proportional gain",
            Param::PidKi => "PID integral gain",
            Param::PidKd => "PID derivative gain",
            Param::PidMaxAcc => "Max acceleration (m/s^2)",
            Param::PidMinAcc => "Min acceleration (m/s^2)",
            Param::PidMaxJerk => "Max jerk (m/s^3)",
            Param::PidMinJerk => "Min jerk (m/s^3)",
            Param::PidDelayCompensationTime => "Delay compensation time (s)",
            Param::PidStoppedAcc => "Stopped state acceleration (m/s^2)",
            Param::PidEmergencyAcc => "Emergency state acceleration (m/s^2)",
            Param::MpcPredictionHorizon => "MPC prediction horizon (steps)",
            Param::MpcPredictionDt => "MPC prediction time step (s)",
            Param::MpcSteerTau => "Steering time constant (s)",
            Param::MpcSteeringLpfGain => "Steering output LPF gain",
            Param::MpcInputDelay => "Input delay compensation (s)",
            Param::MpcSteerRateLim => "Steering rate limit (rad/s)",
        }
    }

    /// Whether the parameter is declared, with or without the trajectory follower.
    pub open spec fn is_declared(self, controller: bool) -> bool {
        controller || self.index() < ISLAND_PARAM_COUNT
    }

    /// Whether the settings of the algorithms depend on the parameter. Without the
    /// trajectory follower only the wheel base matters of the vehicle's dimensions.
    pub open spec fn is_read(self, controller: bool) -> bool {
        controller || self.index() <= Param::VehicleInfoWheelBase.index()
    }

    /// The first parameters in the order of declaration: all with the trajectory
    /// follower, the others without.
    pub fn declared(controller: bool) -> (r: Vec<Param>)
        ensures
            r@ == (if controller {
                all_params()
            } else {
                all_params().take(ISLAND_PARAM_COUNT as int)
            }),
    {
        let mut r: Vec<Param> = vec![
            Param::StopFilterVxThreshold,
            Param::StopFilterWzThreshold,
            Param::VelocityConverterSpeedScaleFactor,
            Param::VelocityConverterStddevVx,
            Param::VelocityConverterStddevWz,
            Param::Twist2accelAccelLowpassGain,
            Param::HeartbeatTimeoutMs,
            Param::MrmEmergencyStopTargetAcceleration,
            Param::MrmEmergencyStopTargetJerk,
            Param::MrmComfortableStopMinAcceleration,
            Param::MrmComfortableStopMinJerk,
            Param::MrmHandlerStoppedVelocityThreshold,
            Param::ShiftDeciderParkOnGoal,
            Param::VehicleCmdGateHeartbeatTimeoutMs,
            Param::VehicleCmdGateStopHoldAccel,
            Param::VehicleCmdGateEmergencyAccel,
            Param::VehicleCmdGateVelLim,
            Param::ControlValidatorAccErrorOffset,
            Param::ControlValidatorAccErrorScale,
            Param::ControlValidatorAccLpfGain,
            Param::ControlValidatorRollingBackVelocity,
            Param::ControlValidatorOverVelocityRatio,
            Param::ControlValidatorOverVelocityOffset,
            Param::ControlValidatorVelLpfGain,
            Param::ControlValidatorLateralJerkThreshold,
            Param::ControlValidatorJerkLpfGain,
            Param::OpModeAllowAutonomousInStopped,
            Param::OpModeStoppedVelocityThreshold,
            Param::OpModeEnableEngageOnDriving,
            Param::OpModeAccThreshold,
            Param::OpModeSpeedUpperThreshold,
            Param::OpModeSpeedLowerThreshold,
            Param::OpModeStableCheckDuration,
            Param::VehicleInfoWheelBase,
            Param::VehicleInfoMaxSteerAngle,
            Param::VehicleInfoWheelRadius,
            Param::VehicleInfoWheelWidth,
            Param::VehicleInfoWheelTread,
            Param::VehicleInfoFrontOverhang,
            Param::VehicleInfoRearOverhang,
            Param::VehicleInfoLeftOverhang,
            Param::VehicleInfoRightOverhang,
            Param::VehicleInfoVehicleHeight,
            Param::ControllerCtrlPeriod,
            Param::ControllerEgoNearestDistThreshold,
            Param::ControllerEgoNearestYawThreshold,
            Param::PidKp,
            Param::PidKi,
            Param::PidKd,
            Param::PidMaxAcc,
            Param::PidMinAcc,
            Param::PidMaxJerk,
            Param::PidMinJerk,
            Param::PidDelayCompensationTime,
            Param::PidStoppedAcc,
            Param::PidEmergencyAcc,
            Param::MpcPredictionHorizon,
            Param::MpcPredictionDt,
            Param::MpcSteerTau,
            Param::MpcSteeringLpfGain,
            Param::MpcInputDelay,
            Param::MpcSteerRateLim,
        ];
        assert(r@ =~= all_params());
        if !controller {
            r.truncate(ISLAND_PARAM_COUNT);
        }
        r
    }

    /// Finds a parameter by its name.
    pub fn from_name(name: &str) -> (r: Option<Param>)
        ensures
            r == param_named(name@),
    {
        let all = Param::declared(true);
        let mut i: usize = 0;
        while i < all.len()
            invariant
                i <= all.len(),
                all@ == all_params(),
                forall|k: int| 0 <= k < i ==> (#[trigger] all@[k]).name()@ != name@,
            decreases all.len() - i,
        {
            let p = all[i];
            if same(p.name(), name) {
                proof {
                    law_param_is_found_by_name(p);
                }
                return Some(p);
            }
            i += 1;
        }
        proof {
            assert forall|p: Param| (#[trigger] p.name())@ != name@ by {
                lemma_params_are_listed(p);
            }
        }
        None
    }
}

/// All parameters, in the order of declaration.
pub open spec fn all_params() -> Seq<Param> {
    seq![
        Param::StopFilterVxThreshold,
        Param::StopFilterWzThreshold,
        Param::VelocityConverterSpeedScaleFactor,
        Param::VelocityConverterStddevVx,
        Param::VelocityConverterStddevWz,
        Param::Twist2accelAccelLowpassGain,
        Param::HeartbeatTimeoutMs,
        Param::MrmEmergencyStopTargetAcceleration,
        Param::MrmEmergencyStopTargetJerk,
        Param::MrmComfortableStopMinAcceleration,
        Param::MrmComfortableStopMinJerk,
        Param::MrmHandlerStoppedVelocityThreshold,
        Param::ShiftDeciderParkOnGoal,
        Param::VehicleCmdGateHeartbeatTimeoutMs,
        Param::VehicleCmdGateStopHoldAccel,
        Param::VehicleCmdGateEmergencyAccel,
        Param::VehicleCmdGateVelLim,
        Param::ControlValidatorAccErrorOffset,
        Param::ControlValidatorAccErrorScale,
        Param::ControlValidatorAccLpfGain,
        Param::ControlValidatorRollingBackVelocity,
        Param::ControlValidatorOverVelocityRatio,
        Param::ControlValidatorOverVelocityOffset,
        Param::ControlValidatorVelLpfGain,
        Param::ControlValidatorLateralJerkThreshold,
        Param::ControlValidatorJerkLpfGain,
        Param::OpModeAllowAutonomousInStopped,
        Param::OpModeStoppedVelocityThreshold,
        Param::OpModeEnableEngageOnDriving,
        Param::OpModeAccThreshold,
        Param::OpModeSpeedUpperThreshold,
        Param::OpModeSpeedLowerThreshold,
        Param::OpModeStableCheckDuration,
        Param::VehicleInfoWheelBase,
        Param::VehicleInfoMaxSteerAngle,
        Param::VehicleInfoWheelRadius,
        Param::VehicleInfoWheelWidth,
        Param::VehicleInfoWheelTread,
        Param::VehicleInfoFrontOverhang,
        Param::VehicleInfoRearOverhang,
        Param::VehicleInfoLeftOverhang,
        Param::VehicleInfoRightOverhang,
        Param::VehicleInfoVehicleHeight,
        Param::ControllerCtrlPeriod,
        Param::ControllerEgoNearestDistThreshold,
        Param::ControllerEgoNearestYawThreshold,
        Param::PidKp,
        Param::PidKi,
        Param::PidKd,
        Param::PidMaxAcc,
        Param::PidMinAcc,
        Param::PidMaxJerk,
        Param::PidMinJerk,
        Param::PidDelayCompensationTime,
        Param::PidStoppedAcc,
        Param::PidEmergencyAcc,
        Param::MpcPredictionHorizon,
        Param::MpcPredictionDt,
        Param::MpcSteerTau,
        Param::MpcSteeringLpfGain,
        Param::MpcInputDelay,
        Param::MpcSteerRateLim,
    ]
}

/// The parameter of a given name, if there is one.
pub open spec fn param_named(name: Seq<char>) -> Option<Param> {
    if exists|p: Param| (#[trigger] p.name())@ == name {
        Some(choose|p: Param| (#[trigger] p.name())@ == name)
    } else {
        None
    }
}

/// Each parameter stands in the list once, at its own place.
pub proof fn lemma_params_are_listed(p: Param)
    ensures
        all_params().len() == PARAM_COUNT,
        p.index() < PARAM_COUNT,
        all_params()[p.index() as int] == p,
{
}

/// Each place of the list holds the parameter that belongs there.
pub proof fn lemma_listed_params(k: int)
    requires
        0 <= k < PARAM_COUNT,
    ensures
        all_params().len() == PARAM_COUNT,
        all_params()[k].index() == k,
{
}

/// Length of a parameter's name and its characters at places that tell the names apart.
spec fn param_name_marks(p: Param) -> (int, char, char, char, char, char) {
    match p {
        Param::StopFilterVxThreshold => (24, 'f', 'x', '_', 's', ' '),
        Param::StopFilterWzThreshold => (24, 'f', 'z', '_', 's', ' '),
        Param::VelocityConverterSpeedScaleFactor => (37, 'i', 'e', 'r', 's', 'c'),
        Param::VelocityConverterStddevVx => (28, 'i', 'e', 'r', 's', 'v'),
        Param::VelocityConverterStddevWz => (28, 'i', 'e', 'r', 's', 'w'),
        Param::Twist2accelAccelLowpassGain => (30, '2', 'c', 'c', 'o', 'g'),
        Param::HeartbeatTimeoutMs => (20, 'b', 'e', 'o', 's', ' '),
        Param::MrmEmergencyStopTargetAcceleration => (38, 'm', '_', 's', 't', 'a'),
        Param::MrmEmergencyStopTargetJerk => (30, 'm', '_', 's', 't', 'j'),
        Param::MrmComfortableStopMinAcceleration => (37, 'o', 'l', 'e', 'p', 'c'),
        Param::MrmComfortableStopMinJerk => (29, 'o', 'l', 'e', 'p', 'e'),
        Param::MrmHandlerStoppedVelocityThreshold => (38, 'a', 't', 'o', '_', 't'),
        Param::ShiftDeciderParkOnGoal => (26, '_', '.', 'p', 'o', ' '),
        Param::VehicleCmdGateHeartbeatTimeoutMs => (37, 'l', 'a', 't', 'a', '_'),
        Param::VehicleCmdGateStopHoldAccel => (32, 'l', 'a', 't', 'o', '_'),
        Param::VehicleCmdGateEmergencyAccel => (32, 'l', 'a', 't', 'e', '_'),
        Param::VehicleCmdGateVelLim => (24, 'l', 'a', 't', 'l', ' '),
        Param::ControlValidatorAccErrorOffset => (34, 'o', 'a', 't', 'c', 'r'),
        Param::ControlValidatorAccErrorScale => (33, 'o', 'a', 't', 'c', 'r'),
        Param::ControlValidatorAccLpfGain => (30, 'o', 'a', 't', 'c', 'g'),
        Param::ControlValidatorRollingBackVelocity => (39, 'o', 'a', 't', 'o', 'b'),
        Param::ControlValidatorOverVelocityRatio => (37, 'o', 'a', 't', 'v', 'o'),
        Param::ControlValidatorOverVelocityOffset => (38, 'o', 'a', 't', 'v', 'o'),
        Param::ControlValidatorVelLpfGain => (30, 'o', 'a', 't', 'e', 'g'),
        Param::ControlValidatorLateralJerkThreshold => (40, 'o', 'a', 't', 'a', 'j'),
        Param::ControlValidatorJerkLpfGain => (31, 'o', 'a', 't', 'e', '_'),
        Param::OpModeAllowAutonomousInStopped => (35, 'd', '_', 'a', 'o', 'n'),
        Param::OpModeStoppedVelocityThreshold => (34, 'd', 'e', 'd', 'o', 'h'),
        Param::OpModeEnableEngageOnDriving => (32, 'd', 'e', '_', 'g', 'r'),
        Param::OpModeAccThreshold => (21, 'd', 'h', 'r', 'l', ' '),
        Param::OpModeSpeedUpperThreshold => (29, 'd', '_', 'u', '_', 'o'),
        Param::OpModeSpeedLowerThreshold => (29, 'd', '_', 'l', '_', 'o'),
        Param::OpModeStableCheckDuration => (29, 'd', 'e', '_', 'k', 'i'),
        Param::VehicleInfoWheelBase => (23, 'l', 'w', 'h', 'b', ' '),
        Param::VehicleInfoMaxSteerAngle => (28, 'l', 'm', 'a', 'e', 'l'),
        Param::VehicleInfoWheelRadius => (25, 'l', 'w', 'h', 'r', ' '),
        Param::VehicleInfoWheelWidth => (24, 'l', 'w', 'h', 'w', ' '),
        Param::VehicleInfoWheelTread => (24, 'l', 'w', 'h', 't', ' '),
        Param::VehicleInfoFrontOverhang => (27, 'l', 'f', 'r', 'o', 'g'),
        Param::VehicleInfoRearOverhang => (26, 'l', 'r', 'e', 'v', ' '),
        Param::VehicleInfoLeftOverhang => (26, 'l', 'l', 'e', 'v', ' '),
        Param::VehicleInfoRightOverhang => (27, 'l', 'r', 'i', 'o', 'g'),
        Param::VehicleInfoVehicleHeight => (27, 'l', 'v', 'e', 'e', 't'),
        Param::ControllerCtrlPeriod => (22, 'o', 'r', 'l', 'i', ' '),
        Param::ControllerEgoNearestDistThreshold => (37, 'o', 'o', '_', 'e', 't'),
        Param::ControllerEgoNearestYawThreshold => (36, 'o', 'o', '_', 'e', '_'),
        Param::PidKp => (6, 'p', ' ', ' ', ' ', ' '),
        Param::PidKi => (6, 'i', ' ', ' ', ' ', ' '),
        Param::PidKd => (6, 'd', ' ', ' ', ' ', ' '),
        Param::PidMaxAcc => (11, 'a', ' ', ' ', ' ', ' '),
        Param::PidMinAcc => (11, 'i', ' ', ' ', ' ', ' '),
        Param::PidMaxJerk => (12, 'a', ' ', ' ', ' ', ' '),
        Param::PidMinJerk => (12, 'i', ' ', ' ', ' ', ' '),
        Param::PidDelayCompensationTime => (27, 'e', 'p', 'e', 'i', 'e'),
        Param::PidStoppedAcc => (15, 't', 'c', 'c', ' ', ' '),
        Param::PidEmergencyAcc => (17, 'm', '_', 'a', ' ', ' '),
        Param::MpcPredictionHorizon => (22, 'r', 'n', '_', 'z', ' '),
        Param::MpcPredictionDt => (17, 'r', 'n', '_', ' ', ' '),
        Param::MpcSteerTau => (13, 't', ' ', ' ', ' ', ' '),
        Param::MpcSteeringLpfGain => (21, 't', 'l', 'p', 'i', ' '),
        Param::MpcInputDelay => (15, 'n', 'a', 'y', ' ', ' '),
        Param::MpcSteerRateLim => (18, 't', 'e', '_', ' ', ' '),
    }
}

proof fn lemma_param_name_marks(p: Param)
    ensures
        p.name()@.len() == param_name_marks(p).0,
        p.name()@[5] == param_name_marks(p).1,
        13 < p.name()@.len() ==> p.name()@[13] == param_name_marks(p).2,
        14 < p.name()@.len() ==> p.name()@[14] == param_name_marks(p).3,
        19 < p.name()@.len() ==> p.name()@[19] == param_name_marks(p).4,
        26 < p.name()@.len() ==> p.name()@[26] == param_name_marks(p).5,
{
    match p {
        Param::StopFilterVxThreshold => {
            reveal_strlit("stop_filter.vx_threshold");
        },
        Param::StopFilterWzThreshold => {
            reveal_strlit("stop_filter.wz_threshold");
        },
        Param::VelocityConverterSpeedScaleFactor => {
            reveal_strlit("velocity_converter.speed_scale_factor");
        },
        Param::VelocityConverterStddevVx => {
            reveal_strlit("velocity_converter.stddev_vx");
        },
        Param::VelocityConverterStddevWz => {
            reveal_strlit("velocity_converter.stddev_wz");
        },
        Param::Twist2accelAccelLowpassGain => {
            reveal_strlit("twist2accel.accel_lowpass_gain");
        },
        Param::HeartbeatTimeoutMs => {
            reveal_strlit("heartbeat.timeout_ms");
        },
        Param::MrmEmergencyStopTargetAcceleration => {
            reveal_strlit("mrm_emergency_stop.target_acceleration");
        },
        Param::MrmEmergencyStopTargetJerk => {
            reveal_strlit("mrm_emergency_stop.target_jerk");
        },
        Param::MrmComfortableStopMinAcceleration => {
            reveal_strlit("mrm_comfortable_stop.min_acceleration");
        },
        Param::MrmComfortableStopMinJerk => {
            reveal_strlit("mrm_comfortable_stop.min_jerk");
        },
        Param::MrmHandlerStoppedVelocityThreshold => {
            reveal_strlit("mrm_handler.stopped_velocity_threshold");
        },
        Param::ShiftDeciderParkOnGoal => {
            reveal_strlit("shift_decider.park_on_goal");
        },
        Param::VehicleCmdGateHeartbeatTimeoutMs => {
            reveal_strlit("vehicle_cmd_gate.heartbeat_timeout_ms");
        },
        Param::VehicleCmdGateStopHoldAccel => {
            reveal_strlit("vehicle_cmd_gate.stop_hold_accel");
        },
        Param::VehicleCmdGateEmergencyAccel => {
            reveal_strlit("vehicle_cmd_gate.emergency_accel");
        },
        Param::VehicleCmdGateVelLim => {
            reveal_strlit("vehicle_cmd_gate.vel_lim");
        },
        Param::ControlValidatorAccErrorOffset => {
            reveal_strlit("control_validator.acc_error_offset");
        },
        Param::ControlValidatorAccErrorScale => {
            reveal_strlit("control_validator.acc_error_scale");
        },
        Param::ControlValidatorAccLpfGain => {
            reveal_strlit("control_validator.acc_lpf_gain");
        },
        Param::ControlValidatorRollingBackVelocity => {
            reveal_strlit("control_validator.rolling_back_velocity");
        },
        Param::ControlValidatorOverVelocityRatio => {
            reveal_strlit("control_validator.over_velocity_ratio");
        },
        Param::ControlValidatorOverVelocityOffset => {
            reveal_strlit("control_validator.over_velocity_offset");
        },
        Param::ControlValidatorVelLpfGain => {
            reveal_strlit("control_validator.vel_lpf_gain");
        },
        Param::ControlValidatorLateralJerkThreshold => {
            reveal_strlit("control_validator.lateral_jerk_threshold");
        },
        Param::ControlValidatorJerkLpfGain => {
            reveal_strlit("control_validator.jerk_lpf_gain");
        },
        Param::OpModeAllowAutonomousInStopped => {
            reveal_strlit("op_mode.allow_autonomous_in_stopped");
        },
        Param::OpModeStoppedVelocityThreshold => {
            reveal_strlit("op_mode.stopped_velocity_threshold");
        },
        Param::OpModeEnableEngageOnDriving => {
            reveal_strlit("op_mode.enable_engage_on_driving");
        },
        Param::OpModeAccThreshold => {
            reveal_strlit("op_mode.acc_threshold");
        },
        Param::OpModeSpeedUpperThreshold => {
            reveal_strlit("op_mode.speed_upper_threshold");
        },
        Param::OpModeSpeedLowerThreshold => {
            reveal_strlit("op_mode.speed_lower_threshold");
        },
        Param::OpModeStableCheckDuration => {
            reveal_strlit("op_mode.stable_check_duration");
        },
        Param::VehicleInfoWheelBase => {
            reveal_strlit("vehicle_info.wheel_base");
        },
        Param::VehicleInfoMaxSteerAngle => {
            reveal_strlit("vehicle_info.max_steer_angle");
        },
        Param::VehicleInfoWheelRadius => {
            reveal_strlit("vehicle_info.wheel_radius");
        },
        Param::VehicleInfoWheelWidth => {
            reveal_strlit("vehicle_info.wheel_width");
        },
        Param::VehicleInfoWheelTread => {
            reveal_strlit("vehicle_info.wheel_tread");
        },
        Param::VehicleInfoFrontOverhang => {
            reveal_strlit("vehicle_info.front_overhang");
        },
        Param::VehicleInfoRearOverhang => {
            reveal_strlit("vehicle_info.rear_overhang");
        },
        Param::VehicleInfoLeftOverhang => {
            reveal_strlit("vehicle_info.left_overhang");
        },
        Param::VehicleInfoRightOverhang => {
            reveal_strlit("vehicle_info.right_overhang");
        },
        Param::VehicleInfoVehicleHeight => {
            reveal_strlit("vehicle_info.vehicle_height");
        },
        Param::ControllerCtrlPeriod => {
            reveal_strlit("controller.ctrl_period");
        },
        Param::ControllerEgoNearestDistThreshold => {
            reveal_strlit("controller.ego_nearest_dist_threshold");
        },
        Param::ControllerEgoNearestYawThreshold => {
            reveal_strlit("controller.ego_nearest_yaw_threshold");
        },
        Param::PidKp => {
            reveal_strlit("pid.kp");
        },
        Param::PidKi => {
            reveal_strlit("pid.ki");
        },
        Param::PidKd => {
            reveal_strlit("pid.kd");
        },
        Param::PidMaxAcc => {
            reveal_strlit("pid.max_acc");
        },
        Param::PidMinAcc => {
            reveal_strlit("pid.min_acc");
        },
        Param::PidMaxJerk => {
            reveal_strlit("pid.max_jerk");
        },
        Param::PidMinJerk => {
            reveal_strlit("pid.min_jerk");
        },
        Param::PidDelayCompensationTime => {
            reveal_strlit("pid.delay_compensation_time");
        },
        Param::PidStoppedAcc => {
            reveal_strlit("pid.stopped_acc");
        },
        Param::PidEmergencyAcc => {
            reveal_strlit("pid.emergency_acc");
        },
        Param::MpcPredictionHorizon => {
            reveal_strlit("mpc.prediction_horizon");
        },
        Param::MpcPredictionDt => {
            reveal_strlit("mpc.prediction_dt");
        },
        Param::MpcSteerTau => {
            reveal_strlit("mpc.steer_tau");
        },
        Param::MpcSteeringLpfGain => {
            reveal_strlit("mpc.steering_lpf_gain");
        },
        Param::MpcInputDelay => {
            reveal_strlit("mpc.input_delay");
        },
        Param::MpcSteerRateLim => {
            reveal_strlit("mpc.steer_rate_lim");
        },
    }
}

/// No two parameters have the same name.
pub proof fn law_param_names_differ(a: Param, b: Param)
    requires
        a.name()@ == b.name()@,
    ensures
        a == b,
{
    lemma_param_name_marks(a);
    lemma_param_name_marks(b);
}

/// A parameter is found by its name.
pub proof fn law_param_is_found_by_name(p: Param)
    ensures
        param_named(p.name()@) == Some(p),
{
    let found = choose|q: Param| (#[trigger] q.name())@ == p.name()@;
    law_param_names_differ(found, p);
}

/// The parameters that the settings depend on, in the order in which they are read. Those
/// of the trajectory follower come in the middle, where it is part of the build.
pub open spec fn read_order(controller: bool) -> Seq<Param> {
    seq![
        Param::VehicleInfoWheelBase,
        Param::VehicleCmdGateVelLim,
        Param::VehicleCmdGateStopHoldAccel,
        Param::VehicleCmdGateEmergencyAccel,
        Param::VehicleCmdGateHeartbeatTimeoutMs,
        Param::ControlValidatorAccErrorOffset,
        Param::ControlValidatorAccErrorScale,
        Param::ControlValidatorAccLpfGain,
        Param::ControlValidatorRollingBackVelocity,
        Param::ControlValidatorOverVelocityRatio,
        Param::ControlValidatorOverVelocityOffset,
        Param::ControlValidatorVelLpfGain,
        Param::ControlValidatorLateralJerkThreshold,
        Param::ControlValidatorJerkLpfGain,
        Param::OpModeAllowAutonomousInStopped,
        Param::OpModeStoppedVelocityThreshold,
        Param::OpModeEnableEngageOnDriving,
        Param::OpModeAccThreshold,
        Param::OpModeSpeedUpperThreshold,
        Param::OpModeSpeedLowerThreshold,
        Param::OpModeStableCheckDuration,
    ] + (if controller {
        seq![
            Param::VehicleInfoWheelRadius,
            Param::VehicleInfoWheelWidth,
            Param::VehicleInfoWheelTread,
            Param::VehicleInfoFrontOverhang,
            Param::VehicleInfoRearOverhang,
            Param::VehicleInfoLeftOverhang,
            Param::VehicleInfoRightOverhang,
            Param::VehicleInfoVehicleHeight,
            Param::VehicleInfoMaxSteerAngle,
            Param::PidKp,
            Param::PidKi,
            Param::PidKd,
            Param::PidMaxAcc,
            Param::PidMinAcc,
            Param::PidMaxJerk,
            Param::PidMinJerk,
            Param::PidDelayCompensationTime,
            Param::PidStoppedAcc,
            Param::PidEmergencyAcc,
            Param::ControllerCtrlPeriod,
            Param::MpcSteeringLpfGain,
            Param::MpcPredictionHorizon,
            Param::MpcPredictionDt,
            Param::MpcSteerTau,
            Param::MpcInputDelay,
            Param::MpcSteerRateLim,
            Param::ControllerEgoNearestDistThreshold,
            Param::ControllerEgoNearestYawThreshold,
        ]
    } else {
        seq![]
    }) + seq![
        Param::StopFilterVxThreshold,
        Param::StopFilterWzThreshold,
        Param::VelocityConverterSpeedScaleFactor,
        Param::VelocityConverterStddevVx,
        Param::VelocityConverterStddevWz,
        Param::Twist2accelAccelLowpassGain,
        Param::HeartbeatTimeoutMs,
        Param::MrmHandlerStoppedVelocityThreshold,
        Param::MrmEmergencyStopTargetAcceleration,
        Param::MrmEmergencyStopTargetJerk,
        Param::MrmComfortableStopMinAcceleration,
        Param::MrmComfortableStopMinJerk,
        Param::ShiftDeciderParkOnGoal,
    ]
}

/// The place of a parameter in the order of reading.
spec fn read_place(p: Param, controller: bool) -> int {
    match p {
        Param::VehicleInfoWheelBase => 0,
        Param::VehicleCmdGateVelLim => 1,
        Param::VehicleCmdGateStopHoldAccel => 2,
        Param::VehicleCmdGateEmergencyAccel => 3,
        Param::VehicleCmdGateHeartbeatTimeoutMs => 4,
        Param::ControlValidatorAccErrorOffset => 5,
        Param::ControlValidatorAccErrorScale => 6,
        Param::ControlValidatorAccLpfGain => 7,
        Param::ControlValidatorRollingBackVelocity => 8,
        Param::ControlValidatorOverVelocityRatio => 9,
        Param::ControlValidatorOverVelocityOffset => 10,
        Param::ControlValidatorVelLpfGain => 11,
        Param::ControlValidatorLateralJerkThreshold => 12,
        Param::ControlValidatorJerkLpfGain => 13,
        Param::OpModeAllowAutonomousInStopped => 14,
        Param::OpModeStoppedVelocityThreshold => 15,
        Param::OpModeEnableEngageOnDriving => 16,
        Param::OpModeAccThreshold => 17,
        Param::OpModeSpeedUpperThreshold => 18,
        Param::OpModeSpeedLowerThreshold => 19,
        Param::OpModeStableCheckDuration => 20,
        Param::VehicleInfoWheelRadius => 21,
        Param::VehicleInfoWheelWidth => 22,
        Param::VehicleInfoWheelTread => 23,
        Param::VehicleInfoFrontOverhang => 24,
        Param::VehicleInfoRearOverhang => 25,
        Param::VehicleInfoLeftOverhang => 26,
        Param::VehicleInfoRightOverhang => 27,
        Param::VehicleInfoVehicleHeight => 28,
        Param::VehicleInfoMaxSteerAngle => 29,
        Param::PidKp => 30,
        Param::PidKi => 31,
        Param::PidKd => 32,
        Param::PidMaxAcc => 33,
        Param::PidMinAcc => 34,
        Param::PidMaxJerk => 35,
        Param::PidMinJerk => 36,
        Param::PidDelayCompensationTime => 37,
        Param::PidStoppedAcc => 38,
        Param::PidEmergencyAcc => 39,
        Param::ControllerCtrlPeriod => 40,
        Param::MpcSteeringLpfGain => 41,
        Param::MpcPredictionHorizon => 42,
        Param::MpcPredictionDt => 43,
        Param::MpcSteerTau => 44,
        Param::MpcInputDelay => 45,
        Param::MpcSteerRateLim => 46,
        Param::ControllerEgoNearestDistThreshold => 47,
        Param::ControllerEgoNearestYawThreshold => 48,
        Param::StopFilterVxThreshold => if controller {
            49
        } else {
            21
        },
        Param::StopFilterWzThreshold => if controller {
            50
        } else {
            22
        },
        Param::VelocityConverterSpeedScaleFactor => if controller {
            51
        } else {
            23
        },
        Param::VelocityConverterStddevVx => if controller {
            52
        } else {
            24
        },
        Param::VelocityConverterStddevWz => if controller {
            53
        } else {
            25
        },
        Param::Twist2accelAccelLowpassGain => if controller {
            54
        } else {
            26
        },
        Param::HeartbeatTimeoutMs => if controller {
            55
        } else {
            27
        },
        Param::MrmHandlerStoppedVelocityThreshold => if controller {
            56
        } else {
            28
        },
        Param::MrmEmergencyStopTargetAcceleration => if controller {
            57
        } else {
            29
        },
        Param::MrmEmergencyStopTargetJerk => if controller {
            58
        } else {
            30
        },
        Param::MrmComfortableStopMinAcceleration => if controller {
            59
        } else {
            31
        },
        Param::MrmComfortableStopMinJerk => if controller {
            60
        } else {
            32
        },
        Param::ShiftDeciderParkOnGoal => if controller {
            61
        } else {
            33
        },
    }
}

/// The order of reading holds the parameters that the settings depend on, and no others.
pub proof fn lemma_read_params_are_listed(p: Param, controller: bool)
    ensures
        read_order(controller).contains(p) <==> p.is_read(controller),
{
    let order = read_order(controller);
    if p.is_read(controller) {
        assert(order[read_place(p, controller)] == p);
    }
    assert forall|k: int| 0 <= k < order.len() implies (#[trigger] order[k]).is_read(
        controller,
    ) by {}
}

impl Param {
    /// The parameters that the settings depend on, in the order in which they are read.
    pub fn read(controller: bool) -> (r: Vec<Param>)
        ensures
            r@ == read_order(controller),
    {
        let mut r: Vec<Param> = vec![
            Param::VehicleInfoWheelBase,
            Param::VehicleCmdGateVelLim,
            Param::VehicleCmdGateStopHoldAccel,
            Param::VehicleCmdGateEmergencyAccel,
            Param::VehicleCmdGateHeartbeatTimeoutMs,
            Param::ControlValidatorAccErrorOffset,
            Param::ControlValidatorAccErrorScale,
            Param::ControlValidatorAccLpfGain,
            Param::ControlValidatorRollingBackVelocity,
            Param::ControlValidatorOverVelocityRatio,
            Param::ControlValidatorOverVelocityOffset,
            Param::ControlValidatorVelLpfGain,
            Param::ControlValidatorLateralJerkThreshold,
            Param::ControlValidatorJerkLpfGain,
            Param::OpModeAllowAutonomousInStopped,
            Param::OpModeStoppedVelocityThreshold,
            Param::OpModeEnableEngageOnDriving,
            Param::OpModeAccThreshold,
            Param::OpModeSpeedUpperThreshold,
            Param::OpModeSpeedLowerThreshold,
            Param::OpModeStableCheckDuration,
        ];
        if controller {
            let mut follower: Vec<Param> = vec![
                Param::VehicleInfoWheelRadius,
                Param::VehicleInfoWheelWidth,
                Param::VehicleInfoWheelTread,
                Param::VehicleInfoFrontOverhang,
                Param::VehicleInfoRearOverhang,
                Param::VehicleInfoLeftOverhang,
                Param::VehicleInfoRightOverhang,
                Param::VehicleInfoVehicleHeight,
                Param::VehicleInfoMaxSteerAngle,
                Param::PidKp,
                Param::PidKi,
                Param::PidKd,
                Param::PidMaxAcc,
                Param::PidMinAcc,
                Param::PidMaxJerk,
                Param::PidMinJerk,
                Param::PidDelayCompensationTime,
                Param::PidStoppedAcc,
                Param::PidEmergencyAcc,
                Param::ControllerCtrlPeriod,
                Param::MpcSteeringLpfGain,
                Param::MpcPredictionHorizon,
                Param::MpcPredictionDt,
                Param::MpcSteerTau,
                Param::MpcInputDelay,
                Param::MpcSteerRateLim,
                Param::ControllerEgoNearestDistThreshold,
                Param::ControllerEgoNearestYawThreshold,
            ];
            r.append(&mut follower);
        }
        let mut rest: Vec<Param> = vec![
            Param::StopFilterVxThreshold,
            Param::StopFilterWzThreshold,
            Param::VelocityConverterSpeedScaleFactor,
            Param::VelocityConverterStddevVx,
            Param::VelocityConverterStddevWz,
            Param::Twist2accelAccelLowpassGain,
            Param::HeartbeatTimeoutMs,
            Param::MrmHandlerStoppedVelocityThreshold,
            Param::MrmEmergencyStopTargetAcceleration,
            Param::MrmEmergencyStopTargetJerk,
            Param::MrmComfortableStopMinAcceleration,
            Param::MrmComfortableStopMinJerk,
            Param::ShiftDeciderParkOnGoal,
        ];
        r.append(&mut rest);
        r
    }
}

} // verus!
