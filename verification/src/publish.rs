//! What is published after a pass of the control chain, and in which order.

use vstd::prelude::*;

use crate::chain::{ChainOutputs, ValidatorStatus};
use crate::endpoints::{
    law_topic_is_found_by_name, topic_named, Features, Interface, Topic,
};
use crate::island::AUTOWARE_STATE_DRIVING;
use crate::messages::{
    AutowareState, ControlValidatorStatus, GearCommand, IsFilterActivated, Message,
    OperationModeAvailability, OperationModeTransitionManagerDebug, Time, TurnIndicatorsCommand,
};
use crate::number::Real;

verus! {

/// A stop manoeuvre can be started.
pub const MRM_BEHAVIOR_AVAILABLE: u8 = 1;

/// A stop manoeuvre is under way.
pub const MRM_BEHAVIOR_OPERATING: u8 = 2;

/// The command gate lets autonomous commands through.
pub const GATE_MODE_AUTO: u8 = 0;

/// A message with the topic that it goes to.
#[derive(Clone, Copy, Debug, PartialEq, Eq, Structural)]
pub struct Publication {
    pub topic: Topic,
    pub message: Message,
}

// ---------------------------------------------------------------------------
// Messages
// ---------------------------------------------------------------------------

/// The report on a stop manoeuvre.
pub open spec fn behavior_status(operating: bool) -> Message {
    Message::MrmBehaviorStatus {
        stamp: Time::unset(),
        state: if operating {
            MRM_BEHAVIOR_OPERATING
        } else {
            MRM_BEHAVIOR_AVAILABLE
        },
    }
}

fn behavior_status_message(operating: bool) -> (r: Message)
    ensures
        r == behavior_status(operating),
{
    Message::MrmBehaviorStatus {
        stamp: Time::unset(),
        state: if operating {
            MRM_BEHAVIOR_OPERATING
        } else {
            MRM_BEHAVIOR_AVAILABLE
        },
    }
}

/// The report on the command filter: no limit is active.
pub open spec fn filter_report() -> IsFilterActivated {
    IsFilterActivated {
        stamp: Time::unset(),
        is_activated: false,
        is_activated_on_steering: false,
        is_activated_on_steering_rate: false,
        is_activated_on_speed: false,
        is_activated_on_acceleration: false,
        is_activated_on_jerk: false,
    }
}

fn filter_report_message() -> (r: IsFilterActivated)
    ensures
        r == filter_report(),
{
    IsFilterActivated {
        stamp: Time::unset(),
        is_activated: false,
        is_activated_on_steering: false,
        is_activated_on_steering_rate: false,
        is_activated_on_speed: false,
        is_activated_on_acceleration: false,
        is_activated_on_jerk: false,
    }
}

/// The report of the validator. What it does not look at is reported as in order.
pub open spec fn validation_status(cv: ValidatorStatus) -> ControlValidatorStatus {
    ControlValidatorStatus {
        stamp: Time::unset(),
        is_valid_max_distance_deviation: true,
        is_valid_acc: cv.is_valid_acc,
        is_rolling_back: cv.is_rolling_back,
        is_over_velocity: cv.is_over_velocity,
        is_valid_lateral_jerk: cv.is_valid_lateral_jerk,
        has_overrun_stop_point: false,
        will_overrun_stop_point: false,
        is_valid_latency: true,
        is_valid_yaw: true,
        is_warn_yaw: false,
        max_distance_deviation: Real::zero(),
        steering_rate: cv.steering_rate,
        lateral_jerk: cv.lateral_jerk,
        desired_acc: cv.desired_acc,
        measured_acc: cv.measured_acc,
        target_vel: cv.target_vel,
        vehicle_vel: cv.vehicle_vel,
        dist_to_stop: Real::zero(),
        pred_dist_to_stop: Real::zero(),
        nearest_trajectory_vel: Real::zero(),
        latency: Real::zero(),
        yaw_deviation: Real::zero(),
        invalid_count: cv.invalid_count as i64,
    }
}

fn validation_status_message(cv: &ValidatorStatus) -> (r: ControlValidatorStatus)
    ensures
        r == validation_status(*cv),
{
    ControlValidatorStatus {
        stamp: Time::unset(),
        is_valid_max_distance_deviation: true,
        is_valid_acc: cv.is_valid_acc,
        is_rolling_back: cv.is_rolling_back,
        is_over_velocity: cv.is_over_velocity,
        is_valid_lateral_jerk: cv.is_valid_lateral_jerk,
        has_overrun_stop_point: false,
        will_overrun_stop_point: false,
        is_valid_latency: true,
        is_valid_yaw: true,
        is_warn_yaw: false,
        max_distance_deviation: Real::zero(),
        steering_rate: cv.steering_rate,
        lateral_jerk: cv.lateral_jerk,
        desired_acc: cv.desired_acc,
        measured_acc: cv.measured_acc,
        target_vel: cv.target_vel,
        vehicle_vel: cv.vehicle_vel,
        dist_to_stop: Real::zero(),
        pred_dist_to_stop: Real::zero(),
        nearest_trajectory_vel: Real::zero(),
        latency: Real::zero(),
        yaw_deviation: Real::zero(),
        invalid_count: cv.invalid_count as i64,
    }
}

/// The report on operation mode transitions: all is in order at the current velocity.
pub open spec fn transition_debug(velocity: Real) -> OperationModeTransitionManagerDebug {
    OperationModeTransitionManagerDebug {
        stamp: Time::unset(),
        in_autoware_control: true,
        in_transition: false,
        is_all_ok: true,
        engage_allowed_for_stopped_vehicle: true,
        trajectory_available_ok: true,
        lateral_deviation_ok: true,
        yaw_deviation_ok: true,
        speed_upper_deviation_ok: true,
        speed_lower_deviation_ok: true,
        stop_ok: true,
        large_acceleration_ok: true,
        large_lateral_acceleration_ok: true,
        large_lateral_acceleration_diff_ok: true,
        current_speed: velocity,
        target_control_speed: Real::zero(),
        target_planning_speed: Real::zero(),
        target_control_acceleration: Real::zero(),
        lateral_acceleration: Real::zero(),
        lateral_acceleration_deviation: Real::zero(),
        lateral_deviation: Real::zero(),
        yaw_deviation: Real::zero(),
        speed_deviation: Real::zero(),
    }
}

fn transition_debug_message(velocity: Real) -> (r: OperationModeTransitionManagerDebug)
    ensures
        r == transition_debug(velocity),
{
    OperationModeTransitionManagerDebug {
        stamp: Time::unset(),
        in_autoware_control: true,
        in_transition: false,
        is_all_ok: true,
        engage_allowed_for_stopped_vehicle: true,
        trajectory_available_ok: true,
        lateral_deviation_ok: true,
        yaw_deviation_ok: true,
        speed_upper_deviation_ok: true,
        speed_lower_deviation_ok: true,
        stop_ok: true,
        large_acceleration_ok: true,
        large_lateral_acceleration_ok: true,
        large_lateral_acceleration_diff_ok: true,
        current_speed: velocity,
        target_control_speed: Real::zero(),
        target_planning_speed: Real::zero(),
        target_control_acceleration: Real::zero(),
        lateral_acceleration: Real::zero(),
        lateral_acceleration_deviation: Real::zero(),
        lateral_deviation: Real::zero(),
        yaw_deviation: Real::zero(),
        speed_deviation: Real::zero(),
    }
}

/// Every operation mode and manoeuvre is available.
pub open spec fn everything_available() -> OperationModeAvailability {
    OperationModeAvailability {
        stamp: Time::unset(),
        stop: true,
        autonomous: true,
        local: true,
        remote: true,
        emergency_stop: true,
        comfortable_stop: true,
        pull_over: true,
    }
}

fn everything_available_message() -> (r: OperationModeAvailability)
    ensures
        r == everything_available(),
{
    OperationModeAvailability {
        stamp: Time::unset(),
        stop: true,
        autonomous: true,
        local: true,
        remote: true,
        emergency_stop: true,
        comfortable_stop: true,
        pull_over: true,
    }
}

/// The message that a topic carries after a pass with these outputs.
pub open spec fn content(topic: Topic, o: ChainOutputs) -> Message {
    match topic {
        Topic::MrmState => Message::MrmState(o.mrm_state),
        Topic::HazardLightsCmd => Message::HazardLightsCommand(o.mrm_hazard),
        Topic::GearCmd => Message::GearCommand(o.gate_gear),
        Topic::ControlCmd => Message::Control(o.gate_control),
        Topic::TurnIndicatorsCmd => Message::TurnIndicatorsCommand(o.gate_turn),
        Topic::ApiOperationMode => Message::OperationModeState(o.op_mode_state),
        Topic::EmergencyStopStatus => behavior_status(o.estop_operating),
        Topic::ComfortableStopStatus => behavior_status(o.comfy_operating),
        Topic::PullOverStatus => behavior_status(false),
        Topic::EmergencyGearCmd => Message::GearCommand(o.mrm_gear),
        Topic::EmergencyHazardLightsCmd => Message::HazardLightsCommand(o.mrm_hazard),
        Topic::EmergencyTurnIndicatorsCmd => Message::TurnIndicatorsCommand(
            TurnIndicatorsCommand::unset(),
        ),
        Topic::EmergencyHolding => Message::EmergencyHoldingState {
            stamp: Time::unset(),
            is_holding: false,
        },
        Topic::EmergencyCmd => Message::VehicleEmergencyStamped {
            stamp: Time::unset(),
            emergency: o.is_emergency,
        },
        Topic::GateModeCmd => Message::GateMode { data: GATE_MODE_AUTO },
        Topic::ShiftDeciderGearCmd => Message::GearCommand(
            GearCommand { stamp: Time::unset(), command: o.auto_gear },
        ),
        Topic::GateIsStopped => Message::IsStopped { stamp: Time::unset(), data: o.is_stopped },
        Topic::GateOperationMode => Message::OperationModeState(o.op_mode_state),
        Topic::SystemOperationMode => Message::OperationModeState(o.op_mode_state),
        Topic::GateIsPaused => Message::IsPaused { stamp: Time::unset(), data: false },
        Topic::GateIsStartRequested => Message::IsStartRequested {
            stamp: Time::unset(),
            data: false,
        },
        Topic::CurrentGateMode => Message::GateMode { data: GATE_MODE_AUTO },
        Topic::FilterActivated => Message::IsFilterActivated(filter_report()),
        Topic::FilterFlag => Message::BoolStamped { stamp: Time::unset(), data: false },
        Topic::FilterMarker => Message::Unset(Interface::MarkerArray),
        Topic::FilterMarkerRaw => Message::Unset(Interface::MarkerArray),
        Topic::ValidatorDebugMarker => Message::Unset(Interface::MarkerArray),
        Topic::ValidatorOutputMarkers => Message::Unset(Interface::MarkerArray),
        Topic::ValidationStatus => Message::ControlValidatorStatus(validation_status(o.cv)),
        Topic::ValidatorVirtualWall => Message::Unset(Interface::MarkerArray),
        Topic::TransitionDebug => Message::OperationModeTransitionManagerDebug(
            transition_debug(o.current_velocity),
        ),
        Topic::AutonomousAvailable => Message::ModeChangeAvailable {
            stamp: Time::unset(),
            available: o.autonomous_engaged,
        },
        Topic::ControlPublishedTime => Message::Unset(Interface::PublishedTime),
        Topic::ApiEngage => Message::Engage { stamp: Time::unset(), engage: true },
        Topic::AutowareEngage => Message::Engage { stamp: Time::unset(), engage: true },
        Topic::AutowareState => Message::AutowareState(
            AutowareState { stamp: Time::unset(), state: AUTOWARE_STATE_DRIVING },
        ),
        Topic::ApiEmergency => Message::Emergency {
            stamp: Time::unset(),
            emergency: o.is_emergency,
        },
        Topic::DiagnosticsStatus => Message::Unset(Interface::DiagGraphStatus),
        Topic::DiagnosticsStruct => Message::Unset(Interface::DiagGraphStruct),
        Topic::DiagnosticsUnknowns => Message::Unset(Interface::DiagnosticArray),
        Topic::CommandModeAvailability => Message::Unset(Interface::CommandModeAvailability),
        Topic::LaunchControl => Message::ModeChangeAvailable {
            stamp: Time::unset(),
            available: true,
        },
        Topic::LaunchLocalization => Message::ModeChangeAvailable {
            stamp: Time::unset(),
            available: true,
        },
        Topic::LaunchMap => Message::ModeChangeAvailable { stamp: Time::unset(), available: true },
        Topic::LaunchPerception => Message::ModeChangeAvailable {
            stamp: Time::unset(),
            available: true,
        },
        Topic::LaunchPlanning => Message::ModeChangeAvailable {
            stamp: Time::unset(),
            available: true,
        },
        Topic::LaunchSensing => Message::ModeChangeAvailable {
            stamp: Time::unset(),
            available: true,
        },
        Topic::LaunchSystem => Message::ModeChangeAvailable {
            stamp: Time::unset(),
            available: true,
        },
        Topic::LaunchVehicle => Message::ModeChangeAvailable {
            stamp: Time::unset(),
            available: true,
        },
        Topic::HazardStatus => Message::Unset(Interface::HazardStatusStamped),
        Topic::OperationModeAvailability => Message::OperationModeAvailability(
            everything_available(),
        ),
    }
}

/// Makes the message that a topic carries after a pass with these outputs.
pub fn message_for(topic: Topic, o: &ChainOutputs) -> (r: Message)
    ensures
        r == content(topic, *o),
{
    match topic {
        Topic::MrmState => Message::MrmState(o.mrm_state),
        Topic::HazardLightsCmd => Message::HazardLightsCommand(o.mrm_hazard),
        Topic::GearCmd => Message::GearCommand(o.gate_gear),
        Topic::ControlCmd => Message::Control(o.gate_control),
        Topic::TurnIndicatorsCmd => Message::TurnIndicatorsCommand(o.gate_turn),
        Topic::ApiOperationMode => Message::OperationModeState(o.op_mode_state),
        Topic::EmergencyStopStatus => behavior_status_message(o.estop_operating),
        Topic::ComfortableStopStatus => behavior_status_message(o.comfy_operating),
        Topic::PullOverStatus => behavior_status_message(false),
        Topic::EmergencyGearCmd => Message::GearCommand(o.mrm_gear),
        Topic::EmergencyHazardLightsCmd => Message::HazardLightsCommand(o.mrm_hazard),
        Topic::EmergencyTurnIndicatorsCmd => Message::TurnIndicatorsCommand(
            TurnIndicatorsCommand::unset(),
        ),
        Topic::EmergencyHolding => Message::EmergencyHoldingState {
            stamp: Time::unset(),
            is_holding: false,
        },
        Topic::EmergencyCmd => Message::VehicleEmergencyStamped {
            stamp: Time::unset(),
            emergency: o.is_emergency,
        },
        Topic::GateModeCmd => Message::GateMode { data: GATE_MODE_AUTO },
        Topic::ShiftDeciderGearCmd => Message::GearCommand(
            GearCommand { stamp: Time::unset(), command: o.auto_gear },
        ),
        Topic::GateIsStopped => Message::IsStopped { stamp: Time::unset(), data: o.is_stopped },
        Topic::GateOperationMode => Message::OperationModeState(o.op_mode_state),
        Topic::SystemOperationMode => Message::OperationModeState(o.op_mode_state),
        Topic::GateIsPaused => Message::IsPaused { stamp: Time::unset(), data: false },
        Topic::GateIsStartRequested => Message::IsStartRequested {
            stamp: Time::unset(),
            data: false,
        },
        Topic::CurrentGateMode => Message::GateMode { data: GATE_MODE_AUTO },
        Topic::FilterActivated => Message::IsFilterActivated(filter_report_message()),
        Topic::FilterFlag => Message::BoolStamped { stamp: Time::unset(), data: false },
        Topic::FilterMarker => Message::Unset(Interface::MarkerArray),
        Topic::FilterMarkerRaw => Message::Unset(Interface::MarkerArray),
        Topic::ValidatorDebugMarker => Message::Unset(Interface::MarkerArray),
        Topic::ValidatorOutputMarkers => Message::Unset(Interface::MarkerArray),
        Topic::ValidationStatus => Message::ControlValidatorStatus(
            validation_status_message(&o.cv),
        ),
        Topic::ValidatorVirtualWall => Message::Unset(Interface::MarkerArray),
        Topic::TransitionDebug => Message::OperationModeTransitionManagerDebug(
            transition_debug_message(o.current_velocity),
        ),
        Topic::AutonomousAvailable => Message::ModeChangeAvailable {
            stamp: Time::unset(),
            available: o.autonomous_engaged,
        },
        Topic::ControlPublishedTime => Message::Unset(Interface::PublishedTime),
        Topic::ApiEngage => Message::Engage { stamp: Time::unset(), engage: true },
        Topic::AutowareEngage => Message::Engage { stamp: Time::unset(), engage: true },
        Topic::AutowareState => Message::AutowareState(
            AutowareState { stamp: Time::unset(), state: AUTOWARE_STATE_DRIVING },
        ),
        Topic::ApiEmergency => Message::Emergency {
            stamp: Time::unset(),
            emergency: o.is_emergency,
        },
        Topic::DiagnosticsStatus => Message::Unset(Interface::DiagGraphStatus),
        Topic::DiagnosticsStruct => Message::Unset(Interface::DiagGraphStruct),
        Topic::DiagnosticsUnknowns => Message::Unset(Interface::DiagnosticArray),
        Topic::CommandModeAvailability => Message::Unset(Interface::CommandModeAvailability),
        Topic::LaunchControl => Message::ModeChangeAvailable {
            stamp: Time::unset(),
            available: true,
        },
        Topic::LaunchLocalization => Message::ModeChangeAvailable {
            stamp: Time::unset(),
            available: true,
        },
        Topic::LaunchMap => Message::ModeChangeAvailable { stamp: Time::unset(), available: true },
        Topic::LaunchPerception => Message::ModeChangeAvailable {
            stamp: Time::unset(),
            available: true,
        },
        Topic::LaunchPlanning => Message::ModeChangeAvailable {
            stamp: Time::unset(),
            available: true,
        },
        Topic::LaunchSensing => Message::ModeChangeAvailable {
            stamp: Time::unset(),
            available: true,
        },
        Topic::LaunchSystem => Message::ModeChangeAvailable {
            stamp: Time::unset(),
            available: true,
        },
        Topic::LaunchVehicle => Message::ModeChangeAvailable {
            stamp: Time::unset(),
            available: true,
        },
        Topic::HazardStatus => Message::Unset(Interface::HazardStatusStamped),
        Topic::OperationModeAvailability => Message::OperationModeAvailability(
            everything_available_message(),
        ),
    }
}

/// Every topic carries messages of its own interface.
pub proof fn law_messages_fit_their_topic(topic: Topic, o: ChainOutputs)
    ensures
        content(topic, o).interface() == topic.interface(),
{
}

/// The three reports of the operation mode never differ.
pub proof fn law_operation_mode_reports_agree(o: ChainOutputs)
    ensures
        content(Topic::GateOperationMode, o) == content(Topic::ApiOperationMode, o),
        content(Topic::SystemOperationMode, o) == content(Topic::ApiOperationMode, o),
{
}

/// The emergency command to the vehicle and the emergency report to external tools agree.
pub proof fn law_emergency_reports_agree(o: ChainOutputs, emergency: bool)
    ensures
        content(Topic::EmergencyCmd, o) == (Message::VehicleEmergencyStamped {
            stamp: Time::unset(),
            emergency,
        }) <==> content(Topic::ApiEmergency, o) == (Message::Emergency {
            stamp: Time::unset(),
            emergency,
        }),
{
}

// ---------------------------------------------------------------------------
// What the topics are for
// ---------------------------------------------------------------------------

/// The message that the topic of this name carries after a pass with these outputs, if there
/// is such a topic.
pub open spec fn carried(name: Seq<char>, o: ChainOutputs) -> Option<Message> {
    match topic_named(name) {
        Some(topic) => Some(content(topic, o)),
        None => None,
    }
}

/// With or without an emergency, the vehicle gets the control command, the gear and the turn
/// indicators that the command gate let through, and the hazard lights and the state of the
/// minimum-risk manoeuvre that its handler gave; and the operation mode is reported as the
/// pass gave it.
#[verifier::spinoff_prover]
pub proof fn law_driving_commands_are_published(o: ChainOutputs)
    ensures
        carried("/control/command/control_cmd"@, o) == Some(
            Message::Control(o.gate_control),
        ),
        carried("/control/command/gear_cmd"@, o) == Some(
            Message::GearCommand(o.gate_gear),
        ),
        carried("/control/command/turn_indicators_cmd"@, o) == Some(
            Message::TurnIndicatorsCommand(o.gate_turn),
        ),
        carried("/control/command/hazard_lights_cmd"@, o) == Some(
            Message::HazardLightsCommand(o.mrm_hazard),
        ),
        carried("/system/fail_safe/mrm_state"@, o) == Some(
            Message::MrmState(o.mrm_state),
        ),
        carried("/api/operation_mode/state"@, o) == Some(
            Message::OperationModeState(o.op_mode_state),
        ),
{
    law_topic_is_found_by_name(Topic::ControlCmd);
    law_topic_is_found_by_name(Topic::GearCmd);
    law_topic_is_found_by_name(Topic::TurnIndicatorsCmd);
    law_topic_is_found_by_name(Topic::HazardLightsCmd);
    law_topic_is_found_by_name(Topic::MrmState);
    law_topic_is_found_by_name(Topic::ApiOperationMode);
}

/// The emergency commands are those of the minimum-risk manoeuvre handler, without turn
/// indicators and without a hold. Each stop manoeuvre reports by itself whether it operates;
/// pulling over never does.
#[verifier::spinoff_prover]
pub proof fn law_emergency_commands_are_published(o: ChainOutputs)
    ensures
        carried("/system/emergency/gear_cmd"@, o) == Some(
            Message::GearCommand(o.mrm_gear),
        ),
        carried("/system/emergency/hazard_lights_cmd"@, o) == Some(
            Message::HazardLightsCommand(o.mrm_hazard),
        ),
        carried("/system/emergency/turn_indicators_cmd"@, o) == Some(
            Message::TurnIndicatorsCommand(TurnIndicatorsCommand { stamp: Time { sec: 0, nanosec: 0 }, command: 0 }),
        ),
        carried("/system/emergency_holding"@, o) == Some(
            Message::EmergencyHoldingState { stamp: Time { sec: 0, nanosec: 0 }, is_holding: false },
        ),
        carried("/system/mrm/emergency_stop/status"@, o) == Some(
            Message::MrmBehaviorStatus { stamp: Time { sec: 0, nanosec: 0 }, state: if o.estop_operating { 2 } else { 1 } },
        ),
        carried("/system/mrm/comfortable_stop/status"@, o) == Some(
            Message::MrmBehaviorStatus { stamp: Time { sec: 0, nanosec: 0 }, state: if o.comfy_operating { 2 } else { 1 } },
        ),
        carried("/system/mrm/pull_over_manager/status"@, o) == Some(
            Message::MrmBehaviorStatus { stamp: Time { sec: 0, nanosec: 0 }, state: 1 },
        ),
{
    law_topic_is_found_by_name(Topic::EmergencyGearCmd);
    law_topic_is_found_by_name(Topic::EmergencyHazardLightsCmd);
    law_topic_is_found_by_name(Topic::EmergencyTurnIndicatorsCmd);
    law_topic_is_found_by_name(Topic::EmergencyHolding);
    law_topic_is_found_by_name(Topic::EmergencyStopStatus);
    law_topic_is_found_by_name(Topic::ComfortableStopStatus);
    law_topic_is_found_by_name(Topic::PullOverStatus);
}

/// The command gate reports the emergency, the gear for autonomous driving, whether the
/// vehicle stands and the operation mode, as the pass gave them. It always lets autonomous
/// commands through, is never paused, is never asked to start, and limits nothing.
#[verifier::spinoff_prover]
pub proof fn law_gate_status_is_published(o: ChainOutputs)
    ensures
        carried("/control/command/emergency_cmd"@, o) == Some(
            Message::VehicleEmergencyStamped { stamp: Time { sec: 0, nanosec: 0 }, emergency: o.is_emergency },
        ),
        carried("/control/gate_mode_cmd"@, o) == Some(
            Message::GateMode { data: 0 },
        ),
        carried("/control/current_gate_mode"@, o) == Some(
            Message::GateMode { data: 0 },
        ),
        carried("/control/shift_decider/gear_cmd"@, o) == Some(
            Message::GearCommand(GearCommand { stamp: Time { sec: 0, nanosec: 0 }, command: o.auto_gear }),
        ),
        carried("/control/vehicle_cmd_gate/is_stopped"@, o) == Some(
            Message::IsStopped { stamp: Time { sec: 0, nanosec: 0 }, data: o.is_stopped },
        ),
        carried("/control/vehicle_cmd_gate/operation_mode"@, o) == Some(
            Message::OperationModeState(o.op_mode_state),
        ),
        carried("/system/operation_mode/state"@, o) == Some(
            Message::OperationModeState(o.op_mode_state),
        ),
        carried("/control/vehicle_cmd_gate/is_paused"@, o) == Some(
            Message::IsPaused { stamp: Time { sec: 0, nanosec: 0 }, data: false },
        ),
        carried("/control/vehicle_cmd_gate/is_start_requested"@, o) == Some(
            Message::IsStartRequested { stamp: Time { sec: 0, nanosec: 0 }, data: false },
        ),
        carried("/control/vehicle_cmd_gate/is_filter_activated/flag"@, o) == Some(
            Message::BoolStamped { stamp: Time { sec: 0, nanosec: 0 }, data: false },
        ),
        carried("/control/vehicle_cmd_gate/is_filter_activated/marker"@, o) == Some(
            Message::Unset(Interface::MarkerArray),
        ),
        carried("/control/vehicle_cmd_gate/is_filter_activated/marker_raw"@, o) == Some(
            Message::Unset(Interface::MarkerArray),
        ),
        carried("/control/vehicle_cmd_gate/is_filter_activated"@, o) matches Some(Message::IsFilterActivated(report)) && {
            &&& !report.is_activated
            &&& !report.is_activated_on_steering
            &&& !report.is_activated_on_steering_rate
            &&& !report.is_activated_on_speed
            &&& !report.is_activated_on_acceleration
            &&& !report.is_activated_on_jerk
        },
{
    law_topic_is_found_by_name(Topic::EmergencyCmd);
    law_topic_is_found_by_name(Topic::GateModeCmd);
    law_topic_is_found_by_name(Topic::CurrentGateMode);
    law_topic_is_found_by_name(Topic::ShiftDeciderGearCmd);
    law_topic_is_found_by_name(Topic::GateIsStopped);
    law_topic_is_found_by_name(Topic::GateOperationMode);
    law_topic_is_found_by_name(Topic::SystemOperationMode);
    law_topic_is_found_by_name(Topic::GateIsPaused);
    law_topic_is_found_by_name(Topic::GateIsStartRequested);
    law_topic_is_found_by_name(Topic::FilterFlag);
    law_topic_is_found_by_name(Topic::FilterMarker);
    law_topic_is_found_by_name(Topic::FilterMarkerRaw);
    law_topic_is_found_by_name(Topic::FilterActivated);
}

/// External tools are told that the driving stack is engaged and driving, and whether there
/// is an emergency. Autonomous driving is reported as available exactly while it is engaged.
#[verifier::spinoff_prover]
pub proof fn law_engagement_is_published(o: ChainOutputs)
    ensures
        carried("/api/autoware/get/engage"@, o) == Some(
            Message::Engage { stamp: Time { sec: 0, nanosec: 0 }, engage: true },
        ),
        carried("/autoware/engage"@, o) == Some(
            Message::Engage { stamp: Time { sec: 0, nanosec: 0 }, engage: true },
        ),
        carried("/autoware/state"@, o) == Some(
            Message::AutowareState(AutowareState { stamp: Time { sec: 0, nanosec: 0 }, state: 5 }),
        ),
        carried("/api/autoware/get/emergency"@, o) == Some(
            Message::Emergency { stamp: Time { sec: 0, nanosec: 0 }, emergency: o.is_emergency },
        ),
        carried("/control/is_autonomous_available"@, o) == Some(
            Message::ModeChangeAvailable { stamp: Time { sec: 0, nanosec: 0 }, available: o.autonomous_engaged },
        ),
        carried("/control/command/control_cmd/debug/published_time"@, o) == Some(
            Message::Unset(Interface::PublishedTime),
        ),
{
    law_topic_is_found_by_name(Topic::ApiEngage);
    law_topic_is_found_by_name(Topic::AutowareEngage);
    law_topic_is_found_by_name(Topic::AutowareState);
    law_topic_is_found_by_name(Topic::ApiEmergency);
    law_topic_is_found_by_name(Topic::AutonomousAvailable);
    law_topic_is_found_by_name(Topic::ControlPublishedTime);
}

/// Monitoring tools are told that every part of the driving stack has been launched and that
/// every operation mode and manoeuvre is available.
#[verifier::spinoff_prover]
pub proof fn law_monitoring_is_published(o: ChainOutputs)
    ensures
        carried("/system/component_state_monitor/component/launch/control"@, o) == Some(
            Message::ModeChangeAvailable { stamp: Time { sec: 0, nanosec: 0 }, available: true },
        ),
        carried("/system/component_state_monitor/component/launch/localization"@, o) == Some(
            Message::ModeChangeAvailable { stamp: Time { sec: 0, nanosec: 0 }, available: true },
        ),
        carried("/system/component_state_monitor/component/launch/map"@, o) == Some(
            Message::ModeChangeAvailable { stamp: Time { sec: 0, nanosec: 0 }, available: true },
        ),
        carried("/system/component_state_monitor/component/launch/perception"@, o) == Some(
            Message::ModeChangeAvailable { stamp: Time { sec: 0, nanosec: 0 }, available: true },
        ),
        carried("/system/component_state_monitor/component/launch/planning"@, o) == Some(
            Message::ModeChangeAvailable { stamp: Time { sec: 0, nanosec: 0 }, available: true },
        ),
        carried("/system/component_state_monitor/component/launch/sensing"@, o) == Some(
            Message::ModeChangeAvailable { stamp: Time { sec: 0, nanosec: 0 }, available: true },
        ),
        carried("/system/component_state_monitor/component/launch/system"@, o) == Some(
            Message::ModeChangeAvailable { stamp: Time { sec: 0, nanosec: 0 }, available: true },
        ),
        carried("/system/component_state_monitor/component/launch/vehicle"@, o) == Some(
            Message::ModeChangeAvailable { stamp: Time { sec: 0, nanosec: 0 }, available: true },
        ),
        carried("/api/system/diagnostics/status"@, o) == Some(
            Message::Unset(Interface::DiagGraphStatus),
        ),
        carried("/api/system/diagnostics/struct"@, o) == Some(
            Message::Unset(Interface::DiagGraphStruct),
        ),
        carried("/diagnostics_graph/unknowns"@, o) == Some(
            Message::Unset(Interface::DiagnosticArray),
        ),
        carried("/system/command_mode/availability"@, o) == Some(
            Message::Unset(Interface::CommandModeAvailability),
        ),
        carried("/system/emergency/hazard_status"@, o) == Some(
            Message::Unset(Interface::HazardStatusStamped),
        ),
        carried("/system/operation_mode/availability"@, o) matches Some(
            Message::OperationModeAvailability(a),
        ) && {
            &&& a.stop && a.autonomous && a.local && a.remote
            &&& a.emergency_stop && a.comfortable_stop && a.pull_over
        },
{
    law_topic_is_found_by_name(Topic::LaunchControl);
    law_topic_is_found_by_name(Topic::LaunchLocalization);
    law_topic_is_found_by_name(Topic::LaunchMap);
    law_topic_is_found_by_name(Topic::LaunchPerception);
    law_topic_is_found_by_name(Topic::LaunchPlanning);
    law_topic_is_found_by_name(Topic::LaunchSensing);
    law_topic_is_found_by_name(Topic::LaunchSystem);
    law_topic_is_found_by_name(Topic::LaunchVehicle);
    law_topic_is_found_by_name(Topic::DiagnosticsStatus);
    law_topic_is_found_by_name(Topic::DiagnosticsStruct);
    law_topic_is_found_by_name(Topic::DiagnosticsUnknowns);
    law_topic_is_found_by_name(Topic::CommandModeAvailability);
    law_topic_is_found_by_name(Topic::HazardStatus);
    law_topic_is_found_by_name(Topic::OperationModeAvailability);
}

/// The validator's report says of each finding what the validator found in this pass. What it
/// does not look at is reported as in order. It draws nothing.
#[verifier::spinoff_prover]
pub proof fn law_findings_of_the_validator_are_published(o: ChainOutputs)
    ensures
        carried("/control/control_validator/debug/marker"@, o) == Some(
            Message::Unset(Interface::MarkerArray),
        ),
        carried("/control/control_validator/output/markers"@, o) == Some(
            Message::Unset(Interface::MarkerArray),
        ),
        carried("/control/control_validator/virtual_wall"@, o) == Some(
            Message::Unset(Interface::MarkerArray),
        ),
        carried("/control/control_validator/validation_status"@, o) matches Some(
            Message::ControlValidatorStatus(status),
        ) && ({
            let zero = Real::Decimal { negative: false, units: 0, places: 0 };
            &&& status.is_valid_acc == o.cv.is_valid_acc
            &&& status.is_rolling_back == o.cv.is_rolling_back
            &&& status.is_over_velocity == o.cv.is_over_velocity
            &&& status.is_valid_lateral_jerk == o.cv.is_valid_lateral_jerk
            &&& status.steering_rate == o.cv.steering_rate
            &&& status.lateral_jerk == o.cv.lateral_jerk
            &&& status.desired_acc == o.cv.desired_acc
            &&& status.measured_acc == o.cv.measured_acc
            &&& status.target_vel == o.cv.target_vel
            &&& status.vehicle_vel == o.cv.vehicle_vel
            &&& status.invalid_count == o.cv.invalid_count
            &&& status.is_valid_max_distance_deviation
            &&& status.is_valid_latency
            &&& status.is_valid_yaw
            &&& !status.is_warn_yaw
            &&& !status.has_overrun_stop_point
            &&& !status.will_overrun_stop_point
            &&& status.max_distance_deviation == zero
            &&& status.dist_to_stop == zero
            &&& status.pred_dist_to_stop == zero
            &&& status.nearest_trajectory_vel == zero
            &&& status.latency == zero
            &&& status.yaw_deviation == zero
        }),
{
    law_topic_is_found_by_name(Topic::ValidationStatus);
    law_topic_is_found_by_name(Topic::ValidatorDebugMarker);
    law_topic_is_found_by_name(Topic::ValidatorOutputMarkers);
    law_topic_is_found_by_name(Topic::ValidatorVirtualWall);
}

/// The report on operation mode transitions carries the velocity of the vehicle, says that all
/// is in order, and has nothing else to say.
#[verifier::spinoff_prover]
pub proof fn law_transitions_are_published(o: ChainOutputs)
    ensures
        carried("/control/autoware_operation_mode_transition_manager/debug_info"@, o) matches Some(
            Message::OperationModeTransitionManagerDebug(debug),
        ) && ({
            let zero = Real::Decimal { negative: false, units: 0, places: 0 };
            &&& debug.current_speed == o.current_velocity
            &&& !debug.in_transition
            &&& debug.in_autoware_control
            &&& debug.is_all_ok
            &&& debug.engage_allowed_for_stopped_vehicle
            &&& debug.trajectory_available_ok
            &&& debug.lateral_deviation_ok
            &&& debug.yaw_deviation_ok
            &&& debug.speed_upper_deviation_ok
            &&& debug.speed_lower_deviation_ok
            &&& debug.stop_ok
            &&& debug.large_acceleration_ok
            &&& debug.large_lateral_acceleration_ok
            &&& debug.large_lateral_acceleration_diff_ok
            &&& debug.target_control_speed == zero
            &&& debug.target_planning_speed == zero
            &&& debug.target_control_acceleration == zero
            &&& debug.lateral_acceleration == zero
            &&& debug.lateral_acceleration_deviation == zero
            &&& debug.lateral_deviation == zero
            &&& debug.yaw_deviation == zero
            &&& debug.speed_deviation == zero
        }),
{
    law_topic_is_found_by_name(Topic::TransitionDebug);
}

// ---------------------------------------------------------------------------
// Order
// ---------------------------------------------------------------------------

/// All topics, in the order in which a pass publishes them.
pub open spec fn publish_order() -> Seq<Topic> {
    seq![
        Topic::MrmState,
        Topic::HazardLightsCmd,
        Topic::GearCmd,
        Topic::ControlCmd,
        Topic::TurnIndicatorsCmd,
        Topic::ApiOperationMode,
        Topic::EmergencyStopStatus,
        Topic::ComfortableStopStatus,
        Topic::PullOverStatus,
        Topic::EmergencyGearCmd,
        Topic::EmergencyHazardLightsCmd,
        Topic::EmergencyTurnIndicatorsCmd,
        Topic::EmergencyHolding,
        Topic::EmergencyCmd,
        Topic::GateModeCmd,
        Topic::ShiftDeciderGearCmd,
        Topic::GateIsStopped,
        Topic::GateOperationMode,
        Topic::SystemOperationMode,
        Topic::GateIsPaused,
        Topic::GateIsStartRequested,
        Topic::CurrentGateMode,
        Topic::FilterActivated,
        Topic::FilterFlag,
        Topic::FilterMarker,
        Topic::FilterMarkerRaw,
        Topic::ApiEngage,
        Topic::AutowareEngage,
        Topic::AutowareState,
        Topic::ApiEmergency,
        Topic::ValidatorDebugMarker,
        Topic::ValidatorOutputMarkers,
        Topic::ValidatorVirtualWall,
        Topic::ValidationStatus,
        Topic::TransitionDebug,
        Topic::ControlPublishedTime,
        Topic::AutonomousAvailable,
        Topic::DiagnosticsStatus,
        Topic::DiagnosticsStruct,
        Topic::DiagnosticsUnknowns,
        Topic::CommandModeAvailability,
        Topic::LaunchControl,
        Topic::LaunchLocalization,
        Topic::LaunchMap,
        Topic::LaunchPerception,
        Topic::LaunchPlanning,
        Topic::LaunchSensing,
        Topic::LaunchSystem,
        Topic::LaunchVehicle,
        Topic::HazardStatus,
        Topic::OperationModeAvailability,
    ]
}

/// The topics of a list that a build has, in their order.
pub open spec fn present(topics: Seq<Topic>, features: Features) -> Seq<Topic> {
    topics.filter(|t: Topic| features.has(t.component()))
}

/// What the topics of a list carry, in their order.
pub open spec fn contents(topics: Seq<Topic>, o: ChainOutputs) -> Seq<Publication> {
    topics.map_values(|t: Topic| Publication { topic: t, message: content(t, o) })
}

/// All topics, in the order in which a pass publishes them.
fn all_in_publish_order() -> (r: Vec<Topic>)
    ensures
        r@ == publish_order(),
{
    vec![
        Topic::MrmState,
        Topic::HazardLightsCmd,
        Topic::GearCmd,
        Topic::ControlCmd,
        Topic::TurnIndicatorsCmd,
        Topic::ApiOperationMode,
        Topic::EmergencyStopStatus,
        Topic::ComfortableStopStatus,
        Topic::PullOverStatus,
        Topic::EmergencyGearCmd,
        Topic::EmergencyHazardLightsCmd,
        Topic::EmergencyTurnIndicatorsCmd,
        Topic::EmergencyHolding,
        Topic::EmergencyCmd,
        Topic::GateModeCmd,
        Topic::ShiftDeciderGearCmd,
        Topic::GateIsStopped,
        Topic::GateOperationMode,
        Topic::SystemOperationMode,
        Topic::GateIsPaused,
        Topic::GateIsStartRequested,
        Topic::CurrentGateMode,
        Topic::FilterActivated,
        Topic::FilterFlag,
        Topic::FilterMarker,
        Topic::FilterMarkerRaw,
        Topic::ApiEngage,
        Topic::AutowareEngage,
        Topic::AutowareState,
        Topic::ApiEmergency,
        Topic::ValidatorDebugMarker,
        Topic::ValidatorOutputMarkers,
        Topic::ValidatorVirtualWall,
        Topic::ValidationStatus,
        Topic::TransitionDebug,
        Topic::ControlPublishedTime,
        Topic::AutonomousAvailable,
        Topic::DiagnosticsStatus,
        Topic::DiagnosticsStruct,
        Topic::DiagnosticsUnknowns,
        Topic::CommandModeAvailability,
        Topic::LaunchControl,
        Topic::LaunchLocalization,
        Topic::LaunchMap,
        Topic::LaunchPerception,
        Topic::LaunchPlanning,
        Topic::LaunchSensing,
        Topic::LaunchSystem,
        Topic::LaunchVehicle,
        Topic::HazardStatus,
        Topic::OperationModeAvailability,
    ]
}

/// What a build publishes after a pass with these outputs.
pub fn publications(features: &Features, o: &ChainOutputs) -> (r: Vec<Publication>)
    ensures
        r@ == contents(present(publish_order(), *features), *o),
{
    let topics = all_in_publish_order();
    let mut r: Vec<Publication> = Vec::new();
    let mut i: usize = 0;
    proof {
        reveal(Seq::filter);
        assert(contents(present(topics@.take(0), *features), *o) =~= seq![]);
    }
    while i < topics.len()
        invariant
            i <= topics.len(),
            r@ == contents(present(topics@.take(i as int), *features), *o),
        decreases topics.len() - i,
    {
        let topic = topics[i];
        proof {
            reveal(Seq::filter);
            assert(topics@.take(i + 1).drop_last() =~= topics@.take(i as int));
            assert(topics@.take(i + 1).last() == topic);
        }
        if features.has(topic.component()) {
            r.push(Publication { topic, message: message_for(topic, o) });
        }
        assert(r@ =~= contents(present(topics@.take(i + 1), *features), *o));
        i += 1;
    }
    assert(topics@.take(i as int) =~= topics@);
    r
}

} // verus!
