//! The messages that the island receives, keeps and sends, as plain values.
//!
//! Every message type has an unset value: numbers are 0, flags are false, texts and
//! lists are empty. It is what a field holds that nobody has filled in.

use vstd::prelude::*;

use crate::endpoints::{Interface, ServiceInterface};
use crate::number::Real;

verus! {

// ---------------------------------------------------------------------------
// Parts
// ---------------------------------------------------------------------------

/// A point in time, in seconds and nanoseconds.
#[derive(Clone, Copy, Debug, PartialEq, Eq, Structural)]
pub struct Time {
    pub sec: i32,
    pub nanosec: u32,
}

impl Time {
    #[verifier::allow_in_spec]
    pub fn unset() -> Time
        returns
            (Time { sec: 0, nanosec: 0 }),
    {
        Time { sec: 0, nanosec: 0 }
    }
}

/// A vector in space.
#[derive(Clone, Copy, Debug, PartialEq, Eq, Structural)]
pub struct Vector3 {
    pub x: Real,
    pub y: Real,
    pub z: Real,
}

impl Vector3 {
    #[verifier::allow_in_spec]
    pub fn unset() -> Vector3
        returns
            (Vector3 { x: Real::zero(), y: Real::zero(), z: Real::zero() }),
    {
        Vector3 { x: Real::zero(), y: Real::zero(), z: Real::zero() }
    }
}

/// A velocity or an acceleration, with its linear and its angular part.
#[derive(Clone, Copy, Debug, PartialEq, Eq, Structural)]
pub struct Motion {
    pub linear: Vector3,
    pub angular: Vector3,
}

impl Motion {
    #[verifier::allow_in_spec]
    pub fn unset() -> Motion
        returns
            (Motion { linear: Vector3::unset(), angular: Vector3::unset() }),
    {
        Motion { linear: Vector3::unset(), angular: Vector3::unset() }
    }
}

/// Steering part of a control command.
#[derive(Clone, Copy, Debug, PartialEq, Eq, Structural)]
pub struct Lateral {
    pub stamp: Time,
    pub control_time: Time,
    pub steering_tire_angle: Real,
    pub steering_tire_rotation_rate: Real,
    pub is_defined_steering_tire_rotation_rate: bool,
}

impl Lateral {
    #[verifier::allow_in_spec]
    pub fn unset() -> Lateral
        returns
            (Lateral {
                stamp: Time::unset(),
                control_time: Time::unset(),
                steering_tire_angle: Real::zero(),
                steering_tire_rotation_rate: Real::zero(),
                is_defined_steering_tire_rotation_rate: false,
            }),
    {
        Lateral {
            stamp: Time::unset(),
            control_time: Time::unset(),
            steering_tire_angle: Real::zero(),
            steering_tire_rotation_rate: Real::zero(),
            is_defined_steering_tire_rotation_rate: false,
        }
    }
}

/// Speed part of a control command.
#[derive(Clone, Copy, Debug, PartialEq, Eq, Structural)]
pub struct Longitudinal {
    pub stamp: Time,
    pub control_time: Time,
    pub velocity: Real,
    pub acceleration: Real,
    pub jerk: Real,
    pub is_defined_acceleration: bool,
    pub is_defined_jerk: bool,
}

impl Longitudinal {
    #[verifier::allow_in_spec]
    pub fn unset() -> Longitudinal
        returns
            (Longitudinal {
                stamp: Time::unset(),
                control_time: Time::unset(),
                velocity: Real::zero(),
                acceleration: Real::zero(),
                jerk: Real::zero(),
                is_defined_acceleration: false,
                is_defined_jerk: false,
            }),
    {
        Longitudinal {
            stamp: Time::unset(),
            control_time: Time::unset(),
            velocity: Real::zero(),
            acceleration: Real::zero(),
            jerk: Real::zero(),
            is_defined_acceleration: false,
            is_defined_jerk: false,
        }
    }
}

// ---------------------------------------------------------------------------
// Commands and states
// ---------------------------------------------------------------------------

/// A control command for the vehicle.
#[derive(Clone, Copy, Debug, PartialEq, Eq, Structural)]
pub struct Control {
    pub stamp: Time,
    pub control_time: Time,
    pub lateral: Lateral,
    pub longitudinal: Longitudinal,
}

impl Control {
    #[verifier::allow_in_spec]
    pub fn unset() -> Control
        returns
            (Control {
                stamp: Time::unset(),
                control_time: Time::unset(),
                lateral: Lateral::unset(),
                longitudinal: Longitudinal::unset(),
            }),
    {
        Control {
            stamp: Time::unset(),
            control_time: Time::unset(),
            lateral: Lateral::unset(),
            longitudinal: Longitudinal::unset(),
        }
    }
}

/// The gear to shift to.
#[derive(Clone, Copy, Debug, PartialEq, Eq, Structural)]
pub struct GearCommand {
    pub stamp: Time,
    pub command: u8,
}

impl GearCommand {
    #[verifier::allow_in_spec]
    pub fn unset() -> GearCommand
        returns
            (GearCommand { stamp: Time::unset(), command: 0 }),
    {
        GearCommand { stamp: Time::unset(), command: 0 }
    }
}

/// The gear that the vehicle is in.
#[derive(Clone, Copy, Debug, PartialEq, Eq, Structural)]
pub struct GearReport {
    pub stamp: Time,
    pub report: u8,
}

impl GearReport {
    #[verifier::allow_in_spec]
    pub fn unset() -> GearReport
        returns
            (GearReport { stamp: Time::unset(), report: 0 }),
    {
        GearReport { stamp: Time::unset(), report: 0 }
    }
}

/// What the hazard lights shall do.
#[derive(Clone, Copy, Debug, PartialEq, Eq, Structural)]
pub struct HazardLightsCommand {
    pub stamp: Time,
    pub command: u8,
}

impl HazardLightsCommand {
    #[verifier::allow_in_spec]
    pub fn unset() -> HazardLightsCommand
        returns
            (HazardLightsCommand { stamp: Time::unset(), command: 0 }),
    {
        HazardLightsCommand { stamp: Time::unset(), command: 0 }
    }
}

/// What the turn indicators shall do.
#[derive(Clone, Copy, Debug, PartialEq, Eq, Structural)]
pub struct TurnIndicatorsCommand {
    pub stamp: Time,
    pub command: u8,
}

impl TurnIndicatorsCommand {
    #[verifier::allow_in_spec]
    pub fn unset() -> TurnIndicatorsCommand
        returns
            (TurnIndicatorsCommand { stamp: Time::unset(), command: 0 }),
    {
        TurnIndicatorsCommand { stamp: Time::unset(), command: 0 }
    }
}

/// State of the driving stack as a whole.
#[derive(Clone, Copy, Debug, PartialEq, Eq, Structural)]
pub struct AutowareState {
    pub stamp: Time,
    pub state: u8,
}

/// State of the minimum-risk manoeuvre.
#[derive(Clone, Copy, Debug, PartialEq, Eq, Structural)]
pub struct MrmState {
    pub stamp: Time,
    pub state: u16,
    pub behavior: u16,
}

impl MrmState {
    #[verifier::allow_in_spec]
    pub fn unset() -> MrmState
        returns
            (MrmState { stamp: Time::unset(), state: 0, behavior: 0 }),
    {
        MrmState { stamp: Time::unset(), state: 0, behavior: 0 }
    }
}

/// The operation mode and which others can be reached.
#[derive(Clone, Copy, Debug, PartialEq, Eq, Structural)]
pub struct OperationModeState {
    pub stamp: Time,
    pub mode: u8,
    pub is_autoware_control_enabled: bool,
    pub is_in_transition: bool,
    pub is_stop_mode_available: bool,
    pub is_autonomous_mode_available: bool,
    pub is_local_mode_available: bool,
    pub is_remote_mode_available: bool,
}

impl OperationModeState {
    #[verifier::allow_in_spec]
    pub fn unset() -> OperationModeState
        returns
            (OperationModeState {
                stamp: Time::unset(),
                mode: 0,
                is_autoware_control_enabled: false,
                is_in_transition: false,
                is_stop_mode_available: false,
                is_autonomous_mode_available: false,
                is_local_mode_available: false,
                is_remote_mode_available: false,
            }),
    {
        OperationModeState {
            stamp: Time::unset(),
            mode: 0,
            is_autoware_control_enabled: false,
            is_in_transition: false,
            is_stop_mode_available: false,
            is_autonomous_mode_available: false,
            is_local_mode_available: false,
            is_remote_mode_available: false,
        }
    }
}

/// Which operation modes and manoeuvres are available.
#[derive(Clone, Copy, Debug, PartialEq, Eq, Structural)]
pub struct OperationModeAvailability {
    pub stamp: Time,
    pub stop: bool,
    pub autonomous: bool,
    pub local: bool,
    pub remote: bool,
    pub emergency_stop: bool,
    pub comfortable_stop: bool,
    pub pull_over: bool,
}

impl OperationModeAvailability {
    /// Nothing is available.
    #[verifier::allow_in_spec]
    pub fn unset() -> OperationModeAvailability
        returns
            (OperationModeAvailability {
                stamp: Time::unset(),
                stop: false,
                autonomous: false,
                local: false,
                remote: false,
                emergency_stop: false,
                comfortable_stop: false,
                pull_over: false,
            }),
    {
        OperationModeAvailability {
            stamp: Time::unset(),
            stop: false,
            autonomous: false,
            local: false,
            remote: false,
            emergency_stop: false,
            comfortable_stop: false,
            pull_over: false,
        }
    }
}

/// Which limits of the command filter are active.
#[derive(Clone, Copy, Debug, PartialEq, Eq, Structural)]
pub struct IsFilterActivated {
    pub stamp: Time,
    pub is_activated: bool,
    pub is_activated_on_steering: bool,
    pub is_activated_on_steering_rate: bool,
    pub is_activated_on_speed: bool,
    pub is_activated_on_acceleration: bool,
    pub is_activated_on_jerk: bool,
}

/// Report of the control validator.
#[derive(Clone, Copy, Debug, PartialEq, Eq, Structural)]
pub struct ControlValidatorStatus {
    pub stamp: Time,
    pub is_valid_max_distance_deviation: bool,
    pub is_valid_acc: bool,
    pub is_rolling_back: bool,
    pub is_over_velocity: bool,
    pub is_valid_lateral_jerk: bool,
    pub has_overrun_stop_point: bool,
    pub will_overrun_stop_point: bool,
    pub is_valid_latency: bool,
    pub is_valid_yaw: bool,
    pub is_warn_yaw: bool,
    pub max_distance_deviation: Real,
    pub steering_rate: Real,
    pub lateral_jerk: Real,
    pub desired_acc: Real,
    pub measured_acc: Real,
    pub target_vel: Real,
    pub vehicle_vel: Real,
    pub dist_to_stop: Real,
    pub pred_dist_to_stop: Real,
    pub nearest_trajectory_vel: Real,
    pub latency: Real,
    pub yaw_deviation: Real,
    pub invalid_count: i64,
}

/// Report of the operation mode transitions. Its status text is empty.
#[derive(Clone, Copy, Debug, PartialEq, Eq, Structural)]
pub struct OperationModeTransitionManagerDebug {
    pub stamp: Time,
    pub in_autoware_control: bool,
    pub in_transition: bool,
    pub is_all_ok: bool,
    pub engage_allowed_for_stopped_vehicle: bool,
    pub trajectory_available_ok: bool,
    pub lateral_deviation_ok: bool,
    pub yaw_deviation_ok: bool,
    pub speed_upper_deviation_ok: bool,
    pub speed_lower_deviation_ok: bool,
    pub stop_ok: bool,
    pub large_acceleration_ok: bool,
    pub large_lateral_acceleration_ok: bool,
    pub large_lateral_acceleration_diff_ok: bool,
    pub current_speed: Real,
    pub target_control_speed: Real,
    pub target_planning_speed: Real,
    pub target_control_acceleration: Real,
    pub lateral_acceleration: Real,
    pub lateral_acceleration_deviation: Real,
    pub lateral_deviation: Real,
    pub yaw_deviation: Real,
    pub speed_deviation: Real,
}

// ---------------------------------------------------------------------------
// What is published and answered
// ---------------------------------------------------------------------------

/// A message to publish.
#[allow(inconsistent_fields)]
#[derive(Clone, Copy, Debug, PartialEq, Eq, Structural)]
pub enum Message {
    AutowareState(AutowareState),
    BoolStamped { stamp: Time, data: bool },
    Control(Control),
    ControlValidatorStatus(ControlValidatorStatus),
    Emergency { stamp: Time, emergency: bool },
    EmergencyHoldingState { stamp: Time, is_holding: bool },
    Engage { stamp: Time, engage: bool },
    GateMode { data: u8 },
    GearCommand(GearCommand),
    HazardLightsCommand(HazardLightsCommand),
    IsFilterActivated(IsFilterActivated),
    IsPaused { stamp: Time, data: bool },
    IsStartRequested { stamp: Time, data: bool },
    /// Its list of requesting sources is empty.
    IsStopped { stamp: Time, data: bool },
    ModeChangeAvailable { stamp: Time, available: bool },
    MrmBehaviorStatus { stamp: Time, state: u8 },
    MrmState(MrmState),
    OperationModeAvailability(OperationModeAvailability),
    OperationModeState(OperationModeState),
    OperationModeTransitionManagerDebug(OperationModeTransitionManagerDebug),
    TurnIndicatorsCommand(TurnIndicatorsCommand),
    VehicleEmergencyStamped { stamp: Time, emergency: bool },
    /// The unset message of an interface.
    Unset(Interface),
}

impl Message {
    /// The interface that the message is of.
    pub open spec fn interface(self) -> Interface {
        match self {
            Message::AutowareState(_) => Interface::AutowareState,
            Message::BoolStamped { .. } => Interface::BoolStamped,
            Message::Control(_) => Interface::Control,
            Message::ControlValidatorStatus(_) => Interface::ControlValidatorStatus,
            Message::Emergency { .. } => Interface::Emergency,
            Message::EmergencyHoldingState { .. } => Interface::EmergencyHoldingState,
            Message::Engage { .. } => Interface::Engage,
            Message::GateMode { .. } => Interface::GateMode,
            Message::GearCommand(_) => Interface::GearCommand,
            Message::HazardLightsCommand(_) => Interface::HazardLightsCommand,
            Message::IsFilterActivated(_) => Interface::IsFilterActivated,
            Message::IsPaused { .. } => Interface::IsPaused,
            Message::IsStartRequested { .. } => Interface::IsStartRequested,
            Message::IsStopped { .. } => Interface::IsStopped,
            Message::ModeChangeAvailable { .. } => Interface::ModeChangeAvailable,
            Message::MrmBehaviorStatus { .. } => Interface::MrmBehaviorStatus,
            Message::MrmState(_) => Interface::MrmState,
            Message::OperationModeAvailability(_) => Interface::OperationModeAvailability,
            Message::OperationModeState(_) => Interface::OperationModeState,
            Message::OperationModeTransitionManagerDebug(_) =>
                Interface::OperationModeTransitionManagerDebug,
            Message::TurnIndicatorsCommand(_) => Interface::TurnIndicatorsCommand,
            Message::VehicleEmergencyStamped { .. } => Interface::VehicleEmergencyStamped,
            Message::Unset(interface) => interface,
        }
    }
}

/// How a request of the driving interface ended. Its message text is empty.
#[derive(Clone, Copy, Debug, PartialEq, Eq, Structural)]
pub struct ResponseStatus {
    pub success: bool,
    pub code: u16,
}

impl ResponseStatus {
    /// The request was granted.
    #[verifier::allow_in_spec]
    pub fn granted() -> ResponseStatus
        returns
            (ResponseStatus { success: true, code: 0 }),
    {
        ResponseStatus { success: true, code: 0 }
    }

    /// The request was refused.
    #[verifier::allow_in_spec]
    pub fn refused() -> ResponseStatus
        returns
            (ResponseStatus { success: false, code: 1 }),
    {
        ResponseStatus { success: false, code: 1 }
    }
}

/// The answer to a service request. Message texts in it are empty.
#[derive(Clone, Copy, Debug, PartialEq, Eq, Structural)]
pub enum Response {
    ChangeOperationMode(ResponseStatus),
    ConfigLogger { success: bool },
    ControlModeCommand { success: bool },
    Engage { code: u32 },
    InterfaceVersion { major: u16, minor: u16, patch: u16 },
    ResetDiagGraph(ResponseStatus),
    SetBool { success: bool },
    SetEmergency { code: u32 },
    Trigger { success: bool },
    /// The unset response of an interface.
    Unset(ServiceInterface),
}

impl Response {
    /// The interface that the response is of.
    pub open spec fn interface(self) -> ServiceInterface {
        match self {
            Response::ChangeOperationMode(_) => ServiceInterface::ChangeOperationMode,
            Response::ConfigLogger { .. } => ServiceInterface::ConfigLogger,
            Response::ControlModeCommand { .. } => ServiceInterface::ControlModeCommand,
            Response::Engage { .. } => ServiceInterface::Engage,
            Response::InterfaceVersion { .. } => ServiceInterface::InterfaceVersion,
            Response::ResetDiagGraph(_) => ServiceInterface::ResetDiagGraph,
            Response::SetBool { .. } => ServiceInterface::SetBool,
            Response::SetEmergency { .. } => ServiceInterface::SetEmergency,
            Response::Trigger { .. } => ServiceInterface::Trigger,
            Response::Unset(interface) => interface,
        }
    }
}

} // verus!
