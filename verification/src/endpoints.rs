//! The topics and services of the safety island: their names, what they carry, and the
//! part of the system that each belongs to.

use vstd::prelude::*;

use crate::text::same;

verus! {

/// A group of endpoints that is present as a whole or not at all.
#[derive(Clone, Copy, Debug, PartialEq, Eq, Structural)]
pub enum Component {
    /// What every build has: the driving commands, their inputs and engagement.
    Core,
    /// Minimum-risk manoeuvre status and emergency commands.
    Mrm,
    /// Status and services of the vehicle command gate.
    CommandGate,
    /// Report of the control validator.
    Validator,
    /// Operation mode transitions.
    OperationMode,
    /// Engagement and emergency state for external tools.
    Engagement,
    /// Services that only acknowledge.
    Stubs,
    /// Diagnostics for monitoring tools.
    Monitoring,
    /// Inputs of the trajectory follower.
    Controller,
}

/// Which components a build has.
#[derive(Clone, Copy, Debug, PartialEq, Eq, Structural)]
pub struct Features {
    pub mrm: bool,
    pub command_gate: bool,
    pub validator: bool,
    pub operation_mode: bool,
    pub engagement: bool,
    pub stubs: bool,
    pub monitoring: bool,
    pub controller: bool,
    /// Parameters are served to tools.
    pub param_services: bool,
}

impl Features {
    /// Whether a component is part of the build.
    #[verifier::allow_in_spec]
    pub fn has(&self, component: Component) -> bool
        returns
            (match component {
                Component::Core => true,
                Component::Mrm => self.mrm,
                Component::CommandGate => self.command_gate,
                Component::Validator => self.validator,
                Component::OperationMode => self.operation_mode,
                Component::Engagement => self.engagement,
                Component::Stubs => self.stubs,
                Component::Monitoring => self.monitoring,
                Component::Controller => self.controller,
            }),
    {
        match component {
            Component::Core => true,
            Component::Mrm => self.mrm,
            Component::CommandGate => self.command_gate,
            Component::Validator => self.validator,
            Component::OperationMode => self.operation_mode,
            Component::Engagement => self.engagement,
            Component::Stubs => self.stubs,
            Component::Monitoring => self.monitoring,
            Component::Controller => self.controller,
        }
    }

    /// The core alone.
    #[verifier::allow_in_spec]
    pub fn core_only() -> Features
        returns
            (Features {
                mrm: false,
                command_gate: false,
                validator: false,
                operation_mode: false,
                engagement: false,
                stubs: false,
                monitoring: false,
                controller: false,
                param_services: false,
            }),
    {
        Features {
            mrm: false,
            command_gate: false,
            validator: false,
            operation_mode: false,
            engagement: false,
            stubs: false,
            monitoring: false,
            controller: false,
            param_services: false,
        }
    }

    /// What microcontrollers run: everything but monitoring, the trajectory follower and
    /// parameter services.
    #[verifier::allow_in_spec]
    pub fn embedded() -> Features
        returns
            (Features {
                mrm: true,
                command_gate: true,
                validator: true,
                operation_mode: true,
                engagement: true,
                stubs: true,
                ..Features::core_only()
            }),
    {
        Features {
            mrm: true,
            command_gate: true,
            validator: true,
            operation_mode: true,
            engagement: true,
            stubs: true,
            ..Features::core_only()
        }
    }

    /// Everything.
    #[verifier::allow_in_spec]
    pub fn full() -> Features
        returns
            (Features {
                monitoring: true,
                controller: true,
                param_services: true,
                ..Features::embedded()
            }),
    {
        Features {
            monitoring: true,
            controller: true,
            param_services: true,
            ..Features::embedded()
        }
    }
}

/// What a published topic carries.
#[derive(Clone, Copy, Debug, PartialEq, Eq, Structural)]
pub enum Interface {
    AutowareState,
    BoolStamped,
    CommandModeAvailability,
    Control,
    ControlValidatorStatus,
    DiagGraphStatus,
    DiagGraphStruct,
    DiagnosticArray,
    Emergency,
    EmergencyHoldingState,
    Engage,
    GateMode,
    GearCommand,
    HazardLightsCommand,
    HazardStatusStamped,
    IsFilterActivated,
    IsPaused,
    IsStartRequested,
    IsStopped,
    MarkerArray,
    ModeChangeAvailable,
    MrmBehaviorStatus,
    MrmState,
    OperationModeAvailability,
    OperationModeState,
    OperationModeTransitionManagerDebug,
    PublishedTime,
    TurnIndicatorsCommand,
    VehicleEmergencyStamped,
}

/// A topic that the island publishes, in the order in which they are declared.
#[derive(Clone, Copy, Debug, PartialEq, Eq, Structural)]
pub enum Topic {
    MrmState,
    HazardLightsCmd,
    GearCmd,
    ControlCmd,
    TurnIndicatorsCmd,
    ApiOperationMode,
    EmergencyStopStatus,
    ComfortableStopStatus,
    PullOverStatus,
    EmergencyGearCmd,
    EmergencyHazardLightsCmd,
    EmergencyTurnIndicatorsCmd,
    EmergencyHolding,
    EmergencyCmd,
    GateModeCmd,
    ShiftDeciderGearCmd,
    GateIsStopped,
    GateOperationMode,
    SystemOperationMode,
    GateIsPaused,
    GateIsStartRequested,
    CurrentGateMode,
    FilterActivated,
    FilterFlag,
    FilterMarker,
    FilterMarkerRaw,
    ValidatorDebugMarker,
    ValidatorOutputMarkers,
    ValidationStatus,
    ValidatorVirtualWall,
    TransitionDebug,
    AutonomousAvailable,
    ControlPublishedTime,
    ApiEngage,
    AutowareEngage,
    AutowareState,
    ApiEmergency,
    DiagnosticsStatus,
    DiagnosticsStruct,
    DiagnosticsUnknowns,
    CommandModeAvailability,
    LaunchControl,
    LaunchLocalization,
    LaunchMap,
    LaunchPerception,
    LaunchPlanning,
    LaunchSensing,
    LaunchSystem,
    LaunchVehicle,
    HazardStatus,
    OperationModeAvailability,
}

impl Topic {
    /// Full name of the topic.
    #[verifier::allow_in_spec]
    pub fn name(self) -> &'static str
        returns
            (match self {
                Topic::MrmState => "/system/fail_safe/mrm_state",
                Topic::HazardLightsCmd => "/control/command/hazard_lights_cmd",
                Topic::GearCmd => "/control/command/gear_cmd",
                Topic::ControlCmd => "/control/command/control_cmd",
                Topic::TurnIndicatorsCmd => "/control/command/turn_indicators_cmd",
                Topic::ApiOperationMode => "/api/operation_mode/state",
                Topic::EmergencyStopStatus => "/system/mrm/emergency_stop/status",
                Topic::ComfortableStopStatus => "/system/mrm/comfortable_stop/status",
                Topic::PullOverStatus => "/system/mrm/pull_over_manager/status",
                Topic::EmergencyGearCmd => "/system/emergency/gear_cmd",
                Topic::EmergencyHazardLightsCmd => "/system/emergency/hazard_lights_cmd",
                Topic::EmergencyTurnIndicatorsCmd => "/system/emergency/turn_indicators_cmd",
                Topic::EmergencyHolding => "/system/emergency_holding",
                Topic::EmergencyCmd => "/control/command/emergency_cmd",
                Topic::GateModeCmd => "/control/gate_mode_cmd",
                Topic::ShiftDeciderGearCmd => "/control/shift_decider/gear_cmd",
                Topic::GateIsStopped => "/control/vehicle_cmd_gate/is_stopped",
                Topic::GateOperationMode => "/control/vehicle_cmd_gate/operation_mode",
                Topic::SystemOperationMode => "/system/operation_mode/state",
                Topic::GateIsPaused => "/control/vehicle_cmd_gate/is_paused",
                Topic::GateIsStartRequested => "/control/vehicle_cmd_gate/is_start_requested",
                Topic::CurrentGateMode => "/control/current_gate_mode",
                Topic::FilterActivated => "/control/vehicle_cmd_gate/is_filter_activated",
                Topic::FilterFlag => "/control/vehicle_cmd_gate/is_filter_activated/flag",
                Topic::FilterMarker => "/control/vehicle_cmd_gate/is_filter_activated/marker",
                Topic::FilterMarkerRaw => "/control/vehicle_cmd_gate/is_filter_activated/marker_raw",
                Topic::ValidatorDebugMarker => "/control/control_validator/debug/marker",
                Topic::ValidatorOutputMarkers => "/control/control_validator/output/markers",
                Topic::ValidationStatus => "/control/control_validator/validation_status",
                Topic::ValidatorVirtualWall => "/control/control_validator/virtual_wall",
                Topic::TransitionDebug => "/control/autoware_operation_mode_transition_manager/debug_info",
                Topic::AutonomousAvailable => "/control/is_autonomous_available",
                Topic::ControlPublishedTime => "/control/command/control_cmd/debug/published_time",
                Topic::ApiEngage => "/api/autoware/get/engage",
                Topic::AutowareEngage => "/autoware/engage",
                Topic::AutowareState => "/autoware/state",
                Topic::ApiEmergency => "/api/autoware/get/emergency",
                Topic::DiagnosticsStatus => "/api/system/diagnostics/status",
                Topic::DiagnosticsStruct => "/api/system/diagnostics/struct",
                Topic::DiagnosticsUnknowns => "/diagnostics_graph/unknowns",
                Topic::CommandModeAvailability => "/system/command_mode/availability",
                Topic::LaunchControl => "/system/component_state_monitor/component/launch/control",
                Topic::LaunchLocalization => "/system/component_state_monitor/component/launch/localization",
                Topic::LaunchMap => "/system/component_state_monitor/component/launch/map",
                Topic::LaunchPerception => "/system/component_state_monitor/component/launch/perception",
                Topic::LaunchPlanning => "/system/component_state_monitor/component/launch/planning",
                Topic::LaunchSensing => "/system/component_state_monitor/component/launch/sensing",
                Topic::LaunchSystem => "/system/component_state_monitor/component/launch/system",
                Topic::LaunchVehicle => "/system/component_state_monitor/component/launch/vehicle",
                Topic::HazardStatus => "/system/emergency/hazard_status",
                Topic::OperationModeAvailability => "/system/operation_mode/availability",
            }),
    {
        match self {
            Topic::MrmState => "/system/fail_safe/mrm_state",
            Topic::HazardLightsCmd => "/control/command/hazard_lights_cmd",
            Topic::GearCmd => "/control/command/gear_cmd",
            Topic::ControlCmd => "/control/command/control_cmd",
            Topic::TurnIndicatorsCmd => "/control/command/turn_indicators_cmd",
            Topic::ApiOperationMode => "/api/operation_mode/state",
            Topic::EmergencyStopStatus => "/system/mrm/emergency_stop/status",
            Topic::ComfortableStopStatus => "/system/mrm/comfortable_stop/status",
            Topic::PullOverStatus => "/system/mrm/pull_over_manager/status",
            Topic::EmergencyGearCmd => "/system/emergency/gear_cmd",
            Topic::EmergencyHazardLightsCmd => "/system/emergency/hazard_lights_cmd",
            Topic::EmergencyTurnIndicatorsCmd => "/system/emergency/turn_indicators_cmd",
            Topic::EmergencyHolding => "/system/emergency_holding",
            Topic::EmergencyCmd => "/control/command/emergency_cmd",
            Topic::GateModeCmd => "/control/gate_mode_cmd",
            Topic::ShiftDeciderGearCmd => "/control/shift_decider/gear_cmd",
            Topic::GateIsStopped => "/control/vehicle_cmd_gate/is_stopped",
            Topic::GateOperationMode => "/control/vehicle_cmd_gate/operation_mode",
            Topic::SystemOperationMode => "/system/operation_mode/state",
            Topic::GateIsPaused => "/control/vehicle_cmd_gate/is_paused",
            Topic::GateIsStartRequested => "/control/vehicle_cmd_gate/is_start_requested",
            Topic::CurrentGateMode => "/control/current_gate_mode",
            Topic::FilterActivated => "/control/vehicle_cmd_gate/is_filter_activated",
            Topic::FilterFlag => "/control/vehicle_cmd_gate/is_filter_activated/flag",
            Topic::FilterMarker => "/control/vehicle_cmd_gate/is_filter_activated/marker",
            Topic::FilterMarkerRaw => "/control/vehicle_cmd_gate/is_filter_activated/marker_raw",
            Topic::ValidatorDebugMarker => "/control/control_validator/debug/marker",
            Topic::ValidatorOutputMarkers => "/control/control_validator/output/markers",
            Topic::ValidationStatus => "/control/control_validator/validation_status",
            Topic::ValidatorVirtualWall => "/control/control_validator/virtual_wall",
            Topic::TransitionDebug => "/control/autoware_operation_mode_transition_manager/debug_info",
            Topic::AutonomousAvailable => "/control/is_autonomous_available",
            Topic::ControlPublishedTime => "/control/command/control_cmd/debug/published_time",
            Topic::ApiEngage => "/api/autoware/get/engage",
            Topic::AutowareEngage => "/autoware/engage",
            Topic::AutowareState => "/autoware/state",
            Topic::ApiEmergency => "/api/autoware/get/emergency",
            Topic::DiagnosticsStatus => "/api/system/diagnostics/status",
            Topic::DiagnosticsStruct => "/api/system/diagnostics/struct",
            Topic::DiagnosticsUnknowns => "/diagnostics_graph/unknowns",
            Topic::CommandModeAvailability => "/system/command_mode/availability",
            Topic::LaunchControl => "/system/component_state_monitor/component/launch/control",
            Topic::LaunchLocalization => "/system/component_state_monitor/component/launch/localization",
            Topic::LaunchMap => "/system/component_state_monitor/component/launch/map",
            Topic::LaunchPerception => "/system/component_state_monitor/component/launch/perception",
            Topic::LaunchPlanning => "/system/component_state_monitor/component/launch/planning",
            Topic::LaunchSensing => "/system/component_state_monitor/component/launch/sensing",
            Topic::LaunchSystem => "/system/component_state_monitor/component/launch/system",
            Topic::LaunchVehicle => "/system/component_state_monitor/component/launch/vehicle",
            Topic::HazardStatus => "/system/emergency/hazard_status",
            Topic::OperationModeAvailability => "/system/operation_mode/availability",
        }
    }

    /// What the topic carries.
    #[verifier::allow_in_spec]
    pub fn interface(self) -> Interface
        returns
            (match self {
                Topic::MrmState => Interface::MrmState,
                Topic::HazardLightsCmd => Interface::HazardLightsCommand,
                Topic::GearCmd => Interface::GearCommand,
                Topic::ControlCmd => Interface::Control,
                Topic::TurnIndicatorsCmd => Interface::TurnIndicatorsCommand,
                Topic::ApiOperationMode => Interface::OperationModeState,
                Topic::EmergencyStopStatus => Interface::MrmBehaviorStatus,
                Topic::ComfortableStopStatus => Interface::MrmBehaviorStatus,
                Topic::PullOverStatus => Interface::MrmBehaviorStatus,
                Topic::EmergencyGearCmd => Interface::GearCommand,
                Topic::EmergencyHazardLightsCmd => Interface::HazardLightsCommand,
                Topic::EmergencyTurnIndicatorsCmd => Interface::TurnIndicatorsCommand,
                Topic::EmergencyHolding => Interface::EmergencyHoldingState,
                Topic::EmergencyCmd => Interface::VehicleEmergencyStamped,
                Topic::GateModeCmd => Interface::GateMode,
                Topic::ShiftDeciderGearCmd => Interface::GearCommand,
                Topic::GateIsStopped => Interface::IsStopped,
                Topic::GateOperationMode => Interface::OperationModeState,
                Topic::SystemOperationMode => Interface::OperationModeState,
                Topic::GateIsPaused => Interface::IsPaused,
                Topic::GateIsStartRequested => Interface::IsStartRequested,
                Topic::CurrentGateMode => Interface::GateMode,
                Topic::FilterActivated => Interface::IsFilterActivated,
                Topic::FilterFlag => Interface::BoolStamped,
                Topic::FilterMarker => Interface::MarkerArray,
                Topic::FilterMarkerRaw => Interface::MarkerArray,
                Topic::ValidatorDebugMarker => Interface::MarkerArray,
                Topic::ValidatorOutputMarkers => Interface::MarkerArray,
                Topic::ValidationStatus => Interface::ControlValidatorStatus,
                Topic::ValidatorVirtualWall => Interface::MarkerArray,
                Topic::TransitionDebug => Interface::OperationModeTransitionManagerDebug,
                Topic::AutonomousAvailable => Interface::ModeChangeAvailable,
                Topic::ControlPublishedTime => Interface::PublishedTime,
                Topic::ApiEngage => Interface::Engage,
                Topic::AutowareEngage => Interface::Engage,
                Topic::AutowareState => Interface::AutowareState,
                Topic::ApiEmergency => Interface::Emergency,
                Topic::DiagnosticsStatus => Interface::DiagGraphStatus,
                Topic::DiagnosticsStruct => Interface::DiagGraphStruct,
                Topic::DiagnosticsUnknowns => Interface::DiagnosticArray,
                Topic::CommandModeAvailability => Interface::CommandModeAvailability,
                Topic::LaunchControl => Interface::ModeChangeAvailable,
                Topic::LaunchLocalization => Interface::ModeChangeAvailable,
                Topic::LaunchMap => Interface::ModeChangeAvailable,
                Topic::LaunchPerception => Interface::ModeChangeAvailable,
                Topic::LaunchPlanning => Interface::ModeChangeAvailable,
                Topic::LaunchSensing => Interface::ModeChangeAvailable,
                Topic::LaunchSystem => Interface::ModeChangeAvailable,
                Topic::LaunchVehicle => Interface::ModeChangeAvailable,
                Topic::HazardStatus => Interface::HazardStatusStamped,
                Topic::OperationModeAvailability => Interface::OperationModeAvailability,
            }),
    {
        match self {
            Topic::MrmState => Interface::MrmState,
            Topic::HazardLightsCmd => Interface::HazardLightsCommand,
            Topic::GearCmd => Interface::GearCommand,
            Topic::ControlCmd => Interface::Control,
            Topic::TurnIndicatorsCmd => Interface::TurnIndicatorsCommand,
            Topic::ApiOperationMode => Interface::OperationModeState,
            Topic::EmergencyStopStatus => Interface::MrmBehaviorStatus,
            Topic::ComfortableStopStatus => Interface::MrmBehaviorStatus,
            Topic::PullOverStatus => Interface::MrmBehaviorStatus,
            Topic::EmergencyGearCmd => Interface::GearCommand,
            Topic::EmergencyHazardLightsCmd => Interface::HazardLightsCommand,
            Topic::EmergencyTurnIndicatorsCmd => Interface::TurnIndicatorsCommand,
            Topic::EmergencyHolding => Interface::EmergencyHoldingState,
            Topic::EmergencyCmd => Interface::VehicleEmergencyStamped,
            Topic::GateModeCmd => Interface::GateMode,
            Topic::ShiftDeciderGearCmd => Interface::GearCommand,
            Topic::GateIsStopped => Interface::IsStopped,
            Topic::GateOperationMode => Interface::OperationModeState,
            Topic::SystemOperationMode => Interface::OperationModeState,
            Topic::GateIsPaused => Interface::IsPaused,
            Topic::GateIsStartRequested => Interface::IsStartRequested,
            Topic::CurrentGateMode => Interface::GateMode,
            Topic::FilterActivated => Interface::IsFilterActivated,
            Topic::FilterFlag => Interface::BoolStamped,
            Topic::FilterMarker => Interface::MarkerArray,
            Topic::FilterMarkerRaw => Interface::MarkerArray,
            Topic::ValidatorDebugMarker => Interface::MarkerArray,
            Topic::ValidatorOutputMarkers => Interface::MarkerArray,
            Topic::ValidationStatus => Interface::ControlValidatorStatus,
            Topic::ValidatorVirtualWall => Interface::MarkerArray,
            Topic::TransitionDebug => Interface::OperationModeTransitionManagerDebug,
            Topic::AutonomousAvailable => Interface::ModeChangeAvailable,
            Topic::ControlPublishedTime => Interface::PublishedTime,
            Topic::ApiEngage => Interface::Engage,
            Topic::AutowareEngage => Interface::Engage,
            Topic::AutowareState => Interface::AutowareState,
            Topic::ApiEmergency => Interface::Emergency,
            Topic::DiagnosticsStatus => Interface::DiagGraphStatus,
            Topic::DiagnosticsStruct => Interface::DiagGraphStruct,
            Topic::DiagnosticsUnknowns => Interface::DiagnosticArray,
            Topic::CommandModeAvailability => Interface::CommandModeAvailability,
            Topic::LaunchControl => Interface::ModeChangeAvailable,
            Topic::LaunchLocalization => Interface::ModeChangeAvailable,
            Topic::LaunchMap => Interface::ModeChangeAvailable,
            Topic::LaunchPerception => Interface::ModeChangeAvailable,
            Topic::LaunchPlanning => Interface::ModeChangeAvailable,
            Topic::LaunchSensing => Interface::ModeChangeAvailable,
            Topic::LaunchSystem => Interface::ModeChangeAvailable,
            Topic::LaunchVehicle => Interface::ModeChangeAvailable,
            Topic::HazardStatus => Interface::HazardStatusStamped,
            Topic::OperationModeAvailability => Interface::OperationModeAvailability,
        }
    }

    /// The component that the topic comes with.
    #[verifier::allow_in_spec]
    pub fn component(self) -> Component
        returns
            (match self {
                Topic::MrmState => Component::Core,
                Topic::HazardLightsCmd => Component::Core,
                Topic::GearCmd => Component::Core,
                Topic::ControlCmd => Component::Core,
                Topic::TurnIndicatorsCmd => Component::Core,
                Topic::ApiOperationMode => Component::Core,
                Topic::EmergencyStopStatus => Component::Mrm,
                Topic::ComfortableStopStatus => Component::Mrm,
                Topic::PullOverStatus => Component::Mrm,
                Topic::EmergencyGearCmd => Component::Mrm,
                Topic::EmergencyHazardLightsCmd => Component::Mrm,
                Topic::EmergencyTurnIndicatorsCmd => Component::Mrm,
                Topic::EmergencyHolding => Component::Mrm,
                Topic::EmergencyCmd => Component::CommandGate,
                Topic::GateModeCmd => Component::CommandGate,
                Topic::ShiftDeciderGearCmd => Component::CommandGate,
                Topic::GateIsStopped => Component::CommandGate,
                Topic::GateOperationMode => Component::CommandGate,
                Topic::SystemOperationMode => Component::CommandGate,
                Topic::GateIsPaused => Component::CommandGate,
                Topic::GateIsStartRequested => Component::CommandGate,
                Topic::CurrentGateMode => Component::CommandGate,
                Topic::FilterActivated => Component::CommandGate,
                Topic::FilterFlag => Component::CommandGate,
                Topic::FilterMarker => Component::CommandGate,
                Topic::FilterMarkerRaw => Component::CommandGate,
                Topic::ValidatorDebugMarker => Component::Validator,
                Topic::ValidatorOutputMarkers => Component::Validator,
                Topic::ValidationStatus => Component::Validator,
                Topic::ValidatorVirtualWall => Component::Validator,
                Topic::TransitionDebug => Component::OperationMode,
                Topic::AutonomousAvailable => Component::OperationMode,
                Topic::ControlPublishedTime => Component::OperationMode,
                Topic::ApiEngage => Component::Engagement,
                Topic::AutowareEngage => Component::Engagement,
                Topic::AutowareState => Component::Engagement,
                Topic::ApiEmergency => Component::Engagement,
                Topic::DiagnosticsStatus => Component::Monitoring,
                Topic::DiagnosticsStruct => Component::Monitoring,
                Topic::DiagnosticsUnknowns => Component::Monitoring,
                Topic::CommandModeAvailability => Component::Monitoring,
                Topic::LaunchControl => Component::Monitoring,
                Topic::LaunchLocalization => Component::Monitoring,
                Topic::LaunchMap => Component::Monitoring,
                Topic::LaunchPerception => Component::Monitoring,
                Topic::LaunchPlanning => Component::Monitoring,
                Topic::LaunchSensing => Component::Monitoring,
                Topic::LaunchSystem => Component::Monitoring,
                Topic::LaunchVehicle => Component::Monitoring,
                Topic::HazardStatus => Component::Monitoring,
                Topic::OperationModeAvailability => Component::Monitoring,
            }),
    {
        match self {
            Topic::MrmState => Component::Core,
            Topic::HazardLightsCmd => Component::Core,
            Topic::GearCmd => Component::Core,
            Topic::ControlCmd => Component::Core,
            Topic::TurnIndicatorsCmd => Component::Core,
            Topic::ApiOperationMode => Component::Core,
            Topic::EmergencyStopStatus => Component::Mrm,
            Topic::ComfortableStopStatus => Component::Mrm,
            Topic::PullOverStatus => Component::Mrm,
            Topic::EmergencyGearCmd => Component::Mrm,
            Topic::EmergencyHazardLightsCmd => Component::Mrm,
            Topic::EmergencyTurnIndicatorsCmd => Component::Mrm,
            Topic::EmergencyHolding => Component::Mrm,
            Topic::EmergencyCmd => Component::CommandGate,
            Topic::GateModeCmd => Component::CommandGate,
            Topic::ShiftDeciderGearCmd => Component::CommandGate,
            Topic::GateIsStopped => Component::CommandGate,
            Topic::GateOperationMode => Component::CommandGate,
            Topic::SystemOperationMode => Component::CommandGate,
            Topic::GateIsPaused => Component::CommandGate,
            Topic::GateIsStartRequested => Component::CommandGate,
            Topic::CurrentGateMode => Component::CommandGate,
            Topic::FilterActivated => Component::CommandGate,
            Topic::FilterFlag => Component::CommandGate,
            Topic::FilterMarker => Component::CommandGate,
            Topic::FilterMarkerRaw => Component::CommandGate,
            Topic::ValidatorDebugMarker => Component::Validator,
            Topic::ValidatorOutputMarkers => Component::Validator,
            Topic::ValidationStatus => Component::Validator,
            Topic::ValidatorVirtualWall => Component::Validator,
            Topic::TransitionDebug => Component::OperationMode,
            Topic::AutonomousAvailable => Component::OperationMode,
            Topic::ControlPublishedTime => Component::OperationMode,
            Topic::ApiEngage => Component::Engagement,
            Topic::AutowareEngage => Component::Engagement,
            Topic::AutowareState => Component::Engagement,
            Topic::ApiEmergency => Component::Engagement,
            Topic::DiagnosticsStatus => Component::Monitoring,
            Topic::DiagnosticsStruct => Component::Monitoring,
            Topic::DiagnosticsUnknowns => Component::Monitoring,
            Topic::CommandModeAvailability => Component::Monitoring,
            Topic::LaunchControl => Component::Monitoring,
            Topic::LaunchLocalization => Component::Monitoring,
            Topic::LaunchMap => Component::Monitoring,
            Topic::LaunchPerception => Component::Monitoring,
            Topic::LaunchPlanning => Component::Monitoring,
            Topic::LaunchSensing => Component::Monitoring,
            Topic::LaunchSystem => Component::Monitoring,
            Topic::LaunchVehicle => Component::Monitoring,
            Topic::HazardStatus => Component::Monitoring,
            Topic::OperationModeAvailability => Component::Monitoring,
        }
    }
}

/// Length of a topic's name and its characters at places that tell the names apart.
spec fn topic_name_marks(x: Topic) -> (int, char, char, char) {
    match x {
        Topic::MrmState => (27, 'a', ' ', ' '),
        Topic::HazardLightsCmd => (34, 'c', 'h', ' '),
        Topic::GearCmd => (25, 'c', ' ', ' '),
        Topic::ControlCmd => (28, 'c', 'd', ' '),
        Topic::TurnIndicatorsCmd => (36, 'c', 'a', ' '),
        Topic::ApiOperationMode => (25, 'a', ' ', ' '),
        Topic::EmergencyStopStatus => (33, 'r', 's', ' '),
        Topic::ComfortableStopStatus => (35, 'r', 'p', ' '),
        Topic::PullOverStatus => (36, 'r', 'e', ' '),
        Topic::EmergencyGearCmd => (26, 'm', ' ', ' '),
        Topic::EmergencyHazardLightsCmd => (35, 'm', 'g', ' '),
        Topic::EmergencyTurnIndicatorsCmd => (37, 'm', 'c', ' '),
        Topic::EmergencyHolding => (25, 'm', ' ', ' '),
        Topic::EmergencyCmd => (30, 'c', 'c', ' '),
        Topic::GateModeCmd => (22, 'g', ' ', ' '),
        Topic::ShiftDeciderGearCmd => (31, 's', '_', ' '),
        Topic::GateIsStopped => (36, 'v', 's', ' '),
        Topic::GateOperationMode => (40, 'v', 'p', ' '),
        Topic::SystemOperationMode => (28, 'p', 'e', ' '),
        Topic::GateIsPaused => (35, 'v', 's', ' '),
        Topic::GateIsStartRequested => (44, 'v', 's', ' '),
        Topic::CurrentGateMode => (26, 'c', ' ', ' '),
        Topic::FilterActivated => (45, 'v', 's', ' '),
        Topic::FilterFlag => (50, 'v', 's', 'g'),
        Topic::FilterMarker => (52, 'v', 's', 'k'),
        Topic::FilterMarkerRaw => (56, 'v', 's', 'k'),
        Topic::ValidatorDebugMarker => (39, 'c', 'd', ' '),
        Topic::ValidatorOutputMarkers => (41, 'c', 'o', ' '),
        Topic::ValidationStatus => (44, 'c', 'v', ' '),
        Topic::ValidatorVirtualWall => (39, 'c', 'v', ' '),
        Topic::TransitionDebug => (62, 'a', '_', 'e'),
        Topic::AutonomousAvailable => (32, 'i', 'l', ' '),
        Topic::ControlPublishedTime => (49, 'c', 'd', ' '),
        Topic::ApiEngage => (24, 'w', ' ', ' '),
        Topic::AutowareEngage => (16, '/', ' ', ' '),
        Topic::AutowareState => (15, '/', ' ', ' '),
        Topic::ApiEmergency => (27, 'w', ' ', ' '),
        Topic::DiagnosticsStatus => (30, 'e', 't', ' '),
        Topic::DiagnosticsStruct => (30, 'e', 'u', ' '),
        Topic::DiagnosticsUnknowns => (27, 'i', ' ', ' '),
        Topic::CommandModeAvailability => (33, 'o', 'b', ' '),
        Topic::LaunchControl => (56, 'o', 'i', 'c'),
        Topic::LaunchLocalization => (61, 'o', 'i', 'l'),
        Topic::LaunchMap => (52, 'o', 'i', 'm'),
        Topic::LaunchPerception => (59, 'o', 'i', 'p'),
        Topic::LaunchPlanning => (57, 'o', 'i', 'p'),
        Topic::LaunchSensing => (56, 'o', 'i', 's'),
        Topic::LaunchSystem => (55, 'o', 'i', 's'),
        Topic::LaunchVehicle => (56, 'o', 'i', 'v'),
        Topic::HazardStatus => (31, 'm', 'a', ' '),
        Topic::OperationModeAvailability => (35, 'p', 'l', ' '),
    }
}

proof fn lemma_topic_name_marks(x: Topic)
    ensures
        x.name()@.len() == topic_name_marks(x).0,
        x.name()@[9] == topic_name_marks(x).1,
        27 < x.name()@.len() ==> x.name()@[27] == topic_name_marks(x).2,
        49 < x.name()@.len() ==> x.name()@[49] == topic_name_marks(x).3,
{
    match x {
        Topic::MrmState => {
            reveal_strlit("/system/fail_safe/mrm_state");
        },
        Topic::HazardLightsCmd => {
            reveal_strlit("/control/command/hazard_lights_cmd");
        },
        Topic::GearCmd => {
            reveal_strlit("/control/command/gear_cmd");
        },
        Topic::ControlCmd => {
            reveal_strlit("/control/command/control_cmd");
        },
        Topic::TurnIndicatorsCmd => {
            reveal_strlit("/control/command/turn_indicators_cmd");
        },
        Topic::ApiOperationMode => {
            reveal_strlit("/api/operation_mode/state");
        },
        Topic::EmergencyStopStatus => {
            reveal_strlit("/system/mrm/emergency_stop/status");
        },
        Topic::ComfortableStopStatus => {
            reveal_strlit("/system/mrm/comfortable_stop/status");
        },
        Topic::PullOverStatus => {
            reveal_strlit("/system/mrm/pull_over_manager/status");
        },
        Topic::EmergencyGearCmd => {
            reveal_strlit("/system/emergency/gear_cmd");
        },
        Topic::EmergencyHazardLightsCmd => {
            reveal_strlit("/system/emergency/hazard_lights_cmd");
        },
        Topic::EmergencyTurnIndicatorsCmd => {
            reveal_strlit("/system/emergency/turn_indicators_cmd");
        },
        Topic::EmergencyHolding => {
            reveal_strlit("/system/emergency_holding");
        },
        Topic::EmergencyCmd => {
            reveal_strlit("/control/command/emergency_cmd");
        },
        Topic::GateModeCmd => {
            reveal_strlit("/control/gate_mode_cmd");
        },
        Topic::ShiftDeciderGearCmd => {
            reveal_strlit("/control/shift_decider/gear_cmd");
        },
        Topic::GateIsStopped => {
            reveal_strlit("/control/vehicle_cmd_gate/is_stopped");
        },
        Topic::GateOperationMode => {
            reveal_strlit("/control/vehicle_cmd_gate/operation_mode");
        },
        Topic::SystemOperationMode => {
            reveal_strlit("/system/operation_mode/state");
        },
        Topic::GateIsPaused => {
            reveal_strlit("/control/vehicle_cmd_gate/is_paused");
        },
        Topic::GateIsStartRequested => {
            reveal_strlit("/control/vehicle_cmd_gate/is_start_requested");
        },
        Topic::CurrentGateMode => {
            reveal_strlit("/control/current_gate_mode");
        },
        Topic::FilterActivated => {
            reveal_strlit("/control/vehicle_cmd_gate/is_filter_activated");
        },
        Topic::FilterFlag => {
            reveal_strlit("/control/vehicle_cmd_gate/is_filter_activated/flag");
        },
        Topic::FilterMarker => {
            reveal_strlit("/control/vehicle_cmd_gate/is_filter_activated/marker");
        },
        Topic::FilterMarkerRaw => {
            reveal_strlit("/control/vehicle_cmd_gate/is_filter_activated/marker_raw");
        },
        Topic::ValidatorDebugMarker => {
            reveal_strlit("/control/control_validator/debug/marker");
        },
        Topic::ValidatorOutputMarkers => {
            reveal_strlit("/control/control_validator/output/markers");
        },
        Topic::ValidationStatus => {
            reveal_strlit("/control/control_validator/validation_status");
        },
        Topic::ValidatorVirtualWall => {
            reveal_strlit("/control/control_validator/virtual_wall");
        },
        Topic::TransitionDebug => {
            reveal_strlit("/control/autoware_operation_mode_transition_manager/debug_info");
        },
        Topic::AutonomousAvailable => {
            reveal_strlit("/control/is_autonomous_available");
        },
        Topic::ControlPublishedTime => {
            reveal_strlit("/control/command/control_cmd/debug/published_time");
        },
        Topic::ApiEngage => {
            reveal_strlit("/api/autoware/get/engage");
        },
        Topic::AutowareEngage => {
            reveal_strlit("/autoware/engage");
        },
        Topic::AutowareState => {
            reveal_strlit("/autoware/state");
        },
        Topic::ApiEmergency => {
            reveal_strlit("/api/autoware/get/emergency");
        },
        Topic::DiagnosticsStatus => {
            reveal_strlit("/api/system/diagnostics/status");
        },
        Topic::DiagnosticsStruct => {
            reveal_strlit("/api/system/diagnostics/struct");
        },
        Topic::DiagnosticsUnknowns => {
            reveal_strlit("/diagnostics_graph/unknowns");
        },
        Topic::CommandModeAvailability => {
            reveal_strlit("/system/command_mode/availability");
        },
        Topic::LaunchControl => {
            reveal_strlit("/system/component_state_monitor/component/launch/control");
        },
        Topic::LaunchLocalization => {
            reveal_strlit("/system/component_state_monitor/component/launch/localization");
        },
        Topic::LaunchMap => {
            reveal_strlit("/system/component_state_monitor/component/launch/map");
        },
        Topic::LaunchPerception => {
            reveal_strlit("/system/component_state_monitor/component/launch/perception");
        },
        Topic::LaunchPlanning => {
            reveal_strlit("/system/component_state_monitor/component/launch/planning");
        },
        Topic::LaunchSensing => {
            reveal_strlit("/system/component_state_monitor/component/launch/sensing");
        },
        Topic::LaunchSystem => {
            reveal_strlit("/system/component_state_monitor/component/launch/system");
        },
        Topic::LaunchVehicle => {
            reveal_strlit("/system/component_state_monitor/component/launch/vehicle");
        },
        Topic::HazardStatus => {
            reveal_strlit("/system/emergency/hazard_status");
        },
        Topic::OperationModeAvailability => {
            reveal_strlit("/system/operation_mode/availability");
        },
    }
}

/// No two topics have the same name.
pub proof fn law_topic_names_differ(a: Topic, b: Topic)
    requires
        a.name()@ == b.name()@,
    ensures
        a == b,
{
    lemma_topic_name_marks(a);
    lemma_topic_name_marks(b);
}

/// The topic of a given name, if there is one.
pub open spec fn topic_named(name: Seq<char>) -> Option<Topic> {
    if exists|x: Topic| (#[trigger] x.name())@ == name {
        Some(choose|x: Topic| (#[trigger] x.name())@ == name)
    } else {
        None
    }
}

/// A topic is found by its name.
pub proof fn law_topic_is_found_by_name(x: Topic)
    ensures
        topic_named(x.name()@) == Some(x),
{
    let found = choose|y: Topic| (#[trigger] y.name())@ == x.name()@;
    law_topic_names_differ(found, x);
}

/// What a topic that the island listens to carries.
#[derive(Clone, Copy, Debug, PartialEq, Eq, Structural)]
pub enum SourceInterface {
    AccelWithCovarianceStamped,
    AutowareState,
    Control,
    GearReport,
    Heartbeat,
    Odometry,
    SteeringReport,
    Trajectory,
    VelocityReport,
}

/// A topic that the island listens to, in the order in which they are declared.
#[derive(Clone, Copy, Debug, PartialEq, Eq, Structural)]
pub enum Source {
    VelocityStatus,
    Heartbeat,
    FollowerControl,
    AutowareState,
    GearStatus,
    Trajectory,
    KinematicState,
    SteeringStatus,
    Acceleration,
}

impl Source {
    /// Full name of the source.
    #[verifier::allow_in_spec]
    pub fn name(self) -> &'static str
        returns
            (match self {
                Source::VelocityStatus => "/vehicle/status/velocity_status",
                Source::Heartbeat => "/api/system/heartbeat",
                Source::FollowerControl => "/control/trajectory_follower/control_cmd",
                Source::AutowareState => "/autoware/state",
                Source::GearStatus => "/vehicle/status/gear_status",
                Source::Trajectory => "/planning/scenario_planning/trajectory",
                Source::KinematicState => "/localization/kinematic_state",
                Source::SteeringStatus => "/vehicle/status/steering_status",
                Source::Acceleration => "/localization/acceleration",
            }),
    {
        match self {
            Source::VelocityStatus => "/vehicle/status/velocity_status",
            Source::Heartbeat => "/api/system/heartbeat",
            Source::FollowerControl => "/control/trajectory_follower/control_cmd",
            Source::AutowareState => "/autoware/state",
            Source::GearStatus => "/vehicle/status/gear_status",
            Source::Trajectory => "/planning/scenario_planning/trajectory",
            Source::KinematicState => "/localization/kinematic_state",
            Source::SteeringStatus => "/vehicle/status/steering_status",
            Source::Acceleration => "/localization/acceleration",
        }
    }

    /// What the source carries.
    #[verifier::allow_in_spec]
    pub fn interface(self) -> SourceInterface
        returns
            (match self {
                Source::VelocityStatus => SourceInterface::VelocityReport,
                Source::Heartbeat => SourceInterface::Heartbeat,
                Source::FollowerControl => SourceInterface::Control,
                Source::AutowareState => SourceInterface::AutowareState,
                Source::GearStatus => SourceInterface::GearReport,
                Source::Trajectory => SourceInterface::Trajectory,
                Source::KinematicState => SourceInterface::Odometry,
                Source::SteeringStatus => SourceInterface::SteeringReport,
                Source::Acceleration => SourceInterface::AccelWithCovarianceStamped,
            }),
    {
        match self {
            Source::VelocityStatus => SourceInterface::VelocityReport,
            Source::Heartbeat => SourceInterface::Heartbeat,
            Source::FollowerControl => SourceInterface::Control,
            Source::AutowareState => SourceInterface::AutowareState,
            Source::GearStatus => SourceInterface::GearReport,
            Source::Trajectory => SourceInterface::Trajectory,
            Source::KinematicState => SourceInterface::Odometry,
            Source::SteeringStatus => SourceInterface::SteeringReport,
            Source::Acceleration => SourceInterface::AccelWithCovarianceStamped,
        }
    }

    /// The component that the source comes with.
    #[verifier::allow_in_spec]
    pub fn component(self) -> Component
        returns
            (match self {
                Source::VelocityStatus => Component::Core,
                Source::Heartbeat => Component::Core,
                Source::FollowerControl => Component::Core,
                Source::AutowareState => Component::Engagement,
                Source::GearStatus => Component::CommandGate,
                Source::Trajectory => Component::Controller,
                Source::KinematicState => Component::Controller,
                Source::SteeringStatus => Component::Controller,
                Source::Acceleration => Component::Controller,
            }),
    {
        match self {
            Source::VelocityStatus => Component::Core,
            Source::Heartbeat => Component::Core,
            Source::FollowerControl => Component::Core,
            Source::AutowareState => Component::Engagement,
            Source::GearStatus => Component::CommandGate,
            Source::Trajectory => Component::Controller,
            Source::KinematicState => Component::Controller,
            Source::SteeringStatus => Component::Controller,
            Source::Acceleration => Component::Controller,
        }
    }
}

/// Length of a source's name and its character at a place that tells the names apart.
spec fn source_name_marks(x: Source) -> (int, char) {
    match x {
        Source::VelocityStatus => (31, 'v'),
        Source::Heartbeat => (21, 't'),
        Source::FollowerControl => (40, 'o'),
        Source::AutowareState => (15, ' '),
        Source::GearStatus => (27, 'g'),
        Source::Trajectory => (38, 'i'),
        Source::KinematicState => (29, 'n'),
        Source::SteeringStatus => (31, 's'),
        Source::Acceleration => (26, 'c'),
    }
}

proof fn lemma_source_name_marks(x: Source)
    ensures
        x.name()@.len() == source_name_marks(x).0,
        16 < x.name()@.len() ==> x.name()@[16] == source_name_marks(x).1,
{
    match x {
        Source::VelocityStatus => {
            reveal_strlit("/vehicle/status/velocity_status");
        },
        Source::Heartbeat => {
            reveal_strlit("/api/system/heartbeat");
        },
        Source::FollowerControl => {
            reveal_strlit("/control/trajectory_follower/control_cmd");
        },
        Source::AutowareState => {
            reveal_strlit("/autoware/state");
        },
        Source::GearStatus => {
            reveal_strlit("/vehicle/status/gear_status");
        },
        Source::Trajectory => {
            reveal_strlit("/planning/scenario_planning/trajectory");
        },
        Source::KinematicState => {
            reveal_strlit("/localization/kinematic_state");
        },
        Source::SteeringStatus => {
            reveal_strlit("/vehicle/status/steering_status");
        },
        Source::Acceleration => {
            reveal_strlit("/localization/acceleration");
        },
    }
}

/// No two sources have the same name.
pub proof fn law_source_names_differ(a: Source, b: Source)
    requires
        a.name()@ == b.name()@,
    ensures
        a == b,
{
    lemma_source_name_marks(a);
    lemma_source_name_marks(b);
}

/// The source of a given name, if there is one.
pub open spec fn source_named(name: Seq<char>) -> Option<Source> {
    if exists|x: Source| (#[trigger] x.name())@ == name {
        Some(choose|x: Source| (#[trigger] x.name())@ == name)
    } else {
        None
    }
}

/// A source is found by its name.
pub proof fn law_source_is_found_by_name(x: Source)
    ensures
        source_named(x.name()@) == Some(x),
{
    let found = choose|y: Source| (#[trigger] y.name())@ == x.name()@;
    law_source_names_differ(found, x);
}

/// The request and response of a service.
#[derive(Clone, Copy, Debug, PartialEq, Eq, Structural)]
pub enum ServiceInterface {
    ChangeAutowareControl,
    ChangeOperationMode,
    ConfigLogger,
    ControlModeCommand,
    Engage,
    InterfaceVersion,
    OperateMrm,
    ResetDiagGraph,
    ResetDiagGraphTier4,
    SetBool,
    SetEmergency,
    SetStop,
    Trigger,
}

/// A service that the island offers, in the order in which they are declared.
#[derive(Clone, Copy, Debug, PartialEq, Eq, Structural)]
pub enum Service {
    ChangeToAutonomous,
    SetEngage,
    SetEmergency,
    ExternalEmergencyStop,
    ClearExternalEmergencyStop,
    ConfigLogger,
    SetStop,
    ControlModeRequest,
    ChangeToStop,
    ChangeToLocal,
    ChangeToRemote,
    EnableAutowareControl,
    DisableAutowareControl,
    OperateComfortableStop,
    OperateEmergencyStop,
    OperatePullOver,
    InterfaceVersion,
    ResetDiagnostics,
    Shutdown,
    ResetDiagnosticsGraph,
    SetInitializing,
    ChangeAutowareControl,
}

impl Service {
    /// Full name of the service.
    #[verifier::allow_in_spec]
    pub fn name(self) -> &'static str
        returns
            (match self {
                Service::ChangeToAutonomous => "/api/operation_mode/change_to_autonomous",
                Service::SetEngage => "/api/autoware/set/engage",
                Service::SetEmergency => "/api/autoware/set/emergency",
                Service::ExternalEmergencyStop => "/control/vehicle_cmd_gate/external_emergency_stop",
                Service::ClearExternalEmergencyStop => "/control/vehicle_cmd_gate/clear_external_emergency_stop",
                Service::ConfigLogger => "/control/vehicle_cmd_gate/config_logger",
                Service::SetStop => "/control/vehicle_cmd_gate/set_stop",
                Service::ControlModeRequest => "/control/control_mode_request",
                Service::ChangeToStop => "/api/operation_mode/change_to_stop",
                Service::ChangeToLocal => "/api/operation_mode/change_to_local",
                Service::ChangeToRemote => "/api/operation_mode/change_to_remote",
                Service::EnableAutowareControl => "/api/operation_mode/enable_autoware_control",
                Service::DisableAutowareControl => "/api/operation_mode/disable_autoware_control",
                Service::OperateComfortableStop => "/system/mrm/comfortable_stop/operate",
                Service::OperateEmergencyStop => "/system/mrm/emergency_stop/operate",
                Service::OperatePullOver => "/system/mrm/pull_over_manager/operate",
                Service::InterfaceVersion => "/api/interface/version",
                Service::ResetDiagnostics => "/api/system/diagnostics/reset",
                Service::Shutdown => "/autoware/shutdown",
                Service::ResetDiagnosticsGraph => "/diagnostics_graph/reset",
                Service::SetInitializing => "/system/aggregator/set_initializing",
                Service::ChangeAutowareControl => "/system/operation_mode/change_autoware_control",
            }),
    {
        match self {
            Service::ChangeToAutonomous => "/api/operation_mode/change_to_autonomous",
            Service::SetEngage => "/api/autoware/set/engage",
            Service::SetEmergency => "/api/autoware/set/emergency",
            Service::ExternalEmergencyStop => "/control/vehicle_cmd_gate/external_emergency_stop",
            Service::ClearExternalEmergencyStop => "/control/vehicle_cmd_gate/clear_external_emergency_stop",
            Service::ConfigLogger => "/control/vehicle_cmd_gate/config_logger",
            Service::SetStop => "/control/vehicle_cmd_gate/set_stop",
            Service::ControlModeRequest => "/control/control_mode_request",
            Service::ChangeToStop => "/api/operation_mode/change_to_stop",
            Service::ChangeToLocal => "/api/operation_mode/change_to_local",
            Service::ChangeToRemote => "/api/operation_mode/change_to_remote",
            Service::EnableAutowareControl => "/api/operation_mode/enable_autoware_control",
            Service::DisableAutowareControl => "/api/operation_mode/disable_autoware_control",
            Service::OperateComfortableStop => "/system/mrm/comfortable_stop/operate",
            Service::OperateEmergencyStop => "/system/mrm/emergency_stop/operate",
            Service::OperatePullOver => "/system/mrm/pull_over_manager/operate",
            Service::InterfaceVersion => "/api/interface/version",
            Service::ResetDiagnostics => "/api/system/diagnostics/reset",
            Service::Shutdown => "/autoware/shutdown",
            Service::ResetDiagnosticsGraph => "/diagnostics_graph/reset",
            Service::SetInitializing => "/system/aggregator/set_initializing",
            Service::ChangeAutowareControl => "/system/operation_mode/change_autoware_control",
        }
    }

    /// What the service carries.
    #[verifier::allow_in_spec]
    pub fn interface(self) -> ServiceInterface
        returns
            (match self {
                Service::ChangeToAutonomous => ServiceInterface::ChangeOperationMode,
                Service::SetEngage => ServiceInterface::Engage,
                Service::SetEmergency => ServiceInterface::SetEmergency,
                Service::ExternalEmergencyStop => ServiceInterface::Trigger,
                Service::ClearExternalEmergencyStop => ServiceInterface::Trigger,
                Service::ConfigLogger => ServiceInterface::ConfigLogger,
                Service::SetStop => ServiceInterface::SetStop,
                Service::ControlModeRequest => ServiceInterface::ControlModeCommand,
                Service::ChangeToStop => ServiceInterface::ChangeOperationMode,
                Service::ChangeToLocal => ServiceInterface::ChangeOperationMode,
                Service::ChangeToRemote => ServiceInterface::ChangeOperationMode,
                Service::EnableAutowareControl => ServiceInterface::ChangeOperationMode,
                Service::DisableAutowareControl => ServiceInterface::ChangeOperationMode,
                Service::OperateComfortableStop => ServiceInterface::OperateMrm,
                Service::OperateEmergencyStop => ServiceInterface::OperateMrm,
                Service::OperatePullOver => ServiceInterface::OperateMrm,
                Service::InterfaceVersion => ServiceInterface::InterfaceVersion,
                Service::ResetDiagnostics => ServiceInterface::ResetDiagGraph,
                Service::Shutdown => ServiceInterface::Trigger,
                Service::ResetDiagnosticsGraph => ServiceInterface::ResetDiagGraphTier4,
                Service::SetInitializing => ServiceInterface::SetBool,
                Service::ChangeAutowareControl => ServiceInterface::ChangeAutowareControl,
            }),
    {
        match self {
            Service::ChangeToAutonomous => ServiceInterface::ChangeOperationMode,
            Service::SetEngage => ServiceInterface::Engage,
            Service::SetEmergency => ServiceInterface::SetEmergency,
            Service::ExternalEmergencyStop => ServiceInterface::Trigger,
            Service::ClearExternalEmergencyStop => ServiceInterface::Trigger,
            Service::ConfigLogger => ServiceInterface::ConfigLogger,
            Service::SetStop => ServiceInterface::SetStop,
            Service::ControlModeRequest => ServiceInterface::ControlModeCommand,
            Service::ChangeToStop => ServiceInterface::ChangeOperationMode,
            Service::ChangeToLocal => ServiceInterface::ChangeOperationMode,
            Service::ChangeToRemote => ServiceInterface::ChangeOperationMode,
            Service::EnableAutowareControl => ServiceInterface::ChangeOperationMode,
            Service::DisableAutowareControl => ServiceInterface::ChangeOperationMode,
            Service::OperateComfortableStop => ServiceInterface::OperateMrm,
            Service::OperateEmergencyStop => ServiceInterface::OperateMrm,
            Service::OperatePullOver => ServiceInterface::OperateMrm,
            Service::InterfaceVersion => ServiceInterface::InterfaceVersion,
            Service::ResetDiagnostics => ServiceInterface::ResetDiagGraph,
            Service::Shutdown => ServiceInterface::Trigger,
            Service::ResetDiagnosticsGraph => ServiceInterface::ResetDiagGraphTier4,
            Service::SetInitializing => ServiceInterface::SetBool,
            Service::ChangeAutowareControl => ServiceInterface::ChangeAutowareControl,
        }
    }

    /// The component that the service comes with.
    #[verifier::allow_in_spec]
    pub fn component(self) -> Component
        returns
            (match self {
                Service::ChangeToAutonomous => Component::Core,
                Service::SetEngage => Component::Engagement,
                Service::SetEmergency => Component::Engagement,
                Service::ExternalEmergencyStop => Component::CommandGate,
                Service::ClearExternalEmergencyStop => Component::CommandGate,
                Service::ConfigLogger => Component::CommandGate,
                Service::SetStop => Component::CommandGate,
                Service::ControlModeRequest => Component::OperationMode,
                Service::ChangeToStop => Component::OperationMode,
                Service::ChangeToLocal => Component::OperationMode,
                Service::ChangeToRemote => Component::OperationMode,
                Service::EnableAutowareControl => Component::OperationMode,
                Service::DisableAutowareControl => Component::OperationMode,
                Service::OperateComfortableStop => Component::Mrm,
                Service::OperateEmergencyStop => Component::Mrm,
                Service::OperatePullOver => Component::Mrm,
                Service::InterfaceVersion => Component::Stubs,
                Service::ResetDiagnostics => Component::Stubs,
                Service::Shutdown => Component::Stubs,
                Service::ResetDiagnosticsGraph => Component::Stubs,
                Service::SetInitializing => Component::Stubs,
                Service::ChangeAutowareControl => Component::Stubs,
            }),
    {
        match self {
            Service::ChangeToAutonomous => Component::Core,
            Service::SetEngage => Component::Engagement,
            Service::SetEmergency => Component::Engagement,
            Service::ExternalEmergencyStop => Component::CommandGate,
            Service::ClearExternalEmergencyStop => Component::CommandGate,
            Service::ConfigLogger => Component::CommandGate,
            Service::SetStop => Component::CommandGate,
            Service::ControlModeRequest => Component::OperationMode,
            Service::ChangeToStop => Component::OperationMode,
            Service::ChangeToLocal => Component::OperationMode,
            Service::ChangeToRemote => Component::OperationMode,
            Service::EnableAutowareControl => Component::OperationMode,
            Service::DisableAutowareControl => Component::OperationMode,
            Service::OperateComfortableStop => Component::Mrm,
            Service::OperateEmergencyStop => Component::Mrm,
            Service::OperatePullOver => Component::Mrm,
            Service::InterfaceVersion => Component::Stubs,
            Service::ResetDiagnostics => Component::Stubs,
            Service::Shutdown => Component::Stubs,
            Service::ResetDiagnosticsGraph => Component::Stubs,
            Service::SetInitializing => Component::Stubs,
            Service::ChangeAutowareControl => Component::Stubs,
        }
    }
}

/// Length of a service's name and its characters at places that tell the names apart.
spec fn service_name_marks(x: Service) -> (int, char) {
    match x {
        Service::ChangeToAutonomous => (40, 'a'),
        Service::SetEngage => (24, 'a'),
        Service::SetEmergency => (27, 'a'),
        Service::ExternalEmergencyStop => (49, 'c'),
        Service::ClearExternalEmergencyStop => (55, 'c'),
        Service::ConfigLogger => (39, 'c'),
        Service::SetStop => (34, 'c'),
        Service::ControlModeRequest => (29, 'c'),
        Service::ChangeToStop => (34, 'a'),
        Service::ChangeToLocal => (35, 'a'),
        Service::ChangeToRemote => (36, 'a'),
        Service::EnableAutowareControl => (43, 'a'),
        Service::DisableAutowareControl => (44, 'a'),
        Service::OperateComfortableStop => (36, 's'),
        Service::OperateEmergencyStop => (34, 's'),
        Service::OperatePullOver => (37, 's'),
        Service::InterfaceVersion => (22, 'a'),
        Service::ResetDiagnostics => (29, 'a'),
        Service::Shutdown => (18, 'a'),
        Service::ResetDiagnosticsGraph => (24, 'd'),
        Service::SetInitializing => (35, 's'),
        Service::ChangeAutowareControl => (46, 's'),
    }
}

proof fn lemma_service_name_marks(x: Service)
    ensures
        x.name()@.len() == service_name_marks(x).0,
        x.name()@[1] == service_name_marks(x).1,
{
    match x {
        Service::ChangeToAutonomous => {
            reveal_strlit("/api/operation_mode/change_to_autonomous");
        },
        Service::SetEngage => {
            reveal_strlit("/api/autoware/set/engage");
        },
        Service::SetEmergency => {
            reveal_strlit("/api/autoware/set/emergency");
        },
        Service::ExternalEmergencyStop => {
            reveal_strlit("/control/vehicle_cmd_gate/external_emergency_stop");
        },
        Service::ClearExternalEmergencyStop => {
            reveal_strlit("/control/vehicle_cmd_gate/clear_external_emergency_stop");
        },
        Service::ConfigLogger => {
            reveal_strlit("/control/vehicle_cmd_gate/config_logger");
        },
        Service::SetStop => {
            reveal_strlit("/control/vehicle_cmd_gate/set_stop");
        },
        Service::ControlModeRequest => {
            reveal_strlit("/control/control_mode_request");
        },
        Service::ChangeToStop => {
            reveal_strlit("/api/operation_mode/change_to_stop");
        },
        Service::ChangeToLocal => {
            reveal_strlit("/api/operation_mode/change_to_local");
        },
        Service::ChangeToRemote => {
            reveal_strlit("/api/operation_mode/change_to_remote");
        },
        Service::EnableAutowareControl => {
            reveal_strlit("/api/operation_mode/enable_autoware_control");
        },
        Service::DisableAutowareControl => {
            reveal_strlit("/api/operation_mode/disable_autoware_control");
        },
        Service::OperateComfortableStop => {
            reveal_strlit("/system/mrm/comfortable_stop/operate");
        },
        Service::OperateEmergencyStop => {
            reveal_strlit("/system/mrm/emergency_stop/operate");
        },
        Service::OperatePullOver => {
            reveal_strlit("/system/mrm/pull_over_manager/operate");
        },
        Service::InterfaceVersion => {
            reveal_strlit("/api/interface/version");
        },
        Service::ResetDiagnostics => {
            reveal_strlit("/api/system/diagnostics/reset");
        },
        Service::Shutdown => {
            reveal_strlit("/autoware/shutdown");
        },
        Service::ResetDiagnosticsGraph => {
            reveal_strlit("/diagnostics_graph/reset");
        },
        Service::SetInitializing => {
            reveal_strlit("/system/aggregator/set_initializing");
        },
        Service::ChangeAutowareControl => {
            reveal_strlit("/system/operation_mode/change_autoware_control");
        },
    }
}

/// No two services have the same name.
pub proof fn law_service_names_differ(a: Service, b: Service)
    requires
        a.name()@ == b.name()@,
    ensures
        a == b,
{
    lemma_service_name_marks(a);
    lemma_service_name_marks(b);
}

/// All services, in the order of their declaration.
pub open spec fn all_services() -> Seq<Service> {
    seq![
        Service::ChangeToAutonomous,
        Service::SetEngage,
        Service::SetEmergency,
        Service::ExternalEmergencyStop,
        Service::ClearExternalEmergencyStop,
        Service::ConfigLogger,
        Service::SetStop,
        Service::ControlModeRequest,
        Service::ChangeToStop,
        Service::ChangeToLocal,
        Service::ChangeToRemote,
        Service::EnableAutowareControl,
        Service::DisableAutowareControl,
        Service::OperateComfortableStop,
        Service::OperateEmergencyStop,
        Service::OperatePullOver,
        Service::InterfaceVersion,
        Service::ResetDiagnostics,
        Service::Shutdown,
        Service::ResetDiagnosticsGraph,
        Service::SetInitializing,
        Service::ChangeAutowareControl,
    ]
}

/// The service of a given name, if there is one.
pub open spec fn service_named(name: Seq<char>) -> Option<Service> {
    if exists|x: Service| (#[trigger] x.name())@ == name {
        Some(choose|x: Service| (#[trigger] x.name())@ == name)
    } else {
        None
    }
}

proof fn lemma_all_services_are_listed(x: Service)
    ensures
        all_services().contains(x),
{
    let all = all_services();
    match x {
        Service::ChangeToAutonomous => {
            assert(all[0] == x);
        },
        Service::SetEngage => {
            assert(all[1] == x);
        },
        Service::SetEmergency => {
            assert(all[2] == x);
        },
        Service::ExternalEmergencyStop => {
            assert(all[3] == x);
        },
        Service::ClearExternalEmergencyStop => {
            assert(all[4] == x);
        },
        Service::ConfigLogger => {
            assert(all[5] == x);
        },
        Service::SetStop => {
            assert(all[6] == x);
        },
        Service::ControlModeRequest => {
            assert(all[7] == x);
        },
        Service::ChangeToStop => {
            assert(all[8] == x);
        },
        Service::ChangeToLocal => {
            assert(all[9] == x);
        },
        Service::ChangeToRemote => {
            assert(all[10] == x);
        },
        Service::EnableAutowareControl => {
            assert(all[11] == x);
        },
        Service::DisableAutowareControl => {
            assert(all[12] == x);
        },
        Service::OperateComfortableStop => {
            assert(all[13] == x);
        },
        Service::OperateEmergencyStop => {
            assert(all[14] == x);
        },
        Service::OperatePullOver => {
            assert(all[15] == x);
        },
        Service::InterfaceVersion => {
            assert(all[16] == x);
        },
        Service::ResetDiagnostics => {
            assert(all[17] == x);
        },
        Service::Shutdown => {
            assert(all[18] == x);
        },
        Service::ResetDiagnosticsGraph => {
            assert(all[19] == x);
        },
        Service::SetInitializing => {
            assert(all[20] == x);
        },
        Service::ChangeAutowareControl => {
            assert(all[21] == x);
        },
    }
}

/// A service is found by its name.
pub proof fn law_service_is_found_by_name(x: Service)
    ensures
        service_named(x.name()@) == Some(x),
{
    let found = choose|y: Service| (#[trigger] y.name())@ == x.name()@;
    law_service_names_differ(found, x);
}

impl Service {
    /// All services, in the order of their declaration.
    pub fn all() -> (r: Vec<Service>)
        ensures
            r@ == all_services(),
    {
        vec![
            Service::ChangeToAutonomous,
            Service::SetEngage,
            Service::SetEmergency,
            Service::ExternalEmergencyStop,
            Service::ClearExternalEmergencyStop,
            Service::ConfigLogger,
            Service::SetStop,
            Service::ControlModeRequest,
            Service::ChangeToStop,
            Service::ChangeToLocal,
            Service::ChangeToRemote,
            Service::EnableAutowareControl,
            Service::DisableAutowareControl,
            Service::OperateComfortableStop,
            Service::OperateEmergencyStop,
            Service::OperatePullOver,
            Service::InterfaceVersion,
            Service::ResetDiagnostics,
            Service::Shutdown,
            Service::ResetDiagnosticsGraph,
            Service::SetInitializing,
            Service::ChangeAutowareControl,
        ]
    }

    /// Finds a service by its name.
    pub fn from_name(name: &str) -> (r: Option<Service>)
        ensures
            r == service_named(name@),
    {
        let all = Service::all();
        let mut i: usize = 0;
        while i < all.len()
            invariant
                i <= all.len(),
                all@ == all_services(),
                forall|k: int| 0 <= k < i ==> (#[trigger] all@[k]).name()@ != name@,
            decreases all.len() - i,
        {
            let x = all[i];
            if same(x.name(), name) {
                proof {
                    law_service_is_found_by_name(x);
                }
                return Some(x);
            }
            i += 1;
        }
        proof {
            assert forall|x: Service| (#[trigger] x.name())@ != name@ by {
                lemma_all_services_are_listed(x);
            }
        }
        None
    }
}

/// Where each kind of message comes from.
pub proof fn law_sources_are_known_by_name()
    ensures
        source_named("/vehicle/status/velocity_status"@) == Some(Source::VelocityStatus),
        Source::VelocityStatus.interface() == SourceInterface::VelocityReport,
        source_named("/api/system/heartbeat"@) == Some(Source::Heartbeat),
        Source::Heartbeat.interface() == SourceInterface::Heartbeat,
        source_named("/control/trajectory_follower/control_cmd"@) == Some(Source::FollowerControl),
        Source::FollowerControl.interface() == SourceInterface::Control,
        source_named("/autoware/state"@) == Some(Source::AutowareState),
        Source::AutowareState.interface() == SourceInterface::AutowareState,
        source_named("/vehicle/status/gear_status"@) == Some(Source::GearStatus),
        Source::GearStatus.interface() == SourceInterface::GearReport,
        source_named("/planning/scenario_planning/trajectory"@) == Some(Source::Trajectory),
        Source::Trajectory.interface() == SourceInterface::Trajectory,
        source_named("/localization/kinematic_state"@) == Some(Source::KinematicState),
        Source::KinematicState.interface() == SourceInterface::Odometry,
        source_named("/vehicle/status/steering_status"@) == Some(Source::SteeringStatus),
        Source::SteeringStatus.interface() == SourceInterface::SteeringReport,
        source_named("/localization/acceleration"@) == Some(Source::Acceleration),
        Source::Acceleration.interface() == SourceInterface::AccelWithCovarianceStamped,
{
    law_source_is_found_by_name(Source::VelocityStatus);
    law_source_is_found_by_name(Source::Heartbeat);
    law_source_is_found_by_name(Source::FollowerControl);
    law_source_is_found_by_name(Source::AutowareState);
    law_source_is_found_by_name(Source::GearStatus);
    law_source_is_found_by_name(Source::Trajectory);
    law_source_is_found_by_name(Source::KinematicState);
    law_source_is_found_by_name(Source::SteeringStatus);
    law_source_is_found_by_name(Source::Acceleration);
}

/// Every build has the core. The smallest has nothing else, the one for microcontrollers all
/// but monitoring, the trajectory follower and parameter services, and the full one everything.
/// Apart from the core, each component is there exactly if its own flag is set.
pub proof fn law_builds_have_their_components(f: Features, c: Component)
    ensures
        f.has(Component::Core),
        Features::core_only().has(c) <==> c == Component::Core,
        !Features::core_only().param_services,
        Features::embedded().has(c) <==> c != Component::Monitoring && c != Component::Controller,
        !Features::embedded().param_services,
        Features::full().has(c),
        Features::full().param_services,
        f.has(Component::Mrm) <==> f.mrm,
        f.has(Component::CommandGate) <==> f.command_gate,
        f.has(Component::Validator) <==> f.validator,
        f.has(Component::OperationMode) <==> f.operation_mode,
        f.has(Component::Engagement) <==> f.engagement,
        f.has(Component::Stubs) <==> f.stubs,
        f.has(Component::Monitoring) <==> f.monitoring,
        f.has(Component::Controller) <==> f.controller,
{
}

} // verus!
