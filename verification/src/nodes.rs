//! The island as a set of nodes that share it: what each node declares and how it reacts to
//! its callbacks.
//!
//! One node, the command gate, runs the control chain on its timer. The others publish from
//! what the last pass gave, on timers of their own.

use vstd::prelude::*;

use crate::chain::{ChainOutputs, CONTROL_PERIOD_MS};
use crate::endpoints::{
    law_service_is_found_by_name, service_named, Service, Source, Topic,
};
use crate::inputs::{chore, law_what_is_left_to_do, Chore, Input};
use crate::island::{algorithm_setup, init_island, AlgorithmSetup, SafetyIsland};
use crate::messages::{Message, Response};
use crate::params::{default_params, default_settings};
use crate::publish::{content, contents, message_for, Publication};
use crate::services::response;
use crate::text::same;

verus! {

// ---------------------------------------------------------------------------
// The shared island
// ---------------------------------------------------------------------------

/// Makes sure that there is an island to share. The first node to register makes it, from
/// the default settings; then the algorithms have to be set up. Later nodes find it.
pub fn ensure_island_default(
    island: &mut Option<SafetyIsland>,
    controller: bool,
    trajectory_capacity: usize,
) -> (r: Option<AlgorithmSetup>)
    ensures
        match *old(island) {
            Some(_) => *final(island) == *old(island) && r is None,
            None => {
                &&& r == Some(algorithm_setup(default_settings(controller)))
                &&& *final(island) matches Some(made)
                &&& made.wf()
                &&& made.is_initial()
                &&& made.controller == controller
                &&& made.trajectory_capacity == trajectory_capacity
            },
        },
{
    if island.is_some() {
        return None;
    }
    Some(init_island(island, default_params(controller), trajectory_capacity))
}

// ---------------------------------------------------------------------------
// Callbacks
// ---------------------------------------------------------------------------

/// What calls a node back.
#[derive(Clone, Copy, Debug, PartialEq, Eq, Structural)]
pub enum Callback {
    /// The node's timer.
    Tick,
    /// A message from a source.
    Message(Source),
    /// A request.
    Request(Service),
}

/// Name of the callback for messages from a source.
#[verifier::allow_in_spec]
pub fn message_callback_name(source: Source) -> &'static str
    returns
        (match source {
            Source::VelocityStatus => "on_velocity",
            Source::Heartbeat => "on_heartbeat",
            Source::FollowerControl => "on_control",
            Source::AutowareState => "on_state",
            Source::GearStatus => "on_gear",
            Source::Trajectory => "on_trajectory",
            Source::KinematicState => "on_odometry",
            Source::SteeringStatus => "on_steering",
            Source::Acceleration => "on_accel",
        }),
{
    match source {
        Source::VelocityStatus => "on_velocity",
        Source::Heartbeat => "on_heartbeat",
        Source::FollowerControl => "on_control",
        Source::AutowareState => "on_state",
        Source::GearStatus => "on_gear",
        Source::Trajectory => "on_trajectory",
        Source::KinematicState => "on_odometry",
        Source::SteeringStatus => "on_steering",
        Source::Acceleration => "on_accel",
    }
}

impl Callback {
    /// Name under which the node is called back.
    #[verifier::allow_in_spec]
    pub fn name(self) -> &'static str
        returns
            (match self {
                Callback::Tick => "on_tick",
                Callback::Message(source) => message_callback_name(source),
                Callback::Request(service) => service.name(),
            }),
    {
        match self {
            Callback::Tick => "on_tick",
            Callback::Message(source) => message_callback_name(source),
            Callback::Request(service) => service.name(),
        }
    }

    /// Finds a callback by its name.
    pub fn from_name(name: &str) -> (r: Option<Callback>)
        ensures
            r == callback_named(name@),
    {
        if same(name, "on_tick") {
            proof {
                law_callback_is_found_by_name(Callback::Tick);
            }
            return Some(Callback::Tick);
        }
        if same(name, "on_velocity") {
            proof {
                law_callback_is_found_by_name(Callback::Message(Source::VelocityStatus));
            }
            return Some(Callback::Message(Source::VelocityStatus));
        }
        if same(name, "on_heartbeat") {
            proof {
                law_callback_is_found_by_name(Callback::Message(Source::Heartbeat));
            }
            return Some(Callback::Message(Source::Heartbeat));
        }
        if same(name, "on_control") {
            proof {
                law_callback_is_found_by_name(Callback::Message(Source::FollowerControl));
            }
            return Some(Callback::Message(Source::FollowerControl));
        }
        if same(name, "on_state") {
            proof {
                law_callback_is_found_by_name(Callback::Message(Source::AutowareState));
            }
            return Some(Callback::Message(Source::AutowareState));
        }
        if same(name, "on_gear") {
            proof {
                law_callback_is_found_by_name(Callback::Message(Source::GearStatus));
            }
            return Some(Callback::Message(Source::GearStatus));
        }
        if same(name, "on_trajectory") {
            proof {
                law_callback_is_found_by_name(Callback::Message(Source::Trajectory));
            }
            return Some(Callback::Message(Source::Trajectory));
        }
        if same(name, "on_odometry") {
            proof {
                law_callback_is_found_by_name(Callback::Message(Source::KinematicState));
            }
            return Some(Callback::Message(Source::KinematicState));
        }
        if same(name, "on_steering") {
            proof {
                law_callback_is_found_by_name(Callback::Message(Source::SteeringStatus));
            }
            return Some(Callback::Message(Source::SteeringStatus));
        }
        if same(name, "on_accel") {
            proof {
                law_callback_is_found_by_name(Callback::Message(Source::Acceleration));
            }
            return Some(Callback::Message(Source::Acceleration));
        }
        match Service::from_name(name) {
            Some(service) => {
                proof {
                    lemma_found_service_has_name(name@);
                    law_callback_is_found_by_name(Callback::Request(service));
                }
                Some(Callback::Request(service))
            },
            None => {
                proof {
                    assert forall|c: Callback| (#[trigger] c.name())@ != name@ by {
                        match c {
                            Callback::Tick => {},
                            Callback::Message(source) => {},
                            Callback::Request(service) => {
                                law_service_is_found_by_name(service);
                            },
                        }
                    }
                }
                None
            },
        }
    }
}

/// The callback of a given name, if there is one.
pub open spec fn callback_named(name: Seq<char>) -> Option<Callback> {
    if exists|c: Callback| (#[trigger] c.name())@ == name {
        Some(choose|c: Callback| (#[trigger] c.name())@ == name)
    } else {
        None
    }
}

proof fn lemma_found_service_has_name(name: Seq<char>)
    ensures
        service_named(name) matches Some(service) ==> service.name()@ == name,
{
}

/// Names of requests are paths, those of the others are not.
proof fn lemma_callback_name_start(c: Callback)
    ensures
        c.name()@.len() > 0,
        (c.name()@[0] == '/') == (c is Request),
{
    match c {
        Callback::Tick => {
            reveal_strlit("on_tick");
        },
        Callback::Message(source) => {
            reveal_strlit("on_velocity");
            reveal_strlit("on_heartbeat");
            reveal_strlit("on_control");
            reveal_strlit("on_state");
            reveal_strlit("on_gear");
            reveal_strlit("on_trajectory");
            reveal_strlit("on_odometry");
            reveal_strlit("on_steering");
            reveal_strlit("on_accel");
        },
        Callback::Request(service) => {
            reveal_strlit("/api/operation_mode/change_to_autonomous");
            reveal_strlit("/api/autoware/set/engage");
            reveal_strlit("/api/autoware/set/emergency");
            reveal_strlit("/control/vehicle_cmd_gate/external_emergency_stop");
            reveal_strlit("/control/vehicle_cmd_gate/clear_external_emergency_stop");
            reveal_strlit("/control/vehicle_cmd_gate/config_logger");
            reveal_strlit("/control/vehicle_cmd_gate/set_stop");
            reveal_strlit("/control/control_mode_request");
            reveal_strlit("/api/operation_mode/change_to_stop");
            reveal_strlit("/api/operation_mode/change_to_local");
            reveal_strlit("/api/operation_mode/change_to_remote");
            reveal_strlit("/api/operation_mode/enable_autoware_control");
            reveal_strlit("/api/operation_mode/disable_autoware_control");
            reveal_strlit("/system/mrm/comfortable_stop/operate");
            reveal_strlit("/system/mrm/emergency_stop/operate");
            reveal_strlit("/system/mrm/pull_over_manager/operate");
            reveal_strlit("/api/interface/version");
            reveal_strlit("/api/system/diagnostics/reset");
            reveal_strlit("/autoware/shutdown");
            reveal_strlit("/diagnostics_graph/reset");
            reveal_strlit("/system/aggregator/set_initializing");
            reveal_strlit("/system/operation_mode/change_autoware_control");
        },
    }
}

/// Length and telling characters of the names that are not paths.
spec fn plain_name_marks(c: Callback) -> (int, char) {
    match c {
        Callback::Tick => (7, 't'),
        Callback::Message(source) => match source {
            Source::VelocityStatus => (11, 'v'),
            Source::Heartbeat => (12, 'h'),
            Source::FollowerControl => (10, 'c'),
            Source::AutowareState => (8, 's'),
            Source::GearStatus => (7, 'g'),
            Source::Trajectory => (13, 't'),
            Source::KinematicState => (11, 'o'),
            Source::SteeringStatus => (11, 's'),
            Source::Acceleration => (8, 'a'),
        },
        Callback::Request(_) => (0, ' '),
    }
}

proof fn lemma_plain_name_marks(c: Callback)
    requires
        !(c is Request),
    ensures
        c.name()@.len() == plain_name_marks(c).0,
        c.name()@[3] == plain_name_marks(c).1,
{
    match c {
        Callback::Tick => {
            reveal_strlit("on_tick");
        },
        Callback::Message(source) => {
            reveal_strlit("on_velocity");
            reveal_strlit("on_heartbeat");
            reveal_strlit("on_control");
            reveal_strlit("on_state");
            reveal_strlit("on_gear");
            reveal_strlit("on_trajectory");
            reveal_strlit("on_odometry");
            reveal_strlit("on_steering");
            reveal_strlit("on_accel");
        },
        Callback::Request(_) => {},
    }
}

/// No two callbacks have the same name.
pub proof fn law_callback_names_differ(a: Callback, b: Callback)
    requires
        a.name()@ == b.name()@,
    ensures
        a == b,
{
    lemma_callback_name_start(a);
    lemma_callback_name_start(b);
    if a is Request {
        law_service_is_found_by_name(a->Request_0);
        law_service_is_found_by_name(b->Request_0);
    } else {
        lemma_plain_name_marks(a);
        lemma_plain_name_marks(b);
    }
}

/// A callback is found by its name.
pub proof fn law_callback_is_found_by_name(c: Callback)
    ensures
        callback_named(c.name()@) == Some(c),
{
    let found = choose|d: Callback| (#[trigger] d.name())@ == c.name()@;
    law_callback_names_differ(found, c);
}

// ---------------------------------------------------------------------------
// What each node declares
// ---------------------------------------------------------------------------

/// A node of the island.
#[derive(Clone, Copy, Debug, PartialEq, Eq, Structural)]
pub enum NodeId {
    VelocityConverter,
    MrmHandler,
    EmergencyStopOperator,
    VehicleCmdGate,
    ShiftDecider,
    ControlValidator,
    OperationMode,
    DefaultAdapi,
    Controller,
    SystemMonitor,
}

/// Something that a node declares.
#[derive(Clone, Copy, Debug, PartialEq, Eq, Structural)]
pub enum Declaration {
    /// A publisher.
    Publisher(Topic),
    /// A subscription, with the callback for messages from that source.
    Subscription { source: Source },
    /// The callback reads what comes on the subscription.
    Reads { source: Source },
    /// A service server.
    Server(Service),
    /// A timer, with the callback for ticks.
    Timer { period_ms: u64 },
    /// The callback for ticks publishes on the topic.
    TickPublishes { topic: Topic },
}

/// How a node registers.
pub struct NodePlan {
    pub name: &'static str,
    pub namespace: Option<&'static str>,
    pub declarations: Vec<Declaration>,
    /// What the log says once all is declared.
    pub announcement: Option<&'static str>,
}

impl NodeId {
    /// Name of the node.
    #[verifier::allow_in_spec]
    pub fn name(self) -> &'static str
        returns
            (match self {
                NodeId::VelocityConverter => "vehicle_velocity_converter",
                NodeId::MrmHandler => "mrm_handler",
                NodeId::EmergencyStopOperator => "mrm_emergency_stop_operator",
                NodeId::VehicleCmdGate => "vehicle_cmd_gate",
                NodeId::ShiftDecider => "autoware_shift_decider",
                NodeId::ControlValidator => "control_validator",
                NodeId::OperationMode => "autoware_operation_mode_transition_manager",
                NodeId::DefaultAdapi => "default_adapi",
                NodeId::Controller => "controller_node_exe",
                NodeId::SystemMonitor => "system_monitor",
            }),
    {
        match self {
            NodeId::VelocityConverter => "vehicle_velocity_converter",
            NodeId::MrmHandler => "mrm_handler",
            NodeId::EmergencyStopOperator => "mrm_emergency_stop_operator",
            NodeId::VehicleCmdGate => "vehicle_cmd_gate",
            NodeId::ShiftDecider => "autoware_shift_decider",
            NodeId::ControlValidator => "control_validator",
            NodeId::OperationMode => "autoware_operation_mode_transition_manager",
            NodeId::DefaultAdapi => "default_adapi",
            NodeId::Controller => "controller_node_exe",
            NodeId::SystemMonitor => "system_monitor",
        }
    }

    /// Namespace of the node.
    #[verifier::allow_in_spec]
    pub fn namespace(self) -> Option<&'static str>
        returns
            (match self {
                NodeId::VelocityConverter => None,
                NodeId::MrmHandler => Some("/system"),
                NodeId::EmergencyStopOperator => Some("/system"),
                NodeId::VehicleCmdGate => Some("/control"),
                NodeId::ShiftDecider => Some("/control"),
                NodeId::ControlValidator => Some("/control"),
                NodeId::OperationMode => Some("/control"),
                NodeId::DefaultAdapi => Some("/adapi"),
                NodeId::Controller => Some("/control/trajectory_follower"),
                NodeId::SystemMonitor => Some("/system"),
            }),
    {
        match self {
            NodeId::VelocityConverter => None,
            NodeId::MrmHandler => Some("/system"),
            NodeId::EmergencyStopOperator => Some("/system"),
            NodeId::VehicleCmdGate => Some("/control"),
            NodeId::ShiftDecider => Some("/control"),
            NodeId::ControlValidator => Some("/control"),
            NodeId::OperationMode => Some("/control"),
            NodeId::DefaultAdapi => Some("/adapi"),
            NodeId::Controller => Some("/control/trajectory_follower"),
            NodeId::SystemMonitor => Some("/system"),
        }
    }
}

/// What a node declares, in order.
pub open spec fn declarations(n: NodeId) -> Seq<Declaration> {
    match n {
        NodeId::VelocityConverter => seq![
            Declaration::Subscription { source: Source::VelocityStatus },
            Declaration::Reads { source: Source::VelocityStatus },
        ],
        NodeId::MrmHandler => seq![
            Declaration::Subscription { source: Source::Heartbeat },
            Declaration::Reads { source: Source::Heartbeat },
            Declaration::Publisher(Topic::MrmState),
            Declaration::Publisher(Topic::EmergencyGearCmd),
            Declaration::Publisher(Topic::EmergencyHazardLightsCmd),
            Declaration::Publisher(Topic::EmergencyTurnIndicatorsCmd),
            Declaration::Publisher(Topic::EmergencyHolding),
            Declaration::Timer { period_ms: CONTROL_PERIOD_MS },
            Declaration::TickPublishes { topic: Topic::MrmState },
            Declaration::TickPublishes { topic: Topic::EmergencyGearCmd },
            Declaration::TickPublishes { topic: Topic::EmergencyHazardLightsCmd },
            Declaration::TickPublishes { topic: Topic::EmergencyTurnIndicatorsCmd },
            Declaration::TickPublishes { topic: Topic::EmergencyHolding },
        ],
        NodeId::EmergencyStopOperator => seq![
            Declaration::Publisher(Topic::EmergencyStopStatus),
            Declaration::Server(Service::OperateEmergencyStop),
            Declaration::Timer { period_ms: CONTROL_PERIOD_MS },
        ],
        NodeId::VehicleCmdGate => seq![
            Declaration::Subscription { source: Source::FollowerControl },
            Declaration::Reads { source: Source::FollowerControl },
            Declaration::Publisher(Topic::ControlCmd),
            Declaration::Publisher(Topic::GearCmd),
            Declaration::Publisher(Topic::TurnIndicatorsCmd),
            Declaration::Publisher(Topic::HazardLightsCmd),
            Declaration::Publisher(Topic::EmergencyCmd),
            Declaration::Publisher(Topic::GateModeCmd),
            Declaration::Publisher(Topic::CurrentGateMode),
            Declaration::Publisher(Topic::GateIsStopped),
            Declaration::Publisher(Topic::GateOperationMode),
            Declaration::Publisher(Topic::GateIsPaused),
            Declaration::Publisher(Topic::GateIsStartRequested),
            Declaration::Publisher(Topic::FilterActivated),
            Declaration::Publisher(Topic::FilterFlag),
            Declaration::Publisher(Topic::FilterMarker),
            Declaration::Publisher(Topic::FilterMarkerRaw),
            Declaration::Publisher(Topic::ControlPublishedTime),
            Declaration::Server(Service::ExternalEmergencyStop),
            Declaration::Server(Service::ClearExternalEmergencyStop),
            Declaration::Server(Service::ConfigLogger),
            Declaration::Server(Service::SetStop),
            Declaration::Timer { period_ms: CONTROL_PERIOD_MS },
        ],
        NodeId::ShiftDecider => seq![
            Declaration::Subscription { source: Source::AutowareState },
            Declaration::Reads { source: Source::AutowareState },
            Declaration::Subscription { source: Source::GearStatus },
            Declaration::Reads { source: Source::GearStatus },
            Declaration::Publisher(Topic::ShiftDeciderGearCmd),
            Declaration::Timer { period_ms: CONTROL_PERIOD_MS },
        ],
        NodeId::ControlValidator => seq![
            Declaration::Publisher(Topic::ValidatorDebugMarker),
            Declaration::Publisher(Topic::ValidatorOutputMarkers),
            Declaration::Publisher(Topic::ValidationStatus),
            Declaration::Publisher(Topic::ValidatorVirtualWall),
            Declaration::Timer { period_ms: CONTROL_PERIOD_MS },
        ],
        NodeId::OperationMode => seq![
            Declaration::Publisher(Topic::ApiOperationMode),
            Declaration::Publisher(Topic::SystemOperationMode),
            Declaration::Publisher(Topic::TransitionDebug),
            Declaration::Publisher(Topic::AutonomousAvailable),
            Declaration::Server(Service::ChangeToAutonomous),
            Declaration::Server(Service::ChangeToStop),
            Declaration::Server(Service::ChangeToLocal),
            Declaration::Server(Service::ChangeToRemote),
            Declaration::Server(Service::EnableAutowareControl),
            Declaration::Server(Service::DisableAutowareControl),
            Declaration::Server(Service::ControlModeRequest),
            Declaration::Server(Service::ChangeAutowareControl),
            Declaration::Timer { period_ms: CONTROL_PERIOD_MS },
        ],
        NodeId::DefaultAdapi => seq![
            Declaration::Publisher(Topic::ApiEngage),
            Declaration::Publisher(Topic::AutowareEngage),
            Declaration::Publisher(Topic::AutowareState),
            Declaration::Publisher(Topic::ApiEmergency),
            Declaration::Server(Service::SetEngage),
            Declaration::Server(Service::SetEmergency),
            Declaration::Server(Service::InterfaceVersion),
            Declaration::Server(Service::ResetDiagnostics),
            Declaration::Server(Service::Shutdown),
            Declaration::Server(Service::ResetDiagnosticsGraph),
            Declaration::Server(Service::SetInitializing),
            Declaration::Timer { period_ms: CONTROL_PERIOD_MS },
        ],
        NodeId::Controller => seq![
            Declaration::Subscription { source: Source::Trajectory },
            Declaration::Reads { source: Source::Trajectory },
            Declaration::Subscription { source: Source::KinematicState },
            Declaration::Reads { source: Source::KinematicState },
            Declaration::Subscription { source: Source::SteeringStatus },
            Declaration::Reads { source: Source::SteeringStatus },
            Declaration::Subscription { source: Source::Acceleration },
            Declaration::Reads { source: Source::Acceleration },
        ],
        NodeId::SystemMonitor => seq![
            Declaration::Publisher(Topic::DiagnosticsStatus),
            Declaration::Publisher(Topic::DiagnosticsStruct),
            Declaration::Publisher(Topic::DiagnosticsUnknowns),
            Declaration::Publisher(Topic::CommandModeAvailability),
            Declaration::Publisher(Topic::LaunchControl),
            Declaration::Publisher(Topic::LaunchLocalization),
            Declaration::Publisher(Topic::LaunchMap),
            Declaration::Publisher(Topic::LaunchPerception),
            Declaration::Publisher(Topic::LaunchPlanning),
            Declaration::Publisher(Topic::LaunchSensing),
            Declaration::Publisher(Topic::LaunchSystem),
            Declaration::Publisher(Topic::LaunchVehicle),
            Declaration::Publisher(Topic::HazardStatus),
            Declaration::Publisher(Topic::OperationModeAvailability),
            Declaration::Timer { period_ms: CONTROL_PERIOD_MS },
        ],
    }
}

/// The topics that a node publishes on its ticks, in order.
pub open spec fn tick_topics(n: NodeId) -> Seq<Topic> {
    match n {
        NodeId::MrmHandler => seq![
            Topic::MrmState,
            Topic::EmergencyGearCmd,
            Topic::EmergencyHazardLightsCmd,
            Topic::EmergencyTurnIndicatorsCmd,
            Topic::EmergencyHolding,
        ],
        NodeId::EmergencyStopOperator => seq![
            Topic::EmergencyStopStatus,
        ],
        NodeId::VehicleCmdGate => seq![
            Topic::ControlCmd,
            Topic::GearCmd,
            Topic::TurnIndicatorsCmd,
            Topic::HazardLightsCmd,
            Topic::EmergencyCmd,
            Topic::GateModeCmd,
            Topic::CurrentGateMode,
            Topic::GateIsStopped,
            Topic::GateOperationMode,
            Topic::GateIsPaused,
            Topic::GateIsStartRequested,
            Topic::FilterActivated,
            Topic::FilterFlag,
            Topic::FilterMarker,
            Topic::FilterMarkerRaw,
            Topic::ControlPublishedTime,
        ],
        NodeId::ShiftDecider => seq![
            Topic::ShiftDeciderGearCmd,
        ],
        NodeId::ControlValidator => seq![
            Topic::ValidatorDebugMarker,
            Topic::ValidatorOutputMarkers,
            Topic::ValidatorVirtualWall,
            Topic::ValidationStatus,
        ],
        NodeId::OperationMode => seq![
            Topic::ApiOperationMode,
            Topic::SystemOperationMode,
            Topic::AutonomousAvailable,
            Topic::TransitionDebug,
        ],
        NodeId::DefaultAdapi => seq![
            Topic::ApiEngage,
            Topic::AutowareEngage,
            Topic::AutowareState,
            Topic::ApiEmergency,
        ],
        NodeId::SystemMonitor => seq![
            Topic::DiagnosticsStatus,
            Topic::DiagnosticsStruct,
            Topic::DiagnosticsUnknowns,
            Topic::CommandModeAvailability,
            Topic::LaunchControl,
            Topic::LaunchLocalization,
            Topic::LaunchMap,
            Topic::LaunchPerception,
            Topic::LaunchPlanning,
            Topic::LaunchSensing,
            Topic::LaunchSystem,
            Topic::LaunchVehicle,
            Topic::HazardStatus,
            Topic::OperationModeAvailability,
        ],
        NodeId::VelocityConverter | NodeId::Controller => seq![],
    }
}

/// The node that listens to a source.
pub open spec fn listener_of(source: Source) -> NodeId {
    match source {
        Source::VelocityStatus => NodeId::VelocityConverter,
        Source::Heartbeat => NodeId::MrmHandler,
        Source::FollowerControl => NodeId::VehicleCmdGate,
        Source::AutowareState => NodeId::ShiftDecider,
        Source::GearStatus => NodeId::ShiftDecider,
        Source::Trajectory => NodeId::Controller,
        Source::KinematicState => NodeId::Controller,
        Source::SteeringStatus => NodeId::Controller,
        Source::Acceleration => NodeId::Controller,
    }
}

/// The node that serves a service, if there is one.
pub open spec fn server_of(service: Service) -> Option<NodeId> {
    match service {
        Service::ChangeToAutonomous => Some(NodeId::OperationMode),
        Service::SetEngage => Some(NodeId::DefaultAdapi),
        Service::SetEmergency => Some(NodeId::DefaultAdapi),
        Service::ExternalEmergencyStop => Some(NodeId::VehicleCmdGate),
        Service::ClearExternalEmergencyStop => Some(NodeId::VehicleCmdGate),
        Service::ConfigLogger => Some(NodeId::VehicleCmdGate),
        Service::SetStop => Some(NodeId::VehicleCmdGate),
        Service::ControlModeRequest => Some(NodeId::OperationMode),
        Service::ChangeToStop => Some(NodeId::OperationMode),
        Service::ChangeToLocal => Some(NodeId::OperationMode),
        Service::ChangeToRemote => Some(NodeId::OperationMode),
        Service::EnableAutowareControl => Some(NodeId::OperationMode),
        Service::DisableAutowareControl => Some(NodeId::OperationMode),
        Service::OperateComfortableStop => None,
        Service::OperateEmergencyStop => Some(NodeId::EmergencyStopOperator),
        Service::OperatePullOver => None,
        Service::InterfaceVersion => Some(NodeId::DefaultAdapi),
        Service::ResetDiagnostics => Some(NodeId::DefaultAdapi),
        Service::Shutdown => Some(NodeId::DefaultAdapi),
        Service::ResetDiagnosticsGraph => Some(NodeId::DefaultAdapi),
        Service::SetInitializing => Some(NodeId::DefaultAdapi),
        Service::ChangeAutowareControl => Some(NodeId::OperationMode),
    }
}

/// The node that publishes on a topic, if there is one.
pub open spec fn publisher_of(topic: Topic) -> Option<NodeId> {
    match topic {
        Topic::MrmState => Some(NodeId::MrmHandler),
        Topic::HazardLightsCmd => Some(NodeId::VehicleCmdGate),
        Topic::GearCmd => Some(NodeId::VehicleCmdGate),
        Topic::ControlCmd => Some(NodeId::VehicleCmdGate),
        Topic::TurnIndicatorsCmd => Some(NodeId::VehicleCmdGate),
        Topic::ApiOperationMode => Some(NodeId::OperationMode),
        Topic::EmergencyStopStatus => Some(NodeId::EmergencyStopOperator),
        Topic::ComfortableStopStatus => None,
        Topic::PullOverStatus => None,
        Topic::EmergencyGearCmd => Some(NodeId::MrmHandler),
        Topic::EmergencyHazardLightsCmd => Some(NodeId::MrmHandler),
        Topic::EmergencyTurnIndicatorsCmd => Some(NodeId::MrmHandler),
        Topic::EmergencyHolding => Some(NodeId::MrmHandler),
        Topic::EmergencyCmd => Some(NodeId::VehicleCmdGate),
        Topic::GateModeCmd => Some(NodeId::VehicleCmdGate),
        Topic::ShiftDeciderGearCmd => Some(NodeId::ShiftDecider),
        Topic::GateIsStopped => Some(NodeId::VehicleCmdGate),
        Topic::GateOperationMode => Some(NodeId::VehicleCmdGate),
        Topic::SystemOperationMode => Some(NodeId::OperationMode),
        Topic::GateIsPaused => Some(NodeId::VehicleCmdGate),
        Topic::GateIsStartRequested => Some(NodeId::VehicleCmdGate),
        Topic::CurrentGateMode => Some(NodeId::VehicleCmdGate),
        Topic::FilterActivated => Some(NodeId::VehicleCmdGate),
        Topic::FilterFlag => Some(NodeId::VehicleCmdGate),
        Topic::FilterMarker => Some(NodeId::VehicleCmdGate),
        Topic::FilterMarkerRaw => Some(NodeId::VehicleCmdGate),
        Topic::ValidatorDebugMarker => Some(NodeId::ControlValidator),
        Topic::ValidatorOutputMarkers => Some(NodeId::ControlValidator),
        Topic::ValidationStatus => Some(NodeId::ControlValidator),
        Topic::ValidatorVirtualWall => Some(NodeId::ControlValidator),
        Topic::TransitionDebug => Some(NodeId::OperationMode),
        Topic::AutonomousAvailable => Some(NodeId::OperationMode),
        Topic::ControlPublishedTime => Some(NodeId::VehicleCmdGate),
        Topic::ApiEngage => Some(NodeId::DefaultAdapi),
        Topic::AutowareEngage => Some(NodeId::DefaultAdapi),
        Topic::AutowareState => Some(NodeId::DefaultAdapi),
        Topic::ApiEmergency => Some(NodeId::DefaultAdapi),
        Topic::DiagnosticsStatus => Some(NodeId::SystemMonitor),
        Topic::DiagnosticsStruct => Some(NodeId::SystemMonitor),
        Topic::DiagnosticsUnknowns => Some(NodeId::SystemMonitor),
        Topic::CommandModeAvailability => Some(NodeId::SystemMonitor),
        Topic::LaunchControl => Some(NodeId::SystemMonitor),
        Topic::LaunchLocalization => Some(NodeId::SystemMonitor),
        Topic::LaunchMap => Some(NodeId::SystemMonitor),
        Topic::LaunchPerception => Some(NodeId::SystemMonitor),
        Topic::LaunchPlanning => Some(NodeId::SystemMonitor),
        Topic::LaunchSensing => Some(NodeId::SystemMonitor),
        Topic::LaunchSystem => Some(NodeId::SystemMonitor),
        Topic::LaunchVehicle => Some(NodeId::SystemMonitor),
        Topic::HazardStatus => Some(NodeId::SystemMonitor),
        Topic::OperationModeAvailability => Some(NodeId::SystemMonitor),
    }
}

spec fn publisher_place(topic: Topic) -> int {
    match topic {
        Topic::MrmState => 2,
        Topic::EmergencyGearCmd => 3,
        Topic::EmergencyHazardLightsCmd => 4,
        Topic::EmergencyTurnIndicatorsCmd => 5,
        Topic::EmergencyHolding => 6,
        Topic::EmergencyStopStatus => 0,
        Topic::ControlCmd => 2,
        Topic::GearCmd => 3,
        Topic::TurnIndicatorsCmd => 4,
        Topic::HazardLightsCmd => 5,
        Topic::EmergencyCmd => 6,
        Topic::GateModeCmd => 7,
        Topic::CurrentGateMode => 8,
        Topic::GateIsStopped => 9,
        Topic::GateOperationMode => 10,
        Topic::GateIsPaused => 11,
        Topic::GateIsStartRequested => 12,
        Topic::FilterActivated => 13,
        Topic::FilterFlag => 14,
        Topic::FilterMarker => 15,
        Topic::FilterMarkerRaw => 16,
        Topic::ControlPublishedTime => 17,
        Topic::ShiftDeciderGearCmd => 4,
        Topic::ValidatorDebugMarker => 0,
        Topic::ValidatorOutputMarkers => 1,
        Topic::ValidationStatus => 2,
        Topic::ValidatorVirtualWall => 3,
        Topic::ApiOperationMode => 0,
        Topic::SystemOperationMode => 1,
        Topic::TransitionDebug => 2,
        Topic::AutonomousAvailable => 3,
        Topic::ApiEngage => 0,
        Topic::AutowareEngage => 1,
        Topic::AutowareState => 2,
        Topic::ApiEmergency => 3,
        Topic::DiagnosticsStatus => 0,
        Topic::DiagnosticsStruct => 1,
        Topic::DiagnosticsUnknowns => 2,
        Topic::CommandModeAvailability => 3,
        Topic::LaunchControl => 4,
        Topic::LaunchLocalization => 5,
        Topic::LaunchMap => 6,
        Topic::LaunchPerception => 7,
        Topic::LaunchPlanning => 8,
        Topic::LaunchSensing => 9,
        Topic::LaunchSystem => 10,
        Topic::LaunchVehicle => 11,
        Topic::HazardStatus => 12,
        Topic::OperationModeAvailability => 13,
        _ => 0,
    }
}

spec fn tick_place(topic: Topic) -> int {
    match topic {
        Topic::MrmState => 0,
        Topic::EmergencyGearCmd => 1,
        Topic::EmergencyHazardLightsCmd => 2,
        Topic::EmergencyTurnIndicatorsCmd => 3,
        Topic::EmergencyHolding => 4,
        Topic::EmergencyStopStatus => 0,
        Topic::ControlCmd => 0,
        Topic::GearCmd => 1,
        Topic::TurnIndicatorsCmd => 2,
        Topic::HazardLightsCmd => 3,
        Topic::EmergencyCmd => 4,
        Topic::GateModeCmd => 5,
        Topic::CurrentGateMode => 6,
        Topic::GateIsStopped => 7,
        Topic::GateOperationMode => 8,
        Topic::GateIsPaused => 9,
        Topic::GateIsStartRequested => 10,
        Topic::FilterActivated => 11,
        Topic::FilterFlag => 12,
        Topic::FilterMarker => 13,
        Topic::FilterMarkerRaw => 14,
        Topic::ControlPublishedTime => 15,
        Topic::ShiftDeciderGearCmd => 0,
        Topic::ValidatorDebugMarker => 0,
        Topic::ValidatorOutputMarkers => 1,
        Topic::ValidatorVirtualWall => 2,
        Topic::ValidationStatus => 3,
        Topic::ApiOperationMode => 0,
        Topic::SystemOperationMode => 1,
        Topic::AutonomousAvailable => 2,
        Topic::TransitionDebug => 3,
        Topic::ApiEngage => 0,
        Topic::AutowareEngage => 1,
        Topic::AutowareState => 2,
        Topic::ApiEmergency => 3,
        Topic::DiagnosticsStatus => 0,
        Topic::DiagnosticsStruct => 1,
        Topic::DiagnosticsUnknowns => 2,
        Topic::CommandModeAvailability => 3,
        Topic::LaunchControl => 4,
        Topic::LaunchLocalization => 5,
        Topic::LaunchMap => 6,
        Topic::LaunchPerception => 7,
        Topic::LaunchPlanning => 8,
        Topic::LaunchSensing => 9,
        Topic::LaunchSystem => 10,
        Topic::LaunchVehicle => 11,
        Topic::HazardStatus => 12,
        Topic::OperationModeAvailability => 13,
        _ => 0,
    }
}

spec fn server_place(service: Service) -> int {
    match service {
        Service::OperateEmergencyStop => 1,
        Service::ExternalEmergencyStop => 18,
        Service::ClearExternalEmergencyStop => 19,
        Service::ConfigLogger => 20,
        Service::SetStop => 21,
        Service::ChangeToAutonomous => 4,
        Service::ChangeToStop => 5,
        Service::ChangeToLocal => 6,
        Service::ChangeToRemote => 7,
        Service::EnableAutowareControl => 8,
        Service::DisableAutowareControl => 9,
        Service::ControlModeRequest => 10,
        Service::ChangeAutowareControl => 11,
        Service::SetEngage => 4,
        Service::SetEmergency => 5,
        Service::InterfaceVersion => 6,
        Service::ResetDiagnostics => 7,
        Service::Shutdown => 8,
        Service::ResetDiagnosticsGraph => 9,
        Service::SetInitializing => 10,
        _ => 0,
    }
}

spec fn subscription_place(source: Source) -> int {
    match source {
        Source::VelocityStatus => 0,
        Source::Heartbeat => 0,
        Source::FollowerControl => 0,
        Source::AutowareState => 0,
        Source::GearStatus => 2,
        Source::Trajectory => 0,
        Source::KinematicState => 2,
        Source::SteeringStatus => 4,
        Source::Acceleration => 6,
    }
}

/// On its ticks a node publishes on each topic that it has declared a publisher for, once,
/// and on no other. No topic has publishers in two nodes.
#[verifier::rlimit(30)]
pub proof fn law_nodes_publish_what_they_declare(n: NodeId, topic: Topic)
    ensures
        declarations(n).contains(Declaration::Publisher(topic)) <==> publisher_of(topic) == Some(n),
        tick_topics(n).contains(topic) <==> publisher_of(topic) == Some(n),
        tick_topics(n).no_duplicates(),
{
    let declared = declarations(n);
    let ticked = tick_topics(n);
    if publisher_of(topic) == Some(n) {
        assert(declared[publisher_place(topic)] == Declaration::Publisher(topic));
        assert(ticked[tick_place(topic)] == topic);
    }
    assert forall|i: int| 0 <= i < declared.len() implies (
    #[trigger] declared[i] matches Declaration::Publisher(t) ==> publisher_of(t) == Some(n)) by {}
    assert forall|i: int| 0 <= i < ticked.len() implies publisher_of(#[trigger] ticked[i]) == Some(
        n,
    ) && tick_place(ticked[i]) == i by {}
}

/// A node serves the services that it has declared servers for. No service has servers in
/// two nodes.
pub proof fn law_nodes_serve_what_they_declare(n: NodeId, service: Service)
    ensures
        declarations(n).contains(Declaration::Server(service)) <==> server_of(service) == Some(n),
{
    let declared = declarations(n);
    if server_of(service) == Some(n) {
        assert(declared[server_place(service)] == Declaration::Server(service));
    }
    assert forall|i: int| 0 <= i < declared.len() implies (
    #[trigger] declared[i] matches Declaration::Server(s) ==> server_of(s) == Some(n)) by {}
}

/// A node listens to the sources that it has declared subscriptions for. Every source has
/// one listener.
pub proof fn law_nodes_listen_to_what_they_declare(n: NodeId, source: Source)
    ensures
        declarations(n).contains(Declaration::Subscription { source }) <==> listener_of(source)
            == n,
{
    let declared = declarations(n);
    if listener_of(source) == n {
        assert(declared[subscription_place(source)] == (Declaration::Subscription { source }));
    }
    assert forall|i: int| 0 <= i < declared.len() implies (
    #[trigger] declared[i] matches Declaration::Subscription { source: s } ==> listener_of(s)
        == n) by {}
}

// ---------------------------------------------------------------------------
// How nodes react
// ---------------------------------------------------------------------------

/// What is left to do after a callback.
#[derive(Debug, PartialEq, Eq)]
pub enum Reaction {
    Nothing,
    /// Answer the request.
    Reply(Response),
    /// Publish these messages, in order.
    Publish(Vec<Publication>),
    /// Run a pass of the control chain, and then publish what the command gate publishes.
    RunChain { now_ms: u64 },
    /// Deal with an input that the island cannot deal with alone.
    Deal(Chore),
}

/// What is left to do after a callback, as plain values.
pub enum ReactionView {
    Nothing,
    Reply(Response),
    Publish(Seq<Publication>),
    RunChain { now_ms: u64 },
    Deal(Chore),
}

impl View for Reaction {
    type V = ReactionView;

    open spec fn view(&self) -> ReactionView {
        match *self {
            Reaction::Nothing => ReactionView::Nothing,
            Reaction::Reply(response) => ReactionView::Reply(response),
            Reaction::Publish(publications) => ReactionView::Publish(publications@),
            Reaction::RunChain { now_ms } => ReactionView::RunChain { now_ms },
            Reaction::Deal(chore) => ReactionView::Deal(chore),
        }
    }
}

/// What a node does on its ticks: the command gate runs the chain, the others publish what
/// the last pass gave. Nodes without a timer have no ticks.
pub open spec fn tick_reaction(n: NodeId, island: SafetyIsland, now_ms: u64) -> ReactionView {
    match n {
        NodeId::VelocityConverter | NodeId::Controller => ReactionView::Nothing,
        NodeId::VehicleCmdGate => ReactionView::RunChain { now_ms },
        _ => ReactionView::Publish(contents(tick_topics(n), island.last_outputs)),
    }
}

/// A node that is called back turns the island `before` into `after` and leaves `r` to do:
/// messages go to the listener of their source, requests to the server of their service.
/// Callbacks that are not the node's, or nobody's, change nothing.
pub open spec fn reacts(
    n: NodeId,
    before: SafetyIsland,
    callback: Option<Callback>,
    input: Input,
    now_ms: u64,
    after: SafetyIsland,
    r: ReactionView,
) -> bool {
    match callback {
        Some(Callback::Tick) => after == before && r == tick_reaction(n, before, now_ms),
        Some(Callback::Message(source)) => if listener_of(source) == n {
            &&& before.takes(source, input, now_ms, after)
            &&& r == (match chore(source, input, now_ms) {
                Chore::Nothing => ReactionView::Nothing,
                left => ReactionView::Deal(left),
            })
        } else {
            after == before && r == ReactionView::Nothing
        },
        Some(Callback::Request(service)) => if server_of(service) == Some(n) {
            &&& after == before.served(service, input.flag())
            &&& r == ReactionView::Reply(response(service))
        } else {
            after == before && r == ReactionView::Nothing
        },
        None => after == before && r == ReactionView::Nothing,
    }
}

/// A request that is addressed to its server is answered, with a response of the service's
/// interface.
pub proof fn law_requests_are_answered(
    n: NodeId,
    before: SafetyIsland,
    service: Service,
    input: Input,
    now_ms: u64,
    after: SafetyIsland,
    r: ReactionView,
)
    requires
        server_of(service) == Some(n),
        reacts(n, before, callback_named(service.name()@), input, now_ms, after, r),
    ensures
        r == ReactionView::Reply(response(service)),
        response(service).interface() == service.interface(),
{
    law_callback_is_found_by_name(Callback::Request(service));
}

/// Publishing from the last pass changes nothing: whatever nodes tick in between, all of
/// them publish from the same pass.
pub proof fn law_ticks_change_nothing(
    n: NodeId,
    before: SafetyIsland,
    input: Input,
    now_ms: u64,
    after: SafetyIsland,
    r: ReactionView,
)
    requires
        reacts(n, before, Some(Callback::Tick), input, now_ms, after, r),
    ensures
        after == before,
{
}

fn publish_all(topics: Vec<Topic>, o: &ChainOutputs) -> (r: Vec<Publication>)
    ensures
        r@ == contents(topics@, *o),
{
    let mut r: Vec<Publication> = Vec::new();
    let mut i: usize = 0;
    while i < topics.len()
        invariant
            i <= topics.len(),
            r@ == contents(topics@.take(i as int), *o),
        decreases topics.len() - i,
    {
        let topic = topics[i];
        r.push(Publication { topic, message: message_for(topic, o) });
        proof {
            assert(topics@.take(i + 1) =~= topics@.take(i as int).push(topic));
            assert(r@ =~= contents(topics@.take(i + 1), *o));
        }
        i += 1;
    }
    assert(topics@.take(i as int) =~= topics@);
    r
}

fn after_message(left: Chore) -> (r: Reaction)
    ensures
        r@ == (match left {
            Chore::Nothing => ReactionView::Nothing,
            left => ReactionView::Deal(left),
        }),
{
    match left {
        Chore::Nothing => Reaction::Nothing,
        left => Reaction::Deal(left),
    }
}

/// Feeds velocity reports to the sensing algorithms. It publishes nothing.
pub struct VelocityConverterNode;

impl VelocityConverterNode {
    /// How the node registers.
    pub fn register() -> (r: NodePlan)
        ensures
            r.name == NodeId::VelocityConverter.name(),
            r.namespace == NodeId::VelocityConverter.namespace(),
            r.declarations@ == declarations(NodeId::VelocityConverter),
            r.announcement is None,
    {
        NodePlan {
            name: NodeId::VelocityConverter.name(),
            namespace: NodeId::VelocityConverter.namespace(),
            declarations: vec![
                Declaration::Subscription { source: Source::VelocityStatus },
                Declaration::Reads { source: Source::VelocityStatus },
            ],
            announcement: None,
        }
    }

    /// Reacts to a callback.
    pub fn on_callback(island: &mut SafetyIsland, callback: &str, input: Input, now_ms: u64) -> (r:
        Reaction)
        ensures
            reacts(
                NodeId::VelocityConverter,
                *old(island),
                callback_named(callback@),
                input,
                now_ms,
                *final(island),
                r@,
            ),
    {
        match Callback::from_name(callback) {
            Some(Callback::Message(source)) => match source {
                Source::VelocityStatus => after_message(
                    island.receive(source, input, now_ms),
                ),
                _ => Reaction::Nothing,
            },
            _ => Reaction::Nothing,
        }
    }
}

/// Publishes the state of the minimum-risk manoeuvre and the emergency commands, and listens
/// for heartbeats.
pub struct MrmHandlerNode;

impl MrmHandlerNode {
    /// How the node registers.
    pub fn register() -> (r: NodePlan)
        ensures
            r.name == NodeId::MrmHandler.name(),
            r.namespace == NodeId::MrmHandler.namespace(),
            r.declarations@ == declarations(NodeId::MrmHandler),
            r.announcement is None,
    {
        NodePlan {
            name: NodeId::MrmHandler.name(),
            namespace: NodeId::MrmHandler.namespace(),
            declarations: vec![
                Declaration::Subscription { source: Source::Heartbeat },
                Declaration::Reads { source: Source::Heartbeat },
                Declaration::Publisher(Topic::MrmState),
                Declaration::Publisher(Topic::EmergencyGearCmd),
                Declaration::Publisher(Topic::EmergencyHazardLightsCmd),
                Declaration::Publisher(Topic::EmergencyTurnIndicatorsCmd),
                Declaration::Publisher(Topic::EmergencyHolding),
                Declaration::Timer { period_ms: CONTROL_PERIOD_MS },
                Declaration::TickPublishes { topic: Topic::MrmState },
                Declaration::TickPublishes { topic: Topic::EmergencyGearCmd },
                Declaration::TickPublishes { topic: Topic::EmergencyHazardLightsCmd },
                Declaration::TickPublishes { topic: Topic::EmergencyTurnIndicatorsCmd },
                Declaration::TickPublishes { topic: Topic::EmergencyHolding },
            ],
            announcement: None,
        }
    }

    /// Reacts to a callback.
    pub fn on_callback(island: &mut SafetyIsland, callback: &str, input: Input, now_ms: u64) -> (r:
        Reaction)
        ensures
            reacts(
                NodeId::MrmHandler,
                *old(island),
                callback_named(callback@),
                input,
                now_ms,
                *final(island),
                r@,
            ),
    {
        match Callback::from_name(callback) {
            Some(Callback::Tick) => Reaction::Publish(
                publish_all(Self::published(), &island.last_outputs),
            ),
            Some(Callback::Message(source)) => match source {
                Source::Heartbeat => after_message(
                    island.receive(source, input, now_ms),
                ),
                _ => Reaction::Nothing,
            },
            _ => Reaction::Nothing,
        }
    }

    /// The topics that the node publishes on its ticks, in order.
    fn published() -> (r: Vec<Topic>)
        ensures
            r@ == tick_topics(NodeId::MrmHandler),
    {
        vec![
            Topic::MrmState,
            Topic::EmergencyGearCmd,
            Topic::EmergencyHazardLightsCmd,
            Topic::EmergencyTurnIndicatorsCmd,
            Topic::EmergencyHolding,
        ]
    }
}

/// Reports on the emergency stop. Requests to operate it are only acknowledged: the chain
/// drives it.
pub struct EmergencyStopOperatorNode;

impl EmergencyStopOperatorNode {
    /// How the node registers.
    pub fn register() -> (r: NodePlan)
        ensures
            r.name == NodeId::EmergencyStopOperator.name(),
            r.namespace == NodeId::EmergencyStopOperator.namespace(),
            r.declarations@ == declarations(NodeId::EmergencyStopOperator),
            r.announcement is None,
    {
        NodePlan {
            name: NodeId::EmergencyStopOperator.name(),
            namespace: NodeId::EmergencyStopOperator.namespace(),
            declarations: vec![
                Declaration::Publisher(Topic::EmergencyStopStatus),
                Declaration::Server(Service::OperateEmergencyStop),
                Declaration::Timer { period_ms: CONTROL_PERIOD_MS },
            ],
            announcement: None,
        }
    }

    /// Reacts to a callback.
    pub fn on_callback(island: &mut SafetyIsland, callback: &str, input: Input, now_ms: u64) -> (r:
        Reaction)
        ensures
            reacts(
                NodeId::EmergencyStopOperator,
                *old(island),
                callback_named(callback@),
                input,
                now_ms,
                *final(island),
                r@,
            ),
    {
        match Callback::from_name(callback) {
            Some(Callback::Tick) => Reaction::Publish(
                publish_all(Self::published(), &island.last_outputs),
            ),
            Some(Callback::Request(service)) => match service {
                Service::OperateEmergencyStop => Reaction::Reply(
                    island.serve(service, input.flag()),
                ),
                _ => Reaction::Nothing,
            },
            _ => Reaction::Nothing,
        }
    }

    /// The topics that the node publishes on its ticks, in order.
    fn published() -> (r: Vec<Topic>)
        ensures
            r@ == tick_topics(NodeId::EmergencyStopOperator),
    {
        vec![
            Topic::EmergencyStopStatus,
        ]
    }
}

/// Runs the control chain and publishes the driving commands.
pub struct VehicleCmdGateNode;

impl VehicleCmdGateNode {
    /// How the node registers.
    pub fn register() -> (r: NodePlan)
        ensures
            r.name == NodeId::VehicleCmdGate.name(),
            r.namespace == NodeId::VehicleCmdGate.namespace(),
            r.declarations@ == declarations(NodeId::VehicleCmdGate),
            r.announcement is None,
    {
        NodePlan {
            name: NodeId::VehicleCmdGate.name(),
            namespace: NodeId::VehicleCmdGate.namespace(),
            declarations: vec![
                Declaration::Subscription { source: Source::FollowerControl },
                Declaration::Reads { source: Source::FollowerControl },
                Declaration::Publisher(Topic::ControlCmd),
                Declaration::Publisher(Topic::GearCmd),
                Declaration::Publisher(Topic::TurnIndicatorsCmd),
                Declaration::Publisher(Topic::HazardLightsCmd),
                Declaration::Publisher(Topic::EmergencyCmd),
                Declaration::Publisher(Topic::GateModeCmd),
                Declaration::Publisher(Topic::CurrentGateMode),
                Declaration::Publisher(Topic::GateIsStopped),
                Declaration::Publisher(Topic::GateOperationMode),
                Declaration::Publisher(Topic::GateIsPaused),
                Declaration::Publisher(Topic::GateIsStartRequested),
                Declaration::Publisher(Topic::FilterActivated),
                Declaration::Publisher(Topic::FilterFlag),
                Declaration::Publisher(Topic::FilterMarker),
                Declaration::Publisher(Topic::FilterMarkerRaw),
                Declaration::Publisher(Topic::ControlPublishedTime),
                Declaration::Server(Service::ExternalEmergencyStop),
                Declaration::Server(Service::ClearExternalEmergencyStop),
                Declaration::Server(Service::ConfigLogger),
                Declaration::Server(Service::SetStop),
                Declaration::Timer { period_ms: CONTROL_PERIOD_MS },
            ],
            announcement: None,
        }
    }

    /// Reacts to a callback.
    pub fn on_callback(island: &mut SafetyIsland, callback: &str, input: Input, now_ms: u64) -> (r:
        Reaction)
        ensures
            reacts(
                NodeId::VehicleCmdGate,
                *old(island),
                callback_named(callback@),
                input,
                now_ms,
                *final(island),
                r@,
            ),
    {
        match Callback::from_name(callback) {
            Some(Callback::Tick) => Reaction::RunChain { now_ms },
            Some(Callback::Message(source)) => match source {
                Source::FollowerControl => after_message(
                    island.receive(source, input, now_ms),
                ),
                _ => Reaction::Nothing,
            },
            Some(Callback::Request(service)) => match service {
                Service::ExternalEmergencyStop
                | Service::ClearExternalEmergencyStop
                | Service::ConfigLogger
                | Service::SetStop => Reaction::Reply(
                    island.serve(service, input.flag()),
                ),
                _ => Reaction::Nothing,
            },
            _ => Reaction::Nothing,
        }
    }

    /// What the node publishes after the pass of the chain that it ran.
    pub fn after_chain(outputs: &ChainOutputs) -> (r: Vec<Publication>)
        ensures
            r@ == contents(tick_topics(NodeId::VehicleCmdGate), *outputs),
    {
        publish_all(Self::published(), outputs)
    }

    /// The topics that the node publishes on its ticks, in order.
    fn published() -> (r: Vec<Topic>)
        ensures
            r@ == tick_topics(NodeId::VehicleCmdGate),
    {
        vec![
            Topic::ControlCmd,
            Topic::GearCmd,
            Topic::TurnIndicatorsCmd,
            Topic::HazardLightsCmd,
            Topic::EmergencyCmd,
            Topic::GateModeCmd,
            Topic::CurrentGateMode,
            Topic::GateIsStopped,
            Topic::GateOperationMode,
            Topic::GateIsPaused,
            Topic::GateIsStartRequested,
            Topic::FilterActivated,
            Topic::FilterFlag,
            Topic::FilterMarker,
            Topic::FilterMarkerRaw,
            Topic::ControlPublishedTime,
        ]
    }
}

/// Publishes the gear for autonomous driving.
pub struct ShiftDeciderNode;

impl ShiftDeciderNode {
    /// How the node registers.
    pub fn register() -> (r: NodePlan)
        ensures
            r.name == NodeId::ShiftDecider.name(),
            r.namespace == NodeId::ShiftDecider.namespace(),
            r.declarations@ == declarations(NodeId::ShiftDecider),
            r.announcement is None,
    {
        NodePlan {
            name: NodeId::ShiftDecider.name(),
            namespace: NodeId::ShiftDecider.namespace(),
            declarations: vec![
                Declaration::Subscription { source: Source::AutowareState },
                Declaration::Reads { source: Source::AutowareState },
                Declaration::Subscription { source: Source::GearStatus },
                Declaration::Reads { source: Source::GearStatus },
                Declaration::Publisher(Topic::ShiftDeciderGearCmd),
                Declaration::Timer { period_ms: CONTROL_PERIOD_MS },
            ],
            announcement: None,
        }
    }

    /// Reacts to a callback.
    pub fn on_callback(island: &mut SafetyIsland, callback: &str, input: Input, now_ms: u64) -> (r:
        Reaction)
        ensures
            reacts(
                NodeId::ShiftDecider,
                *old(island),
                callback_named(callback@),
                input,
                now_ms,
                *final(island),
                r@,
            ),
    {
        match Callback::from_name(callback) {
            Some(Callback::Tick) => Reaction::Publish(
                publish_all(Self::published(), &island.last_outputs),
            ),
            Some(Callback::Message(source)) => match source {
                Source::AutowareState
                | Source::GearStatus => after_message(
                    island.receive(source, input, now_ms),
                ),
                _ => Reaction::Nothing,
            },
            _ => Reaction::Nothing,
        }
    }

    /// The topics that the node publishes on its ticks, in order.
    fn published() -> (r: Vec<Topic>)
        ensures
            r@ == tick_topics(NodeId::ShiftDecider),
    {
        vec![
            Topic::ShiftDeciderGearCmd,
        ]
    }
}

/// Publishes the report of the validator.
pub struct ControlValidatorNode;

impl ControlValidatorNode {
    /// How the node registers.
    pub fn register() -> (r: NodePlan)
        ensures
            r.name == NodeId::ControlValidator.name(),
            r.namespace == NodeId::ControlValidator.namespace(),
            r.declarations@ == declarations(NodeId::ControlValidator),
            r.announcement is None,
    {
        NodePlan {
            name: NodeId::ControlValidator.name(),
            namespace: NodeId::ControlValidator.namespace(),
            declarations: vec![
                Declaration::Publisher(Topic::ValidatorDebugMarker),
                Declaration::Publisher(Topic::ValidatorOutputMarkers),
                Declaration::Publisher(Topic::ValidationStatus),
                Declaration::Publisher(Topic::ValidatorVirtualWall),
                Declaration::Timer { period_ms: CONTROL_PERIOD_MS },
            ],
            announcement: None,
        }
    }

    /// Reacts to a callback.
    pub fn on_callback(island: &mut SafetyIsland, callback: &str, input: Input, now_ms: u64) -> (r:
        Reaction)
        ensures
            reacts(
                NodeId::ControlValidator,
                *old(island),
                callback_named(callback@),
                input,
                now_ms,
                *final(island),
                r@,
            ),
    {
        match Callback::from_name(callback) {
            Some(Callback::Tick) => Reaction::Publish(
                publish_all(Self::published(), &island.last_outputs),
            ),
            _ => Reaction::Nothing,
        }
    }

    /// The topics that the node publishes on its ticks, in order.
    fn published() -> (r: Vec<Topic>)
        ensures
            r@ == tick_topics(NodeId::ControlValidator),
    {
        vec![
            Topic::ValidatorDebugMarker,
            Topic::ValidatorOutputMarkers,
            Topic::ValidatorVirtualWall,
            Topic::ValidationStatus,
        ]
    }
}

/// Changes the operation mode on request and publishes it.
pub struct OperationModeNode;

impl OperationModeNode {
    /// How the node registers.
    pub fn register() -> (r: NodePlan)
        ensures
            r.name == NodeId::OperationMode.name(),
            r.namespace == NodeId::OperationMode.namespace(),
            r.declarations@ == declarations(NodeId::OperationMode),
            r.announcement is None,
    {
        NodePlan {
            name: NodeId::OperationMode.name(),
            namespace: NodeId::OperationMode.namespace(),
            declarations: vec![
                Declaration::Publisher(Topic::ApiOperationMode),
                Declaration::Publisher(Topic::SystemOperationMode),
                Declaration::Publisher(Topic::TransitionDebug),
                Declaration::Publisher(Topic::AutonomousAvailable),
                Declaration::Server(Service::ChangeToAutonomous),
                Declaration::Server(Service::ChangeToStop),
                Declaration::Server(Service::ChangeToLocal),
                Declaration::Server(Service::ChangeToRemote),
                Declaration::Server(Service::EnableAutowareControl),
                Declaration::Server(Service::DisableAutowareControl),
                Declaration::Server(Service::ControlModeRequest),
                Declaration::Server(Service::ChangeAutowareControl),
                Declaration::Timer { period_ms: CONTROL_PERIOD_MS },
            ],
            announcement: None,
        }
    }

    /// Reacts to a callback.
    pub fn on_callback(island: &mut SafetyIsland, callback: &str, input: Input, now_ms: u64) -> (r:
        Reaction)
        ensures
            reacts(
                NodeId::OperationMode,
                *old(island),
                callback_named(callback@),
                input,
                now_ms,
                *final(island),
                r@,
            ),
    {
        match Callback::from_name(callback) {
            Some(Callback::Tick) => Reaction::Publish(
                publish_all(Self::published(), &island.last_outputs),
            ),
            Some(Callback::Request(service)) => match service {
                Service::ChangeToAutonomous
                | Service::ChangeToStop
                | Service::ChangeToLocal
                | Service::ChangeToRemote
                | Service::EnableAutowareControl
                | Service::DisableAutowareControl
                | Service::ControlModeRequest
                | Service::ChangeAutowareControl => Reaction::Reply(
                    island.serve(service, input.flag()),
                ),
                _ => Reaction::Nothing,
            },
            _ => Reaction::Nothing,
        }
    }

    /// The topics that the node publishes on its ticks, in order.
    fn published() -> (r: Vec<Topic>)
        ensures
            r@ == tick_topics(NodeId::OperationMode),
    {
        vec![
            Topic::ApiOperationMode,
            Topic::SystemOperationMode,
            Topic::AutonomousAvailable,
            Topic::TransitionDebug,
        ]
    }
}

/// Serves external tools: engagement, emergency and housekeeping.
pub struct DefaultAdapiNode;

impl DefaultAdapiNode {
    /// How the node registers.
    pub fn register() -> (r: NodePlan)
        ensures
            r.name == NodeId::DefaultAdapi.name(),
            r.namespace == NodeId::DefaultAdapi.namespace(),
            r.declarations@ == declarations(NodeId::DefaultAdapi),
            r.announcement is None,
    {
        NodePlan {
            name: NodeId::DefaultAdapi.name(),
            namespace: NodeId::DefaultAdapi.namespace(),
            declarations: vec![
                Declaration::Publisher(Topic::ApiEngage),
                Declaration::Publisher(Topic::AutowareEngage),
                Declaration::Publisher(Topic::AutowareState),
                Declaration::Publisher(Topic::ApiEmergency),
                Declaration::Server(Service::SetEngage),
                Declaration::Server(Service::SetEmergency),
                Declaration::Server(Service::InterfaceVersion),
                Declaration::Server(Service::ResetDiagnostics),
                Declaration::Server(Service::Shutdown),
                Declaration::Server(Service::ResetDiagnosticsGraph),
                Declaration::Server(Service::SetInitializing),
                Declaration::Timer { period_ms: CONTROL_PERIOD_MS },
            ],
            announcement: None,
        }
    }

    /// Reacts to a callback.
    pub fn on_callback(island: &mut SafetyIsland, callback: &str, input: Input, now_ms: u64) -> (r:
        Reaction)
        ensures
            reacts(
                NodeId::DefaultAdapi,
                *old(island),
                callback_named(callback@),
                input,
                now_ms,
                *final(island),
                r@,
            ),
    {
        match Callback::from_name(callback) {
            Some(Callback::Tick) => Reaction::Publish(
                publish_all(Self::published(), &island.last_outputs),
            ),
            Some(Callback::Request(service)) => match service {
                Service::SetEngage
                | Service::SetEmergency
                | Service::InterfaceVersion
                | Service::ResetDiagnostics
                | Service::Shutdown
                | Service::ResetDiagnosticsGraph
                | Service::SetInitializing => Reaction::Reply(
                    island.serve(service, input.flag()),
                ),
                _ => Reaction::Nothing,
            },
            _ => Reaction::Nothing,
        }
    }

    /// The topics that the node publishes on its ticks, in order.
    fn published() -> (r: Vec<Topic>)
        ensures
            r@ == tick_topics(NodeId::DefaultAdapi),
    {
        vec![
            Topic::ApiEngage,
            Topic::AutowareEngage,
            Topic::AutowareState,
            Topic::ApiEmergency,
        ]
    }
}

/// Takes in what the trajectory follower needs.
pub struct ControllerNode;

impl ControllerNode {
    /// How the node registers.
    pub fn register() -> (r: NodePlan)
        ensures
            r.name == NodeId::Controller.name(),
            r.namespace == NodeId::Controller.namespace(),
            r.declarations@ == declarations(NodeId::Controller),
            r.announcement is None,
    {
        NodePlan {
            name: NodeId::Controller.name(),
            namespace: NodeId::Controller.namespace(),
            declarations: vec![
                Declaration::Subscription { source: Source::Trajectory },
                Declaration::Reads { source: Source::Trajectory },
                Declaration::Subscription { source: Source::KinematicState },
                Declaration::Reads { source: Source::KinematicState },
                Declaration::Subscription { source: Source::SteeringStatus },
                Declaration::Reads { source: Source::SteeringStatus },
                Declaration::Subscription { source: Source::Acceleration },
                Declaration::Reads { source: Source::Acceleration },
            ],
            announcement: None,
        }
    }

    /// Reacts to a callback.
    pub fn on_callback(island: &mut SafetyIsland, callback: &str, input: Input, now_ms: u64) -> (r:
        Reaction)
        ensures
            reacts(
                NodeId::Controller,
                *old(island),
                callback_named(callback@),
                input,
                now_ms,
                *final(island),
                r@,
            ),
    {
        match Callback::from_name(callback) {
            Some(Callback::Message(source)) => match source {
                Source::Trajectory
                | Source::KinematicState
                | Source::SteeringStatus
                | Source::Acceleration => after_message(
                    island.receive(source, input, now_ms),
                ),
                _ => Reaction::Nothing,
            },
            _ => Reaction::Nothing,
        }
    }
}

/// Publishes diagnostics. It registers last and then announces that all is in place.
pub struct SystemMonitorNode;

impl SystemMonitorNode {
    /// How the node registers.
    pub fn register() -> (r: NodePlan)
        ensures
            r.name == NodeId::SystemMonitor.name(),
            r.namespace == NodeId::SystemMonitor.namespace(),
            r.declarations@ == declarations(NodeId::SystemMonitor),
            r.announcement == Some("sentinel graph registered"),
    {
        NodePlan {
            name: NodeId::SystemMonitor.name(),
            namespace: NodeId::SystemMonitor.namespace(),
            declarations: vec![
                Declaration::Publisher(Topic::DiagnosticsStatus),
                Declaration::Publisher(Topic::DiagnosticsStruct),
                Declaration::Publisher(Topic::DiagnosticsUnknowns),
                Declaration::Publisher(Topic::CommandModeAvailability),
                Declaration::Publisher(Topic::LaunchControl),
                Declaration::Publisher(Topic::LaunchLocalization),
                Declaration::Publisher(Topic::LaunchMap),
                Declaration::Publisher(Topic::LaunchPerception),
                Declaration::Publisher(Topic::LaunchPlanning),
                Declaration::Publisher(Topic::LaunchSensing),
                Declaration::Publisher(Topic::LaunchSystem),
                Declaration::Publisher(Topic::LaunchVehicle),
                Declaration::Publisher(Topic::HazardStatus),
                Declaration::Publisher(Topic::OperationModeAvailability),
                Declaration::Timer { period_ms: CONTROL_PERIOD_MS },
            ],
            announcement: Some("sentinel graph registered"),
        }
    }

    /// Reacts to a callback.
    pub fn on_callback(island: &mut SafetyIsland, callback: &str, input: Input, now_ms: u64) -> (r:
        Reaction)
        ensures
            reacts(
                NodeId::SystemMonitor,
                *old(island),
                callback_named(callback@),
                input,
                now_ms,
                *final(island),
                r@,
            ),
    {
        match Callback::from_name(callback) {
            Some(Callback::Tick) => Reaction::Publish(
                publish_all(Self::published(), &island.last_outputs),
            ),
            _ => Reaction::Nothing,
        }
    }

    /// The topics that the node publishes on its ticks, in order.
    fn published() -> (r: Vec<Topic>)
        ensures
            r@ == tick_topics(NodeId::SystemMonitor),
    {
        vec![
            Topic::DiagnosticsStatus,
            Topic::DiagnosticsStruct,
            Topic::DiagnosticsUnknowns,
            Topic::CommandModeAvailability,
            Topic::LaunchControl,
            Topic::LaunchLocalization,
            Topic::LaunchMap,
            Topic::LaunchPerception,
            Topic::LaunchPlanning,
            Topic::LaunchSensing,
            Topic::LaunchSystem,
            Topic::LaunchVehicle,
            Topic::HazardStatus,
            Topic::OperationModeAvailability,
        ]
    }
}

// ---------------------------------------------------------------------------
// What the nodes are for
// ---------------------------------------------------------------------------

/// Which node publishes what. The driving commands come from the command gate, the state of
/// the minimum-risk manoeuvre and the emergency commands from its handler.
#[verifier::spinoff_prover]
#[verifier::rlimit(60)]
pub proof fn law_each_topic_has_its_node()
    ensures
        declarations(NodeId::MrmHandler).contains(Declaration::Publisher(Topic::MrmState)),
        declarations(NodeId::VehicleCmdGate).contains(
            Declaration::Publisher(Topic::HazardLightsCmd),
        ),
        declarations(NodeId::VehicleCmdGate).contains(Declaration::Publisher(Topic::GearCmd)),
        declarations(NodeId::VehicleCmdGate).contains(Declaration::Publisher(Topic::ControlCmd)),
        declarations(NodeId::VehicleCmdGate).contains(
            Declaration::Publisher(Topic::TurnIndicatorsCmd),
        ),
        declarations(NodeId::OperationMode).contains(
            Declaration::Publisher(Topic::ApiOperationMode),
        ),
        declarations(NodeId::EmergencyStopOperator).contains(
            Declaration::Publisher(Topic::EmergencyStopStatus),
        ),
        declarations(NodeId::MrmHandler).contains(Declaration::Publisher(Topic::EmergencyGearCmd)),
        declarations(NodeId::MrmHandler).contains(
            Declaration::Publisher(Topic::EmergencyHazardLightsCmd),
        ),
        declarations(NodeId::MrmHandler).contains(
            Declaration::Publisher(Topic::EmergencyTurnIndicatorsCmd),
        ),
        declarations(NodeId::MrmHandler).contains(Declaration::Publisher(Topic::EmergencyHolding)),
        declarations(NodeId::VehicleCmdGate).contains(Declaration::Publisher(Topic::EmergencyCmd)),
        declarations(NodeId::VehicleCmdGate).contains(Declaration::Publisher(Topic::GateModeCmd)),
        declarations(NodeId::ShiftDecider).contains(
            Declaration::Publisher(Topic::ShiftDeciderGearCmd),
        ),
        declarations(NodeId::VehicleCmdGate).contains(Declaration::Publisher(Topic::GateIsStopped)),
        declarations(NodeId::VehicleCmdGate).contains(
            Declaration::Publisher(Topic::GateOperationMode),
        ),
        declarations(NodeId::OperationMode).contains(
            Declaration::Publisher(Topic::SystemOperationMode),
        ),
        declarations(NodeId::VehicleCmdGate).contains(Declaration::Publisher(Topic::GateIsPaused)),
        declarations(NodeId::VehicleCmdGate).contains(
            Declaration::Publisher(Topic::GateIsStartRequested),
        ),
        declarations(NodeId::VehicleCmdGate).contains(
            Declaration::Publisher(Topic::CurrentGateMode),
        ),
        declarations(NodeId::VehicleCmdGate).contains(
            Declaration::Publisher(Topic::FilterActivated),
        ),
        declarations(NodeId::VehicleCmdGate).contains(Declaration::Publisher(Topic::FilterFlag)),
        declarations(NodeId::VehicleCmdGate).contains(Declaration::Publisher(Topic::FilterMarker)),
        declarations(NodeId::VehicleCmdGate).contains(
            Declaration::Publisher(Topic::FilterMarkerRaw),
        ),
        declarations(NodeId::ControlValidator).contains(
            Declaration::Publisher(Topic::ValidatorDebugMarker),
        ),
        declarations(NodeId::ControlValidator).contains(
            Declaration::Publisher(Topic::ValidatorOutputMarkers),
        ),
        declarations(NodeId::ControlValidator).contains(
            Declaration::Publisher(Topic::ValidationStatus),
        ),
        declarations(NodeId::ControlValidator).contains(
            Declaration::Publisher(Topic::ValidatorVirtualWall),
        ),
        declarations(NodeId::OperationMode).contains(
            Declaration::Publisher(Topic::TransitionDebug),
        ),
        declarations(NodeId::OperationMode).contains(
            Declaration::Publisher(Topic::AutonomousAvailable),
        ),
        declarations(NodeId::VehicleCmdGate).contains(
            Declaration::Publisher(Topic::ControlPublishedTime),
        ),
        declarations(NodeId::DefaultAdapi).contains(Declaration::Publisher(Topic::ApiEngage)),
        declarations(NodeId::DefaultAdapi).contains(Declaration::Publisher(Topic::AutowareEngage)),
        declarations(NodeId::DefaultAdapi).contains(Declaration::Publisher(Topic::AutowareState)),
        declarations(NodeId::DefaultAdapi).contains(Declaration::Publisher(Topic::ApiEmergency)),
        declarations(NodeId::SystemMonitor).contains(
            Declaration::Publisher(Topic::DiagnosticsStatus),
        ),
        declarations(NodeId::SystemMonitor).contains(
            Declaration::Publisher(Topic::DiagnosticsStruct),
        ),
        declarations(NodeId::SystemMonitor).contains(
            Declaration::Publisher(Topic::DiagnosticsUnknowns),
        ),
        declarations(NodeId::SystemMonitor).contains(
            Declaration::Publisher(Topic::CommandModeAvailability),
        ),
        declarations(NodeId::SystemMonitor).contains(Declaration::Publisher(Topic::LaunchControl)),
        declarations(NodeId::SystemMonitor).contains(
            Declaration::Publisher(Topic::LaunchLocalization),
        ),
        declarations(NodeId::SystemMonitor).contains(Declaration::Publisher(Topic::LaunchMap)),
        declarations(NodeId::SystemMonitor).contains(
            Declaration::Publisher(Topic::LaunchPerception),
        ),
        declarations(NodeId::SystemMonitor).contains(Declaration::Publisher(Topic::LaunchPlanning)),
        declarations(NodeId::SystemMonitor).contains(Declaration::Publisher(Topic::LaunchSensing)),
        declarations(NodeId::SystemMonitor).contains(Declaration::Publisher(Topic::LaunchSystem)),
        declarations(NodeId::SystemMonitor).contains(Declaration::Publisher(Topic::LaunchVehicle)),
        declarations(NodeId::SystemMonitor).contains(Declaration::Publisher(Topic::HazardStatus)),
        declarations(NodeId::SystemMonitor).contains(
            Declaration::Publisher(Topic::OperationModeAvailability),
        ),
{
    law_nodes_publish_what_they_declare(NodeId::MrmHandler, Topic::MrmState);
    law_nodes_publish_what_they_declare(NodeId::VehicleCmdGate, Topic::HazardLightsCmd);
    law_nodes_publish_what_they_declare(NodeId::VehicleCmdGate, Topic::GearCmd);
    law_nodes_publish_what_they_declare(NodeId::VehicleCmdGate, Topic::ControlCmd);
    law_nodes_publish_what_they_declare(NodeId::VehicleCmdGate, Topic::TurnIndicatorsCmd);
    law_nodes_publish_what_they_declare(NodeId::OperationMode, Topic::ApiOperationMode);
    law_nodes_publish_what_they_declare(NodeId::EmergencyStopOperator, Topic::EmergencyStopStatus);
    law_nodes_publish_what_they_declare(NodeId::MrmHandler, Topic::EmergencyGearCmd);
    law_nodes_publish_what_they_declare(NodeId::MrmHandler, Topic::EmergencyHazardLightsCmd);
    law_nodes_publish_what_they_declare(NodeId::MrmHandler, Topic::EmergencyTurnIndicatorsCmd);
    law_nodes_publish_what_they_declare(NodeId::MrmHandler, Topic::EmergencyHolding);
    law_nodes_publish_what_they_declare(NodeId::VehicleCmdGate, Topic::EmergencyCmd);
    law_nodes_publish_what_they_declare(NodeId::VehicleCmdGate, Topic::GateModeCmd);
    law_nodes_publish_what_they_declare(NodeId::ShiftDecider, Topic::ShiftDeciderGearCmd);
    law_nodes_publish_what_they_declare(NodeId::VehicleCmdGate, Topic::GateIsStopped);
    law_nodes_publish_what_they_declare(NodeId::VehicleCmdGate, Topic::GateOperationMode);
    law_nodes_publish_what_they_declare(NodeId::OperationMode, Topic::SystemOperationMode);
    law_nodes_publish_what_they_declare(NodeId::VehicleCmdGate, Topic::GateIsPaused);
    law_nodes_publish_what_they_declare(NodeId::VehicleCmdGate, Topic::GateIsStartRequested);
    law_nodes_publish_what_they_declare(NodeId::VehicleCmdGate, Topic::CurrentGateMode);
    law_nodes_publish_what_they_declare(NodeId::VehicleCmdGate, Topic::FilterActivated);
    law_nodes_publish_what_they_declare(NodeId::VehicleCmdGate, Topic::FilterFlag);
    law_nodes_publish_what_they_declare(NodeId::VehicleCmdGate, Topic::FilterMarker);
    law_nodes_publish_what_they_declare(NodeId::VehicleCmdGate, Topic::FilterMarkerRaw);
    law_nodes_publish_what_they_declare(NodeId::ControlValidator, Topic::ValidatorDebugMarker);
    law_nodes_publish_what_they_declare(NodeId::ControlValidator, Topic::ValidatorOutputMarkers);
    law_nodes_publish_what_they_declare(NodeId::ControlValidator, Topic::ValidationStatus);
    law_nodes_publish_what_they_declare(NodeId::ControlValidator, Topic::ValidatorVirtualWall);
    law_nodes_publish_what_they_declare(NodeId::OperationMode, Topic::TransitionDebug);
    law_nodes_publish_what_they_declare(NodeId::OperationMode, Topic::AutonomousAvailable);
    law_nodes_publish_what_they_declare(NodeId::VehicleCmdGate, Topic::ControlPublishedTime);
    law_nodes_publish_what_they_declare(NodeId::DefaultAdapi, Topic::ApiEngage);
    law_nodes_publish_what_they_declare(NodeId::DefaultAdapi, Topic::AutowareEngage);
    law_nodes_publish_what_they_declare(NodeId::DefaultAdapi, Topic::AutowareState);
    law_nodes_publish_what_they_declare(NodeId::DefaultAdapi, Topic::ApiEmergency);
    law_nodes_publish_what_they_declare(NodeId::SystemMonitor, Topic::DiagnosticsStatus);
    law_nodes_publish_what_they_declare(NodeId::SystemMonitor, Topic::DiagnosticsStruct);
    law_nodes_publish_what_they_declare(NodeId::SystemMonitor, Topic::DiagnosticsUnknowns);
    law_nodes_publish_what_they_declare(NodeId::SystemMonitor, Topic::CommandModeAvailability);
    law_nodes_publish_what_they_declare(NodeId::SystemMonitor, Topic::LaunchControl);
    law_nodes_publish_what_they_declare(NodeId::SystemMonitor, Topic::LaunchLocalization);
    law_nodes_publish_what_they_declare(NodeId::SystemMonitor, Topic::LaunchMap);
    law_nodes_publish_what_they_declare(NodeId::SystemMonitor, Topic::LaunchPerception);
    law_nodes_publish_what_they_declare(NodeId::SystemMonitor, Topic::LaunchPlanning);
    law_nodes_publish_what_they_declare(NodeId::SystemMonitor, Topic::LaunchSensing);
    law_nodes_publish_what_they_declare(NodeId::SystemMonitor, Topic::LaunchSystem);
    law_nodes_publish_what_they_declare(NodeId::SystemMonitor, Topic::LaunchVehicle);
    law_nodes_publish_what_they_declare(NodeId::SystemMonitor, Topic::HazardStatus);
    law_nodes_publish_what_they_declare(NodeId::SystemMonitor, Topic::OperationModeAvailability);
}

/// Nobody publishes the status of the comfortable stop or of pulling over, and nobody serves
/// requests to operate them.
pub proof fn law_what_no_node_has(n: NodeId)
    ensures
        !declarations(n).contains(Declaration::Publisher(Topic::ComfortableStopStatus)),
        !declarations(n).contains(Declaration::Publisher(Topic::PullOverStatus)),
        !declarations(n).contains(Declaration::Server(Service::OperateComfortableStop)),
        !declarations(n).contains(Declaration::Server(Service::OperatePullOver)),
{
    law_nodes_publish_what_they_declare(n, Topic::ComfortableStopStatus);
    law_nodes_publish_what_they_declare(n, Topic::PullOverStatus);
    law_nodes_serve_what_they_declare(n, Service::OperateComfortableStop);
    law_nodes_serve_what_they_declare(n, Service::OperatePullOver);
}

/// Which node serves what.
#[verifier::spinoff_prover]
pub proof fn law_each_service_has_its_node()
    ensures
        declarations(NodeId::OperationMode).contains(
            Declaration::Server(Service::ChangeToAutonomous),
        ),
        declarations(NodeId::DefaultAdapi).contains(Declaration::Server(Service::SetEngage)),
        declarations(NodeId::DefaultAdapi).contains(Declaration::Server(Service::SetEmergency)),
        declarations(NodeId::VehicleCmdGate).contains(
            Declaration::Server(Service::ExternalEmergencyStop),
        ),
        declarations(NodeId::VehicleCmdGate).contains(
            Declaration::Server(Service::ClearExternalEmergencyStop),
        ),
        declarations(NodeId::VehicleCmdGate).contains(Declaration::Server(Service::ConfigLogger)),
        declarations(NodeId::VehicleCmdGate).contains(Declaration::Server(Service::SetStop)),
        declarations(NodeId::OperationMode).contains(
            Declaration::Server(Service::ControlModeRequest),
        ),
        declarations(NodeId::OperationMode).contains(Declaration::Server(Service::ChangeToStop)),
        declarations(NodeId::OperationMode).contains(Declaration::Server(Service::ChangeToLocal)),
        declarations(NodeId::OperationMode).contains(Declaration::Server(Service::ChangeToRemote)),
        declarations(NodeId::OperationMode).contains(
            Declaration::Server(Service::EnableAutowareControl),
        ),
        declarations(NodeId::OperationMode).contains(
            Declaration::Server(Service::DisableAutowareControl),
        ),
        declarations(NodeId::EmergencyStopOperator).contains(
            Declaration::Server(Service::OperateEmergencyStop),
        ),
        declarations(NodeId::DefaultAdapi).contains(Declaration::Server(Service::InterfaceVersion)),
        declarations(NodeId::DefaultAdapi).contains(Declaration::Server(Service::ResetDiagnostics)),
        declarations(NodeId::DefaultAdapi).contains(Declaration::Server(Service::Shutdown)),
        declarations(NodeId::DefaultAdapi).contains(
            Declaration::Server(Service::ResetDiagnosticsGraph),
        ),
        declarations(NodeId::DefaultAdapi).contains(Declaration::Server(Service::SetInitializing)),
        declarations(NodeId::OperationMode).contains(
            Declaration::Server(Service::ChangeAutowareControl),
        ),
{
    law_nodes_serve_what_they_declare(NodeId::OperationMode, Service::ChangeToAutonomous);
    law_nodes_serve_what_they_declare(NodeId::DefaultAdapi, Service::SetEngage);
    law_nodes_serve_what_they_declare(NodeId::DefaultAdapi, Service::SetEmergency);
    law_nodes_serve_what_they_declare(NodeId::VehicleCmdGate, Service::ExternalEmergencyStop);
    law_nodes_serve_what_they_declare(NodeId::VehicleCmdGate, Service::ClearExternalEmergencyStop);
    law_nodes_serve_what_they_declare(NodeId::VehicleCmdGate, Service::ConfigLogger);
    law_nodes_serve_what_they_declare(NodeId::VehicleCmdGate, Service::SetStop);
    law_nodes_serve_what_they_declare(NodeId::OperationMode, Service::ControlModeRequest);
    law_nodes_serve_what_they_declare(NodeId::OperationMode, Service::ChangeToStop);
    law_nodes_serve_what_they_declare(NodeId::OperationMode, Service::ChangeToLocal);
    law_nodes_serve_what_they_declare(NodeId::OperationMode, Service::ChangeToRemote);
    law_nodes_serve_what_they_declare(NodeId::OperationMode, Service::EnableAutowareControl);
    law_nodes_serve_what_they_declare(NodeId::OperationMode, Service::DisableAutowareControl);
    law_nodes_serve_what_they_declare(NodeId::EmergencyStopOperator, Service::OperateEmergencyStop);
    law_nodes_serve_what_they_declare(NodeId::DefaultAdapi, Service::InterfaceVersion);
    law_nodes_serve_what_they_declare(NodeId::DefaultAdapi, Service::ResetDiagnostics);
    law_nodes_serve_what_they_declare(NodeId::DefaultAdapi, Service::Shutdown);
    law_nodes_serve_what_they_declare(NodeId::DefaultAdapi, Service::ResetDiagnosticsGraph);
    law_nodes_serve_what_they_declare(NodeId::DefaultAdapi, Service::SetInitializing);
    law_nodes_serve_what_they_declare(NodeId::OperationMode, Service::ChangeAutowareControl);
}

/// Which node listens to what.
#[verifier::spinoff_prover]
pub proof fn law_each_source_has_its_node()
    ensures
        declarations(NodeId::VelocityConverter).contains(
            Declaration::Subscription { source: Source::VelocityStatus },
        ),
        declarations(NodeId::MrmHandler).contains(
            Declaration::Subscription { source: Source::Heartbeat },
        ),
        declarations(NodeId::VehicleCmdGate).contains(
            Declaration::Subscription { source: Source::FollowerControl },
        ),
        declarations(NodeId::ShiftDecider).contains(
            Declaration::Subscription { source: Source::AutowareState },
        ),
        declarations(NodeId::ShiftDecider).contains(
            Declaration::Subscription { source: Source::GearStatus },
        ),
        declarations(NodeId::Controller).contains(
            Declaration::Subscription { source: Source::Trajectory },
        ),
        declarations(NodeId::Controller).contains(
            Declaration::Subscription { source: Source::KinematicState },
        ),
        declarations(NodeId::Controller).contains(
            Declaration::Subscription { source: Source::SteeringStatus },
        ),
        declarations(NodeId::Controller).contains(
            Declaration::Subscription { source: Source::Acceleration },
        ),
{
    law_nodes_listen_to_what_they_declare(NodeId::VelocityConverter, Source::VelocityStatus);
    law_nodes_listen_to_what_they_declare(NodeId::MrmHandler, Source::Heartbeat);
    law_nodes_listen_to_what_they_declare(NodeId::VehicleCmdGate, Source::FollowerControl);
    law_nodes_listen_to_what_they_declare(NodeId::ShiftDecider, Source::AutowareState);
    law_nodes_listen_to_what_they_declare(NodeId::ShiftDecider, Source::GearStatus);
    law_nodes_listen_to_what_they_declare(NodeId::Controller, Source::Trajectory);
    law_nodes_listen_to_what_they_declare(NodeId::Controller, Source::KinematicState);
    law_nodes_listen_to_what_they_declare(NodeId::Controller, Source::SteeringStatus);
    law_nodes_listen_to_what_they_declare(NodeId::Controller, Source::Acceleration);
}

/// A node that publishes has a timer, of 33 milliseconds, and no other node has one.
pub proof fn law_publishing_nodes_have_a_timer(n: NodeId, period_ms: u64)
    ensures
        declarations(n).contains(Declaration::Timer { period_ms }) <==> period_ms == 33
            && tick_topics(n).len() > 0,
{
    let declared = declarations(n);
    if period_ms == 33 && tick_topics(n).len() > 0 {
        let place: int = match n {
            NodeId::MrmHandler => 7,
            NodeId::VehicleCmdGate => 22,
            _ => declared.len() - 1,
        };
        assert(declared[place] == (Declaration::Timer { period_ms }));
    }
    assert forall|i: int| 0 <= i < declared.len() implies (
    #[trigger] declared[i] matches Declaration::Timer { period_ms: p } ==> p == 33
        && tick_topics(n).len() > 0) by {}
}

/// The callbacks for messages, by their names.
pub proof fn law_message_callbacks_are_known_by_name()
    ensures
        callback_named("on_tick"@) == Some(Callback::Tick),
        callback_named("on_velocity"@) == Some(Callback::Message(Source::VelocityStatus)),
        callback_named("on_heartbeat"@) == Some(Callback::Message(Source::Heartbeat)),
        callback_named("on_control"@) == Some(Callback::Message(Source::FollowerControl)),
        callback_named("on_state"@) == Some(Callback::Message(Source::AutowareState)),
        callback_named("on_gear"@) == Some(Callback::Message(Source::GearStatus)),
        callback_named("on_trajectory"@) == Some(Callback::Message(Source::Trajectory)),
        callback_named("on_odometry"@) == Some(Callback::Message(Source::KinematicState)),
        callback_named("on_steering"@) == Some(Callback::Message(Source::SteeringStatus)),
        callback_named("on_accel"@) == Some(Callback::Message(Source::Acceleration)),
{
    law_callback_is_found_by_name(Callback::Tick);
    law_callback_is_found_by_name(Callback::Message(Source::VelocityStatus));
    law_callback_is_found_by_name(Callback::Message(Source::Heartbeat));
    law_callback_is_found_by_name(Callback::Message(Source::FollowerControl));
    law_callback_is_found_by_name(Callback::Message(Source::AutowareState));
    law_callback_is_found_by_name(Callback::Message(Source::GearStatus));
    law_callback_is_found_by_name(Callback::Message(Source::Trajectory));
    law_callback_is_found_by_name(Callback::Message(Source::KinematicState));
    law_callback_is_found_by_name(Callback::Message(Source::SteeringStatus));
    law_callback_is_found_by_name(Callback::Message(Source::Acceleration));
}

/// The callbacks for requests, by their names.
#[verifier::spinoff_prover]
pub proof fn law_request_callbacks_are_known_by_name()
    ensures
        callback_named("/api/operation_mode/change_to_autonomous"@) == Some(Callback::Request(Service::ChangeToAutonomous)),
        callback_named("/api/autoware/set/engage"@) == Some(Callback::Request(Service::SetEngage)),
        callback_named("/api/autoware/set/emergency"@) == Some(Callback::Request(Service::SetEmergency)),
        callback_named("/control/vehicle_cmd_gate/external_emergency_stop"@) == Some(Callback::Request(Service::ExternalEmergencyStop)),
        callback_named("/control/vehicle_cmd_gate/clear_external_emergency_stop"@) == Some(Callback::Request(Service::ClearExternalEmergencyStop)),
        callback_named("/control/vehicle_cmd_gate/config_logger"@) == Some(Callback::Request(Service::ConfigLogger)),
        callback_named("/control/vehicle_cmd_gate/set_stop"@) == Some(Callback::Request(Service::SetStop)),
        callback_named("/control/control_mode_request"@) == Some(Callback::Request(Service::ControlModeRequest)),
        callback_named("/api/operation_mode/change_to_stop"@) == Some(Callback::Request(Service::ChangeToStop)),
        callback_named("/api/operation_mode/change_to_local"@) == Some(Callback::Request(Service::ChangeToLocal)),
        callback_named("/api/operation_mode/change_to_remote"@) == Some(Callback::Request(Service::ChangeToRemote)),
        callback_named("/api/operation_mode/enable_autoware_control"@) == Some(Callback::Request(Service::EnableAutowareControl)),
        callback_named("/api/operation_mode/disable_autoware_control"@) == Some(Callback::Request(Service::DisableAutowareControl)),
        callback_named("/system/mrm/comfortable_stop/operate"@) == Some(Callback::Request(Service::OperateComfortableStop)),
        callback_named("/system/mrm/emergency_stop/operate"@) == Some(Callback::Request(Service::OperateEmergencyStop)),
        callback_named("/system/mrm/pull_over_manager/operate"@) == Some(Callback::Request(Service::OperatePullOver)),
        callback_named("/api/interface/version"@) == Some(Callback::Request(Service::InterfaceVersion)),
        callback_named("/api/system/diagnostics/reset"@) == Some(Callback::Request(Service::ResetDiagnostics)),
        callback_named("/autoware/shutdown"@) == Some(Callback::Request(Service::Shutdown)),
        callback_named("/diagnostics_graph/reset"@) == Some(Callback::Request(Service::ResetDiagnosticsGraph)),
        callback_named("/system/aggregator/set_initializing"@) == Some(Callback::Request(Service::SetInitializing)),
        callback_named("/system/operation_mode/change_autoware_control"@) == Some(Callback::Request(Service::ChangeAutowareControl)),
{
    law_callback_is_found_by_name(Callback::Request(Service::ChangeToAutonomous));
    law_callback_is_found_by_name(Callback::Request(Service::SetEngage));
    law_callback_is_found_by_name(Callback::Request(Service::SetEmergency));
    law_callback_is_found_by_name(Callback::Request(Service::ExternalEmergencyStop));
    law_callback_is_found_by_name(Callback::Request(Service::ClearExternalEmergencyStop));
    law_callback_is_found_by_name(Callback::Request(Service::ConfigLogger));
    law_callback_is_found_by_name(Callback::Request(Service::SetStop));
    law_callback_is_found_by_name(Callback::Request(Service::ControlModeRequest));
    law_callback_is_found_by_name(Callback::Request(Service::ChangeToStop));
    law_callback_is_found_by_name(Callback::Request(Service::ChangeToLocal));
    law_callback_is_found_by_name(Callback::Request(Service::ChangeToRemote));
    law_callback_is_found_by_name(Callback::Request(Service::EnableAutowareControl));
    law_callback_is_found_by_name(Callback::Request(Service::DisableAutowareControl));
    law_callback_is_found_by_name(Callback::Request(Service::OperateComfortableStop));
    law_callback_is_found_by_name(Callback::Request(Service::OperateEmergencyStop));
    law_callback_is_found_by_name(Callback::Request(Service::OperatePullOver));
    law_callback_is_found_by_name(Callback::Request(Service::InterfaceVersion));
    law_callback_is_found_by_name(Callback::Request(Service::ResetDiagnostics));
    law_callback_is_found_by_name(Callback::Request(Service::Shutdown));
    law_callback_is_found_by_name(Callback::Request(Service::ResetDiagnosticsGraph));
    law_callback_is_found_by_name(Callback::Request(Service::SetInitializing));
    law_callback_is_found_by_name(Callback::Request(Service::ChangeAutowareControl));
}

/// A message reaches the island through the node that has subscribed to its source, and through
/// no other.
pub proof fn law_messages_reach_the_island(
    n: NodeId,
    before: SafetyIsland,
    source: Source,
    input: Input,
    now_ms: u64,
    after: SafetyIsland,
    r: ReactionView,
)
    requires
        reacts(n, before, Some(Callback::Message(source)), input, now_ms, after, r),
    ensures
        declarations(n).contains(Declaration::Subscription { source }) ==> before.takes(
            source,
            input,
            now_ms,
            after,
        ),
        declarations(n).contains(Declaration::Subscription { source }) && source
            == Source::Heartbeat ==> r == ReactionView::Deal(Chore::FeedWatchdog { now_ms }),
        declarations(n).contains(Declaration::Subscription { source }) && source
            == Source::VelocityStatus && input is VelocityReport ==> r == ReactionView::Deal(
            Chore::SenseVelocity,
        ),
        source != Source::Heartbeat && source != Source::VelocityStatus ==> r is Nothing,
        !declarations(n).contains(Declaration::Subscription { source }) ==> after == before
            && r is Nothing,
{
    law_nodes_listen_to_what_they_declare(n, source);
    if listener_of(source) == n {
        law_what_is_left_to_do(before, source, input, now_ms, after);
    }
}

/// A request is served and answered by the node that has declared a server for it, and by no
/// other. What it asks for is what came with it.
pub proof fn law_requests_reach_the_island(
    n: NodeId,
    before: SafetyIsland,
    service: Service,
    input: Input,
    now_ms: u64,
    after: SafetyIsland,
    r: ReactionView,
)
    requires
        reacts(n, before, Some(Callback::Request(service)), input, now_ms, after, r),
    ensures
        declarations(n).contains(Declaration::Server(service)) ==> {
            let flag = match input {
                Input::Flag(on) => Some(on),
                _ => None,
            };
            &&& after == before.served(service, flag)
            &&& r == ReactionView::Reply(response(service))
        },
        !declarations(n).contains(Declaration::Server(service)) ==> after == before
            && r is Nothing,
{
    law_nodes_serve_what_they_declare(n, service);
}

/// On its tick the command gate runs the chain, a node without a timer does nothing, and every
/// other node publishes: on each topic that it has declared, once, the message that the last
/// pass gave for that topic.
pub proof fn law_ticks_publish_the_last_pass(
    n: NodeId,
    before: SafetyIsland,
    input: Input,
    now_ms: u64,
    after: SafetyIsland,
    r: ReactionView,
    topic: Topic,
)
    requires
        reacts(n, before, Some(Callback::Tick), input, now_ms, after, r),
    ensures
        n == NodeId::VehicleCmdGate ==> r == (ReactionView::RunChain { now_ms }),
        n == NodeId::VelocityConverter || n == NodeId::Controller ==> r is Nothing,
        n != NodeId::VehicleCmdGate && n != NodeId::VelocityConverter && n != NodeId::Controller
            ==> {
            &&& r matches ReactionView::Publish(published)
            &&& published.contains(
                Publication { topic, message: content(topic, before.last_outputs) },
            ) <==> declarations(n).contains(Declaration::Publisher(topic))
            &&& forall|i: int|
                0 <= i < published.len() && (#[trigger] published[i]).topic == topic
                    ==> published[i].message == content(topic, before.last_outputs)
            &&& forall|i: int, j: int|
                0 <= i < j < published.len() ==> (#[trigger] published[i]).topic != (
                #[trigger] published[j]).topic
        },
{
    let o = before.last_outputs;
    law_nodes_publish_what_they_declare(n, topic);
    lemma_contents_of_topics(tick_topics(n), o, topic);
}

proof fn lemma_contents_of_topics(topics: Seq<Topic>, o: ChainOutputs, topic: Topic)
    ensures
        contents(topics, o).contains(Publication { topic, message: content(topic, o) })
            <==> topics.contains(topic),
{
    let publication = Publication { topic, message: content(topic, o) };
    let all = contents(topics, o);
    if topics.contains(topic) {
        let i = choose|i: int| 0 <= i < topics.len() && topics[i] == topic;
        assert(all[i] == publication);
    }
    if all.contains(publication) {
        let i = choose|i: int| 0 <= i < all.len() && all[i] == publication;
        assert(topics[i] == topic);
    }
}

/// After the pass that it ran, the command gate publishes what the pass gave, on each topic
/// that it has declared; so the vehicle gets the command that was let through in that pass.
pub proof fn law_gate_publishes_after_its_pass(o: ChainOutputs, topic: Topic)
    ensures
        ({
            let published = contents(tick_topics(NodeId::VehicleCmdGate), o);
            &&& published.contains(
                Publication { topic: Topic::ControlCmd, message: Message::Control(o.gate_control) },
            )
            &&& published.contains(
                Publication { topic: Topic::GearCmd, message: Message::GearCommand(o.gate_gear) },
            )
            &&& published.contains(
                Publication {
                    topic: Topic::TurnIndicatorsCmd,
                    message: Message::TurnIndicatorsCommand(o.gate_turn),
                },
            )
            &&& published.contains(
                Publication {
                    topic: Topic::HazardLightsCmd,
                    message: Message::HazardLightsCommand(o.mrm_hazard),
                },
            )
            &&& published.contains(Publication { topic, message: content(topic, o) })
                <==> declarations(NodeId::VehicleCmdGate).contains(Declaration::Publisher(topic))
        }),
{
    let topics = tick_topics(NodeId::VehicleCmdGate);
    law_nodes_publish_what_they_declare(NodeId::VehicleCmdGate, Topic::ControlCmd);
    law_nodes_publish_what_they_declare(NodeId::VehicleCmdGate, Topic::GearCmd);
    law_nodes_publish_what_they_declare(NodeId::VehicleCmdGate, Topic::TurnIndicatorsCmd);
    law_nodes_publish_what_they_declare(NodeId::VehicleCmdGate, Topic::HazardLightsCmd);
    law_nodes_publish_what_they_declare(NodeId::VehicleCmdGate, topic);
    lemma_contents_of_topics(topics, o, Topic::ControlCmd);
    lemma_contents_of_topics(topics, o, Topic::GearCmd);
    lemma_contents_of_topics(topics, o, Topic::TurnIndicatorsCmd);
    lemma_contents_of_topics(topics, o, Topic::HazardLightsCmd);
    lemma_contents_of_topics(topics, o, topic);
}

} // verus!
