use autoware_sentinel::chain::{ChainOutputs, CONTROL_PERIOD_MS};
use autoware_sentinel::endpoints::{Service, Source, Topic};
use autoware_sentinel::inputs::{Chore, Input};
use autoware_sentinel::island::SafetyIsland;
use autoware_sentinel::messages::{AutowareState, Control, GearReport, Response, ResponseStatus, Time};
use autoware_sentinel::nodes::{
    ensure_island_default, Callback, ControlValidatorNode, ControllerNode, Declaration,
    DefaultAdapiNode, EmergencyStopOperatorNode, MrmHandlerNode, NodePlan, OperationModeNode,
    Reaction, ShiftDeciderNode, SystemMonitorNode, VehicleCmdGateNode, VelocityConverterNode,
};
use autoware_sentinel::number::Real;
use autoware_sentinel::params::default_params;
use autoware_sentinel::publish::message_for;

type Handler = fn(&mut SafetyIsland, &str, Input, u64) -> Reaction;

fn island() -> SafetyIsland {
    let mut i = SafetyIsland::new(default_params(true), 4).0;
    i.last_outputs = ChainOutputs {
        auto_gear: 2,
        is_emergency: true,
        estop_operating: true,
        ..ChainOutputs::unset()
    };
    i
}

fn nodes() -> Vec<(NodePlan, Handler)> {
    vec![
        (VelocityConverterNode::register(), VelocityConverterNode::on_callback),
        (MrmHandlerNode::register(), MrmHandlerNode::on_callback),
        (EmergencyStopOperatorNode::register(), EmergencyStopOperatorNode::on_callback),
        (VehicleCmdGateNode::register(), VehicleCmdGateNode::on_callback),
        (ShiftDeciderNode::register(), ShiftDeciderNode::on_callback),
        (ControlValidatorNode::register(), ControlValidatorNode::on_callback),
        (OperationModeNode::register(), OperationModeNode::on_callback),
        (DefaultAdapiNode::register(), DefaultAdapiNode::on_callback),
        (ControllerNode::register(), ControllerNode::on_callback),
        (SystemMonitorNode::register(), SystemMonitorNode::on_callback),
    ]
}

fn publishers(plan: &NodePlan) -> Vec<Topic> {
    plan.declarations
        .iter()
        .filter_map(|d| match d {
            Declaration::Publisher(t) => Some(*t),
            _ => None,
        })
        .collect()
}

#[test]
fn nodes_have_their_full_names() {
    let names: Vec<(Option<&str>, &str)> =
        nodes().iter().map(|(plan, _)| (plan.namespace, plan.name)).collect();
    assert_eq!(
        names,
        vec![
            (None, "vehicle_velocity_converter"),
            (Some("/system"), "mrm_handler"),
            (Some("/system"), "mrm_emergency_stop_operator"),
            (Some("/control"), "vehicle_cmd_gate"),
            (Some("/control"), "autoware_shift_decider"),
            (Some("/control"), "control_validator"),
            (Some("/control"), "autoware_operation_mode_transition_manager"),
            (Some("/adapi"), "default_adapi"),
            (Some("/control/trajectory_follower"), "controller_node_exe"),
            (Some("/system"), "system_monitor"),
        ]
    );
}

#[test]
fn only_the_last_node_announces() {
    for (plan, _) in nodes() {
        let expected = if plan.name == "system_monitor" {
            Some("sentinel graph registered")
        } else {
            None
        };
        assert_eq!(plan.announcement, expected);
    }
}

#[test]
fn mrm_handler_declares_in_order() {
    assert_eq!(
        MrmHandlerNode::register().declarations,
        vec![
            Declaration::Subscription { source: Source::Heartbeat },
            Declaration::Reads { source: Source::Heartbeat },
            Declaration::Publisher(Topic::MrmState),
            Declaration::Publisher(Topic::EmergencyGearCmd),
            Declaration::Publisher(Topic::EmergencyHazardLightsCmd),
            Declaration::Publisher(Topic::EmergencyTurnIndicatorsCmd),
            Declaration::Publisher(Topic::EmergencyHolding),
            Declaration::Timer { period_ms: CONTROL_PERIOD_MS },
            Declaration::TickPublishes { topic: Topic::MrmState },
            Declaration::TickPublishes { topic: Topic::EmergencyGearCmd },
            Declaration::TickPublishes { topic: Topic::EmergencyHazardLightsCmd },
            Declaration::TickPublishes { topic: Topic::EmergencyTurnIndicatorsCmd },
            Declaration::TickPublishes { topic: Topic::EmergencyHolding },
        ]
    );
}

#[test]
fn ticks_publish_what_was_declared() {
    for (plan, on_callback) in nodes() {
        let mut i = island();
        let declared = publishers(&plan);
        match on_callback(&mut i, "on_tick", Input::Unreadable, 50) {
            Reaction::Publish(publications) => {
                assert_eq!(publications.len(), declared.len());
                for p in &publications {
                    assert!(declared.contains(&p.topic));
                    assert_eq!(p.message, message_for(p.topic, &i.last_outputs));
                }
            }
            Reaction::RunChain { now_ms } => {
                assert_eq!((plan.name, now_ms), ("vehicle_cmd_gate", 50));
            }
            other => {
                assert_eq!(other, Reaction::Nothing);
                assert!(declared.is_empty());
            }
        }
        assert_eq!(i.last_outputs, island().last_outputs);
    }
}

#[test]
fn gate_publishes_after_the_chain() {
    let published = VehicleCmdGateNode::after_chain(&island().last_outputs);
    let topics: Vec<Topic> = published.iter().map(|p| p.topic).collect();
    assert_eq!(topics, publishers(&VehicleCmdGateNode::register()));
    assert_eq!(topics.len(), 16);
    for p in &published {
        assert_eq!(p.message, message_for(p.topic, &island().last_outputs));
    }
}

#[test]
fn each_topic_has_one_publisher() {
    let mut all: Vec<Topic> = Vec::new();
    for (plan, _) in nodes() {
        for t in publishers(&plan) {
            assert!(!all.contains(&t));
            all.push(t);
        }
    }
    assert_eq!(all.len(), 49);
}

#[test]
fn requests_are_answered_by_their_server_alone() {
    let mut served = 0;
    for service in Service::all() {
        for (plan, on_callback) in nodes() {
            let mut i = island();
            let reaction = on_callback(&mut i, service.name(), Input::Flag(true), 1);
            if plan.declarations.contains(&Declaration::Server(service)) {
                served += 1;
                assert_eq!(reaction, Reaction::Reply(island().serve(service, Some(true))));
            } else {
                assert_eq!(reaction, Reaction::Nothing);
                assert!(!i.autonomous_engaged && !i.external_emergency_stop);
            }
        }
    }
    assert_eq!(served, 20);
}

#[test]
fn operation_mode_node_engages() {
    let mut i = island();
    let granted = Response::ChangeOperationMode(ResponseStatus { success: true, code: 0 });
    let r = OperationModeNode::on_callback(
        &mut i,
        "/api/operation_mode/change_to_autonomous",
        Input::Unreadable,
        1,
    );
    assert_eq!(r, Reaction::Reply(granted));
    assert!(i.autonomous_engaged);
    OperationModeNode::on_callback(
        &mut i,
        "/api/operation_mode/change_to_stop",
        Input::Unreadable,
        1,
    );
    assert!(!i.autonomous_engaged);
}

#[test]
fn unreadable_engage_request_is_acknowledged_but_ignored() {
    let mut i = island();
    let r = DefaultAdapiNode::on_callback(&mut i, "/api/autoware/set/engage", Input::Unreadable, 1);
    assert_eq!(r, Reaction::Reply(Response::Engage { code: 1 }));
    assert!(!i.autonomous_engaged);
    DefaultAdapiNode::on_callback(&mut i, "/api/autoware/set/engage", Input::Flag(true), 1);
    assert!(i.autonomous_engaged);
}

#[test]
fn messages_go_to_their_listener() {
    let mut i = island();
    assert_eq!(
        VelocityConverterNode::on_callback(&mut i, "on_velocity", Input::VelocityReport, 1),
        Reaction::Deal(Chore::SenseVelocity)
    );
    assert_eq!(
        VelocityConverterNode::on_callback(&mut i, "on_velocity", Input::Unreadable, 1),
        Reaction::Nothing
    );
    assert_eq!(
        MrmHandlerNode::on_callback(&mut i, "on_heartbeat", Input::Unreadable, 7),
        Reaction::Deal(Chore::FeedWatchdog { now_ms: 7 })
    );
    let control = Control { stamp: Time { sec: 4, nanosec: 0 }, ..Control::unset() };
    VehicleCmdGateNode::on_callback(&mut i, "on_control", Input::Control(control), 8);
    assert_eq!((i.auto_control, i.last_external_control_ms), (control, 8));
    let state = AutowareState { stamp: Time::unset(), state: 3 };
    ShiftDeciderNode::on_callback(&mut i, "on_state", Input::AutowareState(state), 8);
    assert_eq!(i.autoware_state, state);
    let gear = GearReport { stamp: Time::unset(), report: 4 };
    ShiftDeciderNode::on_callback(&mut i, "on_gear", Input::GearReport(gear), 8);
    assert_eq!(i.gear_report, gear);
    ControllerNode::on_callback(&mut i, "on_trajectory", Input::Trajectory(&[]), 8);
    assert!(i.has_trajectory);
    ControllerNode::on_callback(&mut i, "on_steering", Input::Steering(Real::plus(1, 1)), 8);
    assert_eq!(i.input.current_steer, Real::plus(1, 1));
    ControllerNode::on_callback(&mut i, "on_accel", Input::Acceleration(Real::plus(2, 1)), 8);
    assert_eq!(i.input.current_accel, Real::plus(2, 1));
}

#[test]
fn callbacks_of_other_nodes_are_ignored() {
    let mut i = island();
    let control = Input::Control(Control::unset());
    assert_eq!(MrmHandlerNode::on_callback(&mut i, "on_control", control, 1), Reaction::Nothing);
    assert!(!i.has_external_control);
    for (_, on_callback) in nodes() {
        assert_eq!(on_callback(&mut i, "on_tock", Input::Flag(true), 1), Reaction::Nothing);
        assert_eq!(on_callback(&mut i, "", Input::Flag(true), 1), Reaction::Nothing);
    }
}

#[test]
fn callbacks_are_found_by_name() {
    assert_eq!(Callback::from_name("on_tick"), Some(Callback::Tick));
    assert_eq!(
        Callback::from_name("on_accel"),
        Some(Callback::Message(Source::Acceleration))
    );
    assert_eq!(
        Callback::from_name("/autoware/shutdown"),
        Some(Callback::Request(Service::Shutdown))
    );
    assert_eq!(Callback::from_name("/autoware/state"), None);
}

#[test]
fn first_node_makes_the_island() {
    let mut shared: Option<SafetyIsland> = None;
    let setup = ensure_island_default(&mut shared, false, 7).unwrap();
    assert_eq!(setup.watchdog_timeout_ms, 60000);
    let made = shared.as_mut().unwrap();
    assert_eq!(made.trajectory_capacity, 7);
    assert!(!made.controller);
    made.set_engaged(true);
    assert!(ensure_island_default(&mut shared, true, 9).is_none());
    let kept = shared.unwrap();
    assert!(kept.autonomous_engaged && !kept.controller);
    assert_eq!(kept.trajectory_capacity, 7);
}
