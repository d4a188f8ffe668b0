use autoware_sentinel::chain::{ChainOutputs, ValidatorStatus};
use autoware_sentinel::endpoints::{Features, Interface, Topic};
use autoware_sentinel::messages::{
    AutowareState, Control, GearCommand, HazardLightsCommand, Message, MrmState,
    OperationModeAvailability, OperationModeState, Time, TurnIndicatorsCommand,
};
use autoware_sentinel::number::Real;
use autoware_sentinel::publish::{message_for, publications};

fn outputs() -> ChainOutputs {
    ChainOutputs {
        mrm_state: MrmState { stamp: Time::unset(), state: 1, behavior: 2 },
        mrm_gear: GearCommand { stamp: Time::unset(), command: 3 },
        mrm_hazard: HazardLightsCommand { stamp: Time::unset(), command: 4 },
        gate_control: Control { stamp: Time { sec: 5, nanosec: 0 }, ..Control::unset() },
        gate_gear: GearCommand { stamp: Time::unset(), command: 6 },
        gate_turn: TurnIndicatorsCommand { stamp: Time::unset(), command: 7 },
        auto_gear: 8,
        op_mode_state: OperationModeState { mode: 2, ..OperationModeState::unset() },
        autonomous_engaged: true,
        is_emergency: true,
        is_stopped: true,
        estop_operating: true,
        comfy_operating: false,
        current_velocity: Real::plus(9, 0),
        cv: ValidatorStatus {
            is_rolling_back: true,
            steering_rate: Real::plus(1, 1),
            invalid_count: 10,
            ..ValidatorStatus::unset()
        },
    }
}

fn of(topic: Topic) -> Message {
    message_for(topic, &outputs())
}

#[test]
fn driving_commands_come_from_gate_and_handler() {
    let o = outputs();
    assert_eq!(of(Topic::MrmState), Message::MrmState(o.mrm_state));
    assert_eq!(of(Topic::HazardLightsCmd), Message::HazardLightsCommand(o.mrm_hazard));
    assert_eq!(of(Topic::GearCmd), Message::GearCommand(o.gate_gear));
    assert_eq!(of(Topic::ControlCmd), Message::Control(o.gate_control));
    assert_eq!(of(Topic::TurnIndicatorsCmd), Message::TurnIndicatorsCommand(o.gate_turn));
    assert_eq!(of(Topic::EmergencyGearCmd), Message::GearCommand(o.mrm_gear));
    assert_eq!(of(Topic::EmergencyHazardLightsCmd), Message::HazardLightsCommand(o.mrm_hazard));
    assert_eq!(
        of(Topic::EmergencyTurnIndicatorsCmd),
        Message::TurnIndicatorsCommand(TurnIndicatorsCommand::unset())
    );
    assert_eq!(
        of(Topic::ShiftDeciderGearCmd),
        Message::GearCommand(GearCommand { stamp: Time::unset(), command: 8 })
    );
}

#[test]
fn stop_manoeuvres_report_whether_they_operate() {
    let stamp = Time::unset();
    assert_eq!(of(Topic::EmergencyStopStatus), Message::MrmBehaviorStatus { stamp, state: 2 });
    assert_eq!(of(Topic::ComfortableStopStatus), Message::MrmBehaviorStatus { stamp, state: 1 });
    assert_eq!(of(Topic::PullOverStatus), Message::MrmBehaviorStatus { stamp, state: 1 });
    assert_eq!(
        of(Topic::EmergencyHolding),
        Message::EmergencyHoldingState { stamp, is_holding: false }
    );
}

#[test]
fn operation_mode_reports_agree() {
    let state = Message::OperationModeState(outputs().op_mode_state);
    assert_eq!(of(Topic::ApiOperationMode), state);
    assert_eq!(of(Topic::GateOperationMode), state);
    assert_eq!(of(Topic::SystemOperationMode), state);
    assert_eq!(
        of(Topic::AutonomousAvailable),
        Message::ModeChangeAvailable { stamp: Time::unset(), available: true }
    );
}

#[test]
fn emergency_reports_agree() {
    let stamp = Time::unset();
    for emergency in [false, true] {
        let o = ChainOutputs { is_emergency: emergency, ..outputs() };
        assert_eq!(
            message_for(Topic::EmergencyCmd, &o),
            Message::VehicleEmergencyStamped { stamp, emergency }
        );
        assert_eq!(
            message_for(Topic::ApiEmergency, &o),
            Message::Emergency { stamp, emergency }
        );
    }
}

#[test]
fn gate_status_is_fixed_but_for_standing() {
    let stamp = Time::unset();
    assert_eq!(of(Topic::GateModeCmd), Message::GateMode { data: 0 });
    assert_eq!(of(Topic::CurrentGateMode), Message::GateMode { data: 0 });
    assert_eq!(of(Topic::GateIsStopped), Message::IsStopped { stamp, data: true });
    assert_eq!(of(Topic::GateIsPaused), Message::IsPaused { stamp, data: false });
    assert_eq!(of(Topic::GateIsStartRequested), Message::IsStartRequested { stamp, data: false });
    assert_eq!(of(Topic::FilterFlag), Message::BoolStamped { stamp, data: false });
    assert_eq!(of(Topic::FilterMarker), Message::Unset(Interface::MarkerArray));
    let Message::IsFilterActivated(report) = of(Topic::FilterActivated) else {
        panic!("wrong message");
    };
    assert!(!report.is_activated && !report.is_activated_on_jerk);
}

#[test]
fn engagement_is_always_confirmed() {
    let stamp = Time::unset();
    let idle = ChainOutputs::unset();
    for topic in [Topic::ApiEngage, Topic::AutowareEngage] {
        assert_eq!(message_for(topic, &idle), Message::Engage { stamp, engage: true });
    }
    assert_eq!(
        of(Topic::AutowareState),
        Message::AutowareState(AutowareState { stamp, state: 5 })
    );
}

#[test]
fn validator_report_carries_its_findings() {
    let Message::ControlValidatorStatus(s) = of(Topic::ValidationStatus) else {
        panic!("wrong message");
    };
    assert!(s.is_valid_max_distance_deviation && s.is_valid_latency && s.is_valid_yaw);
    assert!(!s.is_valid_acc && s.is_rolling_back && !s.is_over_velocity);
    assert!(!s.has_overrun_stop_point && !s.will_overrun_stop_point && !s.is_warn_yaw);
    assert_eq!(s.steering_rate, Real::plus(1, 1));
    assert_eq!(s.invalid_count, 10);
    assert_eq!(s.latency, Real::zero());
    let o = ChainOutputs {
        cv: ValidatorStatus { invalid_count: u32::MAX, ..outputs().cv },
        ..outputs()
    };
    assert!(matches!(
        message_for(Topic::ValidationStatus, &o),
        Message::ControlValidatorStatus(s) if s.invalid_count == 4294967295
    ));
}

#[test]
fn transition_report_carries_the_velocity() {
    let Message::OperationModeTransitionManagerDebug(d) = of(Topic::TransitionDebug) else {
        panic!("wrong message");
    };
    assert_eq!(d.current_speed, Real::plus(9, 0));
    assert!(d.is_all_ok && d.in_autoware_control && !d.in_transition);
    assert_eq!(d.speed_deviation, Real::zero());
    assert_eq!(of(Topic::ControlPublishedTime), Message::Unset(Interface::PublishedTime));
}

#[test]
fn monitoring_reports_all_in_order() {
    let available = Message::ModeChangeAvailable { stamp: Time::unset(), available: true };
    for topic in [
        Topic::LaunchControl,
        Topic::LaunchLocalization,
        Topic::LaunchMap,
        Topic::LaunchPerception,
        Topic::LaunchPlanning,
        Topic::LaunchSensing,
        Topic::LaunchSystem,
        Topic::LaunchVehicle,
    ] {
        assert_eq!(of(topic), available);
    }
    assert_eq!(of(Topic::DiagnosticsStatus), Message::Unset(Interface::DiagGraphStatus));
    assert_eq!(of(Topic::DiagnosticsStruct), Message::Unset(Interface::DiagGraphStruct));
    assert_eq!(of(Topic::DiagnosticsUnknowns), Message::Unset(Interface::DiagnosticArray));
    assert_eq!(of(Topic::HazardStatus), Message::Unset(Interface::HazardStatusStamped));
    assert_eq!(
        of(Topic::OperationModeAvailability),
        Message::OperationModeAvailability(OperationModeAvailability {
            stamp: Time::unset(),
            stop: true,
            autonomous: true,
            local: true,
            remote: true,
            emergency_stop: true,
            comfortable_stop: true,
            pull_over: true,
        })
    );
}

#[test]
fn publications_keep_their_order() {
    let f = Features { validator: true, operation_mode: true, engagement: true, ..Features::core_only() };
    let published: Vec<Topic> = publications(&f, &outputs()).iter().map(|p| p.topic).collect();
    assert_eq!(
        published,
        vec![
            Topic::MrmState,
            Topic::HazardLightsCmd,
            Topic::GearCmd,
            Topic::ControlCmd,
            Topic::TurnIndicatorsCmd,
            Topic::ApiOperationMode,
            Topic::ApiEngage,
            Topic::AutowareEngage,
            Topic::AutowareState,
            Topic::ApiEmergency,
            Topic::ValidatorDebugMarker,
            Topic::ValidatorOutputMarkers,
            Topic::ValidatorVirtualWall,
            Topic::ValidationStatus,
            Topic::TransitionDebug,
            Topic::ControlPublishedTime,
            Topic::AutonomousAvailable,
        ]
    );
    for p in publications(&f, &outputs()) {
        assert_eq!(p.message, of(p.topic));
    }
}
