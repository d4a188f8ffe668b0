use autoware_sentinel::endpoints::{Features, Service, Source};
use autoware_sentinel::log_lines::{after_service, after_subscription, on_served};
use autoware_sentinel::wiring::{services, sources};

#[test]
fn subscriptions_of_a_full_build_are_logged() {
    let lines: Vec<&str> = sources(&Features::full())
        .into_iter()
        .filter_map(after_subscription)
        .collect();
    assert_eq!(
        lines,
        vec![
            "Subscribed: /vehicle/status/velocity_status",
            "Subscribed: /api/system/heartbeat",
            "Subscribed: control_cmd",
            "Subscribed: /autoware/state",
            "Subscribed: /vehicle/status/gear_status",
            "Subscribed: trajectory, odometry, steering, acceleration (controller inputs)",
        ]
    );
    assert_eq!(after_subscription(Source::Trajectory), None);
}

#[test]
fn services_of_a_full_build_are_logged() {
    let lines: Vec<&str> = services(&Features::full())
        .into_iter()
        .filter_map(after_service)
        .collect();
    assert_eq!(
        lines,
        vec![
            "Service: /api/operation_mode/change_to_autonomous",
            "Service: /api/autoware/set/engage",
            "Service: /api/autoware/set/emergency",
            "Services: vehicle_cmd_gate (external_emergency_stop, clear_external_emergency_stop, \
             config_logger, set_stop)",
            "Services: /control/control_mode_request, \
             /api/operation_mode/{stop,local,remote,enable,disable}",
            "Services: /system/mrm/{emergency,comfortable,pull_over}/operate",
            "Services: Phase 12 gap-closure stubs (6 services)",
        ]
    );
    assert_eq!(after_service(Service::ChangeToStop), None);
}

#[test]
fn requests_that_change_something_are_logged() {
    assert_eq!(
        on_served(Service::ChangeToAutonomous, None),
        Some("ChangeOperationMode: STOP → AUTONOMOUS")
    );
    assert_eq!(on_served(Service::ChangeToStop, None), Some("ChangeOperationMode: → STOP"));
    assert_eq!(on_served(Service::SetEngage, Some(true)), Some("set/engage: ENGAGED"));
    assert_eq!(on_served(Service::SetEngage, Some(false)), Some("set/engage: DISENGAGED"));
    assert_eq!(on_served(Service::SetEngage, None), None);
    assert_eq!(on_served(Service::SetEmergency, Some(true)), Some("set/emergency: EMERGENCY SET"));
    assert_eq!(
        on_served(Service::SetEmergency, Some(false)),
        Some("set/emergency: EMERGENCY CLEARED")
    );
    assert_eq!(
        on_served(Service::ExternalEmergencyStop, None),
        Some("external_emergency_stop: TRIGGERED")
    );
    assert_eq!(
        on_served(Service::ClearExternalEmergencyStop, None),
        Some("external_emergency_stop: CLEARED")
    );
    assert_eq!(on_served(Service::SetStop, None), None);
}
