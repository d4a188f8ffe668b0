//! What the log says while the island is wired and serves requests.

use vstd::prelude::*;

use crate::endpoints::{Service, Source};
use crate::pass::{emergency_request, engagement_request};

verus! {

/// What the log says after a subscription; those of the trajectory follower share a line.
#[verifier::allow_in_spec]
pub fn after_subscription(source: Source) -> Option<&'static str>
    returns
        (match source {
            Source::VelocityStatus => Some("Subscribed: /vehicle/status/velocity_status"),
            Source::Heartbeat => Some("Subscribed: /api/system/heartbeat"),
            Source::FollowerControl => Some("Subscribed: control_cmd"),
            Source::AutowareState => Some("Subscribed: /autoware/state"),
            Source::GearStatus => Some("Subscribed: /vehicle/status/gear_status"),
            Source::Acceleration => Some(
                "Subscribed: trajectory, odometry, steering, acceleration (controller inputs)",
            ),
            Source::Trajectory | Source::KinematicState | Source::SteeringStatus => None,
        }),
{
    match source {
        Source::VelocityStatus => Some("Subscribed: /vehicle/status/velocity_status"),
        Source::Heartbeat => Some("Subscribed: /api/system/heartbeat"),
        Source::FollowerControl => Some("Subscribed: control_cmd"),
        Source::AutowareState => Some("Subscribed: /autoware/state"),
        Source::GearStatus => Some("Subscribed: /vehicle/status/gear_status"),
        Source::Acceleration => Some(
            "Subscribed: trajectory, odometry, steering, acceleration (controller inputs)",
        ),
        Source::Trajectory | Source::KinematicState | Source::SteeringStatus => None,
    }
}

/// What the log says after a service was added; the last of a component speaks for those
/// that have no line of their own.
#[verifier::allow_in_spec]
pub fn after_service(service: Service) -> Option<&'static str>
    returns
        (match service {
            Service::ChangeToAutonomous => Some(
                "Service: /api/operation_mode/change_to_autonomous",
            ),
            Service::SetEngage => Some("Service: /api/autoware/set/engage"),
            Service::SetEmergency => Some("Service: /api/autoware/set/emergency"),
            Service::SetStop => Some(
                "Services: vehicle_cmd_gate (external_emergency_stop, clear_external_emergency_stop, config_logger, set_stop)",
            ),
            Service::DisableAutowareControl => Some(
                "Services: /control/control_mode_request, /api/operation_mode/{stop,local,remote,enable,disable}",
            ),
            Service::OperatePullOver => Some(
                "Services: /system/mrm/{emergency,comfortable,pull_over}/operate",
            ),
            Service::ChangeAutowareControl => Some(
                "Services: Phase 12 gap-closure stubs (6 services)",
            ),
            _ => None,
        }),
{
    match service {
        Service::ChangeToAutonomous => Some("Service: /api/operation_mode/change_to_autonomous"),
        Service::SetEngage => Some("Service: /api/autoware/set/engage"),
        Service::SetEmergency => Some("Service: /api/autoware/set/emergency"),
        Service::SetStop => Some(
            "Services: vehicle_cmd_gate (external_emergency_stop, clear_external_emergency_stop, config_logger, set_stop)",
        ),
        Service::DisableAutowareControl => Some(
            "Services: /control/control_mode_request, /api/operation_mode/{stop,local,remote,enable,disable}",
        ),
        Service::OperatePullOver => Some(
            "Services: /system/mrm/{emergency,comfortable,pull_over}/operate",
        ),
        Service::ChangeAutowareControl => Some("Services: Phase 12 gap-closure stubs (6 services)"),
        _ => None,
    }
}

/// What the log says when a request is served. Requests that change nothing are not logged.
#[verifier::allow_in_spec]
pub fn on_served(service: Service, flag: Option<bool>) -> Option<&'static str>
    returns
        (match service {
            Service::ChangeToAutonomous => Some("ChangeOperationMode: STOP → AUTONOMOUS"),
            Service::ChangeToStop => Some("ChangeOperationMode: → STOP"),
            Service::SetEngage => match flag {
                Some(true) => Some("set/engage: ENGAGED"),
                Some(false) => Some("set/engage: DISENGAGED"),
                None => None,
            },
            Service::SetEmergency => match flag {
                Some(true) => Some("set/emergency: EMERGENCY SET"),
                Some(false) => Some("set/emergency: EMERGENCY CLEARED"),
                None => None,
            },
            Service::ExternalEmergencyStop => Some("external_emergency_stop: TRIGGERED"),
            Service::ClearExternalEmergencyStop => Some("external_emergency_stop: CLEARED"),
            _ => None,
        }),
{
    match service {
        Service::ChangeToAutonomous => Some("ChangeOperationMode: STOP → AUTONOMOUS"),
        Service::ChangeToStop => Some("ChangeOperationMode: → STOP"),
        Service::SetEngage => match flag {
            Some(true) => Some("set/engage: ENGAGED"),
            Some(false) => Some("set/engage: DISENGAGED"),
            None => None,
        },
        Service::SetEmergency => match flag {
            Some(true) => Some("set/emergency: EMERGENCY SET"),
            Some(false) => Some("set/emergency: EMERGENCY CLEARED"),
            None => None,
        },
        Service::ExternalEmergencyStop => Some("external_emergency_stop: TRIGGERED"),
        Service::ClearExternalEmergencyStop => Some("external_emergency_stop: CLEARED"),
        _ => None,
    }
}

/// The log has a line for a request exactly if the request asks for something: to engage or
/// disengage, or to assert or clear the external emergency stop.
pub proof fn law_requests_that_ask_for_something_are_logged(service: Service, flag: Option<bool>)
    ensures
        on_served(service, flag) is Some <==> engagement_request(service, flag) is Some
            || emergency_request(service, flag) is Some,
{
}

/// Opposite requests are logged differently.
pub proof fn law_opposite_requests_are_told_apart(service: Service, other: Service, on: bool)
    requires
        engagement_request(service, Some(on)) is Some && engagement_request(other, Some(!on))
            is Some && engagement_request(service, Some(on)) != engagement_request(
            other,
            Some(!on),
        ) || emergency_request(service, Some(on)) is Some && emergency_request(other, Some(!on))
            is Some && emergency_request(service, Some(on)) != emergency_request(
            other,
            Some(!on),
        ),
    ensures
        on_served(service, Some(on))->0@ != on_served(other, Some(!on))->0@,
{
    let a = on_served(service, Some(on))->0@;
    let b = on_served(other, Some(!on))->0@;
    reveal_strlit("ChangeOperationMode: STOP → AUTONOMOUS");
    reveal_strlit("ChangeOperationMode: → STOP");
    reveal_strlit("set/engage: ENGAGED");
    reveal_strlit("set/engage: DISENGAGED");
    reveal_strlit("set/emergency: EMERGENCY SET");
    reveal_strlit("set/emergency: EMERGENCY CLEARED");
    reveal_strlit("external_emergency_stop: TRIGGERED");
    reveal_strlit("external_emergency_stop: CLEARED");
    assert(a.len() != b.len());
}

/// What a request says of on or off matters to the log only where it asks for that.
pub proof fn law_log_goes_by_what_is_asked_for(service: Service, flag: Option<bool>)
    requires
        service != Service::SetEngage,
        service != Service::SetEmergency,
    ensures
        on_served(service, flag) == on_served(service, None),
{
}

} // verus!
