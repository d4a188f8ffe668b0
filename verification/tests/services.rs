use autoware_sentinel::endpoints::{Service, ServiceInterface};
use autoware_sentinel::island::SafetyIsland;
use autoware_sentinel::messages::{Response, ResponseStatus};
use autoware_sentinel::params::default_params;

fn island() -> SafetyIsland {
    SafetyIsland::new(default_params(false), 4).0
}

#[test]
fn every_service_has_its_answer() {
    let granted = ResponseStatus { success: true, code: 0 };
    let refused = ResponseStatus { success: false, code: 1 };
    let mode = Response::ChangeOperationMode;
    let expected = [
        (Service::ChangeToAutonomous, mode(granted)),
        (Service::SetEngage, Response::Engage { code: 1 }),
        (Service::SetEmergency, Response::SetEmergency { code: 1 }),
        (Service::ExternalEmergencyStop, Response::Trigger { success: true }),
        (Service::ClearExternalEmergencyStop, Response::Trigger { success: true }),
        (Service::ConfigLogger, Response::ConfigLogger { success: true }),
        (Service::SetStop, Response::Unset(ServiceInterface::SetStop)),
        (Service::ControlModeRequest, Response::ControlModeCommand { success: true }),
        (Service::ChangeToStop, mode(granted)),
        (Service::ChangeToLocal, mode(refused)),
        (Service::ChangeToRemote, mode(refused)),
        (Service::EnableAutowareControl, mode(granted)),
        (Service::DisableAutowareControl, mode(refused)),
        (Service::OperateComfortableStop, Response::Unset(ServiceInterface::OperateMrm)),
        (Service::OperateEmergencyStop, Response::Unset(ServiceInterface::OperateMrm)),
        (Service::OperatePullOver, Response::Unset(ServiceInterface::OperateMrm)),
        (Service::InterfaceVersion, Response::InterfaceVersion { major: 1, minor: 5, patch: 0 }),
        (Service::ResetDiagnostics, Response::ResetDiagGraph(granted)),
        (Service::Shutdown, Response::Trigger { success: true }),
        (Service::ResetDiagnosticsGraph, Response::Unset(ServiceInterface::ResetDiagGraphTier4)),
        (Service::SetInitializing, Response::SetBool { success: true }),
        (Service::ChangeAutowareControl, Response::Unset(ServiceInterface::ChangeAutowareControl)),
    ];
    assert_eq!(expected.len(), Service::all().len());
    for (k, service) in Service::all().into_iter().enumerate() {
        assert_eq!(expected[k].0, service);
        assert_eq!(island().serve(service, None), expected[k].1);
        assert_eq!(island().serve(service, Some(true)), expected[k].1);
    }
}

#[test]
fn engagement_follows_requests() {
    let mut i = island();
    i.serve(Service::ChangeToAutonomous, None);
    assert!(i.autonomous_engaged);
    i.serve(Service::ChangeToStop, None);
    assert!(!i.autonomous_engaged);
    i.serve(Service::SetEngage, Some(true));
    assert!(i.autonomous_engaged);
    i.serve(Service::SetEngage, None);
    assert!(i.autonomous_engaged);
    i.serve(Service::SetEngage, Some(false));
    assert!(!i.autonomous_engaged);
    assert!(!i.external_emergency_stop);
}

#[test]
fn emergency_follows_requests() {
    let mut i = island();
    i.serve(Service::ExternalEmergencyStop, None);
    assert!(i.external_emergency_stop);
    i.serve(Service::ClearExternalEmergencyStop, None);
    assert!(!i.external_emergency_stop);
    i.serve(Service::SetEmergency, Some(true));
    assert!(i.external_emergency_stop);
    i.serve(Service::SetEmergency, None);
    assert!(i.external_emergency_stop);
    i.serve(Service::SetEmergency, Some(false));
    assert!(!i.external_emergency_stop);
    assert!(!i.autonomous_engaged);
}

#[test]
fn other_requests_change_nothing() {
    for service in Service::all() {
        if matches!(
            service,
            Service::ChangeToAutonomous
                | Service::SetEngage
                | Service::ExternalEmergencyStop
                | Service::SetEmergency
        ) {
            continue;
        }
        let mut i = island();
        i.serve(service, Some(true));
        assert!(!i.autonomous_engaged && !i.external_emergency_stop);
    }
}

#[test]
fn services_are_found_by_name() {
    for service in Service::all() {
        assert_eq!(Service::from_name(service.name()), Some(service));
    }
    assert_eq!(
        Service::from_name("/api/operation_mode/change_to_stop"),
        Some(Service::ChangeToStop)
    );
    assert_eq!(Service::from_name("/api/operation_mode/change_to_sto"), None);
    assert_eq!(Service::from_name(""), None);
}
