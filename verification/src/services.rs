//! How the island answers service requests.

use vstd::prelude::*;

use crate::endpoints::{
    law_service_is_found_by_name, service_named, Service, ServiceInterface,
};
use crate::island::SafetyIsland;
use crate::messages::{Response, ResponseStatus};

verus! {

/// Success, as external tools are told.
pub const TIER4_RESPONSE_SUCCESS: u32 = 1;

/// The answer to a request of a service. It does not depend on the request, nor on what
/// the island knows.
pub open spec fn response(service: Service) -> Response {
    match service {
        Service::ChangeToAutonomous
        | Service::ChangeToStop
        | Service::EnableAutowareControl => Response::ChangeOperationMode(
            ResponseStatus::granted(),
        ),
        Service::ChangeToLocal
        | Service::ChangeToRemote
        | Service::DisableAutowareControl => Response::ChangeOperationMode(
            ResponseStatus::refused(),
        ),
        Service::SetEngage => Response::Engage { code: TIER4_RESPONSE_SUCCESS },
        Service::SetEmergency => Response::SetEmergency { code: TIER4_RESPONSE_SUCCESS },
        Service::ExternalEmergencyStop
        | Service::ClearExternalEmergencyStop
        | Service::Shutdown => Response::Trigger { success: true },
        Service::ConfigLogger => Response::ConfigLogger { success: true },
        Service::ControlModeRequest => Response::ControlModeCommand { success: true },
        Service::InterfaceVersion => Response::InterfaceVersion { major: 1, minor: 5, patch: 0 },
        Service::ResetDiagnostics => Response::ResetDiagGraph(ResponseStatus::granted()),
        Service::SetInitializing => Response::SetBool { success: true },
        Service::SetStop => Response::Unset(ServiceInterface::SetStop),
        Service::OperateComfortableStop
        | Service::OperateEmergencyStop
        | Service::OperatePullOver => Response::Unset(ServiceInterface::OperateMrm),
        Service::ResetDiagnosticsGraph => Response::Unset(ServiceInterface::ResetDiagGraphTier4),
        Service::ChangeAutowareControl => Response::Unset(ServiceInterface::ChangeAutowareControl),
    }
}

impl SafetyIsland {
    /// The island after a request. Engagement and the external emergency stop can be
    /// requested, each in two ways; nothing else changes the island. `flag` is what the
    /// request asks for where it asks for on or off, and absent where the request could not
    /// be read: then it changes nothing.
    pub open spec fn served(self, service: Service, flag: Option<bool>) -> SafetyIsland {
        match service {
            Service::ChangeToAutonomous => SafetyIsland { autonomous_engaged: true, ..self },
            Service::ChangeToStop => SafetyIsland { autonomous_engaged: false, ..self },
            Service::SetEngage => match flag {
                Some(engage) => SafetyIsland { autonomous_engaged: engage, ..self },
                None => self,
            },
            Service::ExternalEmergencyStop => SafetyIsland {
                external_emergency_stop: true,
                ..self
            },
            Service::ClearExternalEmergencyStop => SafetyIsland {
                external_emergency_stop: false,
                ..self
            },
            Service::SetEmergency => match flag {
                Some(emergency) => SafetyIsland { external_emergency_stop: emergency, ..self },
                None => self,
            },
            _ => self,
        }
    }

    /// Serves a request.
    pub fn serve(&mut self, service: Service, flag: Option<bool>) -> (r: Response)
        ensures
            *final(self) == old(self).served(service, flag),
            r == response(service),
    {
        match service {
            Service::ChangeToAutonomous => {
                self.set_engaged(true);
                Response::ChangeOperationMode(ResponseStatus::granted())
            },
            Service::ChangeToStop => {
                self.set_engaged(false);
                Response::ChangeOperationMode(ResponseStatus::granted())
            },
            Service::SetEngage => {
                if let Some(engage) = flag {
                    self.set_engaged(engage);
                }
                Response::Engage { code: TIER4_RESPONSE_SUCCESS }
            },
            Service::SetEmergency => {
                if let Some(emergency) = flag {
                    self.set_external_emergency(emergency);
                }
                Response::SetEmergency { code: TIER4_RESPONSE_SUCCESS }
            },
            Service::ExternalEmergencyStop => {
                self.set_external_emergency(true);
                Response::Trigger { success: true }
            },
            Service::ClearExternalEmergencyStop => {
                self.set_external_emergency(false);
                Response::Trigger { success: true }
            },
            Service::ConfigLogger => Response::ConfigLogger { success: true },
            Service::SetStop => Response::Unset(ServiceInterface::SetStop),
            Service::ControlModeRequest => Response::ControlModeCommand { success: true },
            Service::ChangeToLocal => Response::ChangeOperationMode(ResponseStatus::refused()),
            Service::ChangeToRemote => Response::ChangeOperationMode(ResponseStatus::refused()),
            Service::EnableAutowareControl => Response::ChangeOperationMode(
                ResponseStatus::granted(),
            ),
            Service::DisableAutowareControl => Response::ChangeOperationMode(
                ResponseStatus::refused(),
            ),
            Service::OperateComfortableStop => Response::Unset(ServiceInterface::OperateMrm),
            Service::OperateEmergencyStop => Response::Unset(ServiceInterface::OperateMrm),
            Service::OperatePullOver => Response::Unset(ServiceInterface::OperateMrm),
            Service::InterfaceVersion => Response::InterfaceVersion {
                major: 1,
                minor: 5,
                patch: 0,
            },
            Service::ResetDiagnostics => Response::ResetDiagGraph(ResponseStatus::granted()),
            Service::Shutdown => Response::Trigger { success: true },
            Service::ResetDiagnosticsGraph => Response::Unset(
                ServiceInterface::ResetDiagGraphTier4,
            ),
            Service::SetInitializing => Response::SetBool { success: true },
            Service::ChangeAutowareControl => Response::Unset(
                ServiceInterface::ChangeAutowareControl,
            ),
        }
    }
}

/// Every service answers with a response of its own interface.
pub proof fn law_responses_fit_their_service(service: Service)
    ensures
        response(service).interface() == service.interface(),
{
}

/// A request that is refused changes nothing.
pub proof fn law_refused_requests_change_nothing(
    island: SafetyIsland,
    service: Service,
    flag: Option<bool>,
)
    requires
        response(service) == Response::ChangeOperationMode(ResponseStatus::refused()),
    ensures
        island.served(service, flag) == island,
{
}

/// A request changes at most engagement or the external emergency stop, never both, and
/// nothing else.
pub proof fn law_requests_change_one_flag(
    island: SafetyIsland,
    service: Service,
    flag: Option<bool>,
)
    ensures
        ({
            let after = island.served(service, flag);
            &&& after == (SafetyIsland {
                autonomous_engaged: after.autonomous_engaged,
                external_emergency_stop: after.external_emergency_stop,
                ..island
            })
            &&& after.autonomous_engaged == island.autonomous_engaged
                || after.external_emergency_stop == island.external_emergency_stop
        }),
{
}

/// What one request asserts the other clears: after both, the island is as it would be after
/// the second alone.
pub proof fn law_later_request_counts(island: SafetyIsland, emergency: bool, engage: bool)
    ensures
        island.served(Service::ExternalEmergencyStop, None).served(
            Service::ClearExternalEmergencyStop,
            None,
        ) == island.served(Service::SetEmergency, Some(false)),
        island.served(Service::SetEmergency, Some(emergency)).served(
            Service::ClearExternalEmergencyStop,
            None,
        ) == island.served(Service::ClearExternalEmergencyStop, None),
        island.served(Service::ChangeToAutonomous, None).served(Service::ChangeToStop, None)
            == island.served(Service::SetEngage, Some(false)),
        island.served(Service::ChangeToStop, None).served(Service::SetEngage, Some(engage))
            == island.served(Service::SetEngage, Some(engage)),
{
}

// ---------------------------------------------------------------------------
// Services by their names
// ---------------------------------------------------------------------------

/// The answer of the service of this name, if there is such a service.
pub open spec fn answer(name: Seq<char>) -> Option<Response> {
    match service_named(name) {
        Some(service) => Some(response(service)),
        None => None,
    }
}

/// The island after a request of the service of this name, if there is such a service.
pub open spec fn requested(island: SafetyIsland, name: Seq<char>, flag: Option<bool>) -> Option<
    SafetyIsland,
> {
    match service_named(name) {
        Some(service) => Some(island.served(service, flag)),
        None => None,
    }
}

/// What each service answers. Autonomous and stop mode and control by the driving stack are
/// granted; local and remote mode, and control by anyone else, are refused. The other requests
/// succeed, or are answered without saying anything.
#[verifier::spinoff_prover]
pub proof fn law_services_answer()
    ensures
        answer("/api/operation_mode/change_to_autonomous"@) == Some(
            Response::ChangeOperationMode(ResponseStatus { success: true, code: 0 }),
        ),
        answer("/api/operation_mode/change_to_stop"@) == Some(
            Response::ChangeOperationMode(ResponseStatus { success: true, code: 0 }),
        ),
        answer("/api/operation_mode/enable_autoware_control"@) == Some(
            Response::ChangeOperationMode(ResponseStatus { success: true, code: 0 }),
        ),
        answer("/api/operation_mode/change_to_local"@) == Some(
            Response::ChangeOperationMode(ResponseStatus { success: false, code: 1 }),
        ),
        answer("/api/operation_mode/change_to_remote"@) == Some(
            Response::ChangeOperationMode(ResponseStatus { success: false, code: 1 }),
        ),
        answer("/api/operation_mode/disable_autoware_control"@) == Some(
            Response::ChangeOperationMode(ResponseStatus { success: false, code: 1 }),
        ),
        answer("/api/autoware/set/engage"@) == Some(
            Response::Engage { code: 1 },
        ),
        answer("/api/autoware/set/emergency"@) == Some(
            Response::SetEmergency { code: 1 },
        ),
        answer("/control/vehicle_cmd_gate/external_emergency_stop"@) == Some(
            Response::Trigger { success: true },
        ),
        answer("/control/vehicle_cmd_gate/clear_external_emergency_stop"@) == Some(
            Response::Trigger { success: true },
        ),
        answer("/autoware/shutdown"@) == Some(
            Response::Trigger { success: true },
        ),
        answer("/control/vehicle_cmd_gate/config_logger"@) == Some(
            Response::ConfigLogger { success: true },
        ),
        answer("/control/control_mode_request"@) == Some(
            Response::ControlModeCommand { success: true },
        ),
        answer("/api/interface/version"@) == Some(
            Response::InterfaceVersion { major: 1, minor: 5, patch: 0 },
        ),
        answer("/api/system/diagnostics/reset"@) == Some(
            Response::ResetDiagGraph(ResponseStatus { success: true, code: 0 }),
        ),
        answer("/system/aggregator/set_initializing"@) == Some(
            Response::SetBool { success: true },
        ),
        answer("/control/vehicle_cmd_gate/set_stop"@) == Some(
            Response::Unset(ServiceInterface::SetStop),
        ),
        answer("/system/mrm/comfortable_stop/operate"@) == Some(
            Response::Unset(ServiceInterface::OperateMrm),
        ),
        answer("/system/mrm/emergency_stop/operate"@) == Some(
            Response::Unset(ServiceInterface::OperateMrm),
        ),
        answer("/system/mrm/pull_over_manager/operate"@) == Some(
            Response::Unset(ServiceInterface::OperateMrm),
        ),
        answer("/diagnostics_graph/reset"@) == Some(
            Response::Unset(ServiceInterface::ResetDiagGraphTier4),
        ),
        answer("/system/operation_mode/change_autoware_control"@) == Some(
            Response::Unset(ServiceInterface::ChangeAutowareControl),
        ),
{
    law_service_is_found_by_name(Service::ChangeToAutonomous);
    law_service_is_found_by_name(Service::ChangeToStop);
    law_service_is_found_by_name(Service::EnableAutowareControl);
    law_service_is_found_by_name(Service::ChangeToLocal);
    law_service_is_found_by_name(Service::ChangeToRemote);
    law_service_is_found_by_name(Service::DisableAutowareControl);
    law_service_is_found_by_name(Service::SetEngage);
    law_service_is_found_by_name(Service::SetEmergency);
    law_service_is_found_by_name(Service::ExternalEmergencyStop);
    law_service_is_found_by_name(Service::ClearExternalEmergencyStop);
    law_service_is_found_by_name(Service::Shutdown);
    law_service_is_found_by_name(Service::ConfigLogger);
    law_service_is_found_by_name(Service::ControlModeRequest);
    law_service_is_found_by_name(Service::InterfaceVersion);
    law_service_is_found_by_name(Service::ResetDiagnostics);
    law_service_is_found_by_name(Service::SetInitializing);
    law_service_is_found_by_name(Service::SetStop);
    law_service_is_found_by_name(Service::OperateComfortableStop);
    law_service_is_found_by_name(Service::OperateEmergencyStop);
    law_service_is_found_by_name(Service::OperatePullOver);
    law_service_is_found_by_name(Service::ResetDiagnosticsGraph);
    law_service_is_found_by_name(Service::ChangeAutowareControl);
}

/// What each request is for: driving is engaged or disengaged, and the external emergency stop
/// is asserted or cleared, as was asked for, with nothing else changed. Where a request that
/// asks for on or off could not be read, nothing changes.
#[verifier::spinoff_prover]
pub proof fn law_requests_do_what_they_ask_for(island: SafetyIsland, flag: Option<bool>, on: bool)
    ensures
        requested(island, "/api/operation_mode/change_to_autonomous"@, flag) == Some(
            SafetyIsland { autonomous_engaged: true, ..island },
        ),
        requested(island, "/api/operation_mode/change_to_stop"@, flag) == Some(
            SafetyIsland { autonomous_engaged: false, ..island },
        ),
        requested(island, "/api/autoware/set/engage"@, Some(on)) == Some(
            SafetyIsland { autonomous_engaged: on, ..island },
        ),
        requested(island, "/control/vehicle_cmd_gate/external_emergency_stop"@, flag) == Some(
            SafetyIsland { external_emergency_stop: true, ..island },
        ),
        requested(island, "/control/vehicle_cmd_gate/clear_external_emergency_stop"@, flag) == Some(
            SafetyIsland { external_emergency_stop: false, ..island },
        ),
        requested(island, "/api/autoware/set/emergency"@, Some(on)) == Some(
            SafetyIsland { external_emergency_stop: on, ..island },
        ),
        requested(island, "/api/autoware/set/engage"@, None) == Some(island),
        requested(island, "/api/autoware/set/emergency"@, None) == Some(island),
{
    law_service_is_found_by_name(Service::ChangeToAutonomous);
    law_service_is_found_by_name(Service::ChangeToStop);
    law_service_is_found_by_name(Service::SetEngage);
    law_service_is_found_by_name(Service::SetEmergency);
    law_service_is_found_by_name(Service::ExternalEmergencyStop);
    law_service_is_found_by_name(Service::ClearExternalEmergencyStop);
}

/// No other request changes anything.
#[verifier::spinoff_prover]
pub proof fn law_other_requests_change_nothing(island: SafetyIsland, flag: Option<bool>)
    ensures
        requested(island, "/api/operation_mode/enable_autoware_control"@, flag) == Some(island),
        requested(island, "/api/operation_mode/change_to_local"@, flag) == Some(island),
        requested(island, "/api/operation_mode/change_to_remote"@, flag) == Some(island),
        requested(island, "/api/operation_mode/disable_autoware_control"@, flag) == Some(island),
        requested(island, "/autoware/shutdown"@, flag) == Some(island),
        requested(island, "/control/vehicle_cmd_gate/config_logger"@, flag) == Some(island),
        requested(island, "/control/control_mode_request"@, flag) == Some(island),
        requested(island, "/api/interface/version"@, flag) == Some(island),
        requested(island, "/api/system/diagnostics/reset"@, flag) == Some(island),
        requested(island, "/system/aggregator/set_initializing"@, flag) == Some(island),
        requested(island, "/control/vehicle_cmd_gate/set_stop"@, flag) == Some(island),
        requested(island, "/system/mrm/comfortable_stop/operate"@, flag) == Some(island),
        requested(island, "/system/mrm/emergency_stop/operate"@, flag) == Some(island),
        requested(island, "/system/mrm/pull_over_manager/operate"@, flag) == Some(island),
        requested(island, "/diagnostics_graph/reset"@, flag) == Some(island),
        requested(island, "/system/operation_mode/change_autoware_control"@, flag) == Some(island),
{
    law_service_is_found_by_name(Service::EnableAutowareControl);
    law_service_is_found_by_name(Service::ChangeToLocal);
    law_service_is_found_by_name(Service::ChangeToRemote);
    law_service_is_found_by_name(Service::DisableAutowareControl);
    law_service_is_found_by_name(Service::Shutdown);
    law_service_is_found_by_name(Service::ConfigLogger);
    law_service_is_found_by_name(Service::ControlModeRequest);
    law_service_is_found_by_name(Service::InterfaceVersion);
    law_service_is_found_by_name(Service::ResetDiagnostics);
    law_service_is_found_by_name(Service::SetInitializing);
    law_service_is_found_by_name(Service::SetStop);
    law_service_is_found_by_name(Service::OperateComfortableStop);
    law_service_is_found_by_name(Service::OperateEmergencyStop);
    law_service_is_found_by_name(Service::OperatePullOver);
    law_service_is_found_by_name(Service::ResetDiagnosticsGraph);
    law_service_is_found_by_name(Service::ChangeAutowareControl);
}

} // verus!
