//! What a build declares, and the check that comes before.

use vstd::prelude::*;

use crate::capacity::{check, check_entries, entries, suffices, Census, LogLine, NodeError};
use crate::chain::{ChainOutputs, ChainPhase, CONTROL_PERIOD_MS};
use crate::endpoints::{all_services, Component, Features, Service, Source, Topic};
use crate::island::SafetyIsland;
use crate::messages::Message;
use crate::pass::{law_pass_hands_over_what_the_algorithms_gave, Replies};
use crate::publish::{content, contents, present, publish_order, Publication};

verus! {

/// Services through which tools ask about parameters. What tools try to set is refused:
/// the parameters may only be read.
pub const PARAM_SERVICE_COUNT: usize = 6;

// ---------------------------------------------------------------------------
// Choosing from lists
// ---------------------------------------------------------------------------

/// Choosing from a list without repetition gives one without repetition.
proof fn lemma_choice_has_no_duplicates<T>(items: Seq<T>, chosen: spec_fn(T) -> bool)
    requires
        items.no_duplicates(),
    ensures
        items.filter(chosen).no_duplicates(),
        forall|x: T| items.filter(chosen).contains(x) <==> items.contains(x) && chosen(x),
    decreases items.len(),
{
    reveal(Seq::filter);
    if items.len() > 0 {
        let rest = items.drop_last();
        let last = items.last();
        assert(rest.no_duplicates());
        lemma_choice_has_no_duplicates(rest, chosen);
        let before = rest.filter(chosen);
        assert(!rest.contains(last)) by {
            if rest.contains(last) {
                let i = choose|i: int| 0 <= i < rest.len() && rest[i] == last;
                assert(items[i] == items[items.len() - 1]);
            }
        }
        assert forall|x: T| items.contains(x) <==> rest.contains(x) || x == last by {
            if items.contains(x) && x != last {
                let i = choose|i: int| 0 <= i < items.len() && items[i] == x;
                assert(rest[i] == x);
            }
            if rest.contains(x) {
                let i = choose|i: int| 0 <= i < rest.len() && rest[i] == x;
                assert(items[i] == x);
            }
            if x == last {
                assert(items[items.len() - 1] == x);
            }
        }
        if chosen(last) {
            let all = before.push(last);
            assert forall|x: T| all.contains(x) <==> before.contains(x) || x == last by {
                if all.contains(x) && x != last {
                    let i = choose|i: int| 0 <= i < all.len() && all[i] == x;
                    assert(before[i] == x);
                }
                if before.contains(x) {
                    let i = choose|i: int| 0 <= i < before.len() && before[i] == x;
                    assert(all[i] == x);
                }
                if x == last {
                    assert(all[all.len() - 1] == x);
                }
            }
            assert forall|i: int, j: int| 0 <= i < j < all.len() implies all[i] != all[j] by {
                if j == before.len() {
                    assert(before.contains(before[i]));
                }
            }
        }
    } else {
        assert forall|x: T| !items.filter(chosen).contains(x) && !items.contains(x) by {}
    }
}

/// All of a list, or nothing.
pub open spec fn given<T>(present: bool, items: Seq<T>) -> Seq<T> {
    if present {
        items
    } else {
        seq![]
    }
}

/// A number of items, or none.
pub open spec fn counted(present: bool, n: int) -> int {
    if present {
        n
    } else {
        0
    }
}

/// Where all items are alike to the choice, it is all or nothing.
proof fn lemma_choice_of_all_or_nothing<T>(items: Seq<T>, chosen: spec_fn(T) -> bool, all: bool)
    requires
        forall|i: int| 0 <= i < items.len() ==> chosen(#[trigger] items[i]) == all,
    ensures
        items.filter(chosen) == given(all, items),
    decreases items.len(),
{
    reveal(Seq::filter);
    if items.len() > 0 {
        assert forall|i: int| 0 <= i < items.drop_last().len() implies chosen(
            #[trigger] items.drop_last()[i],
        ) == all by {
            assert(items.drop_last()[i] == items[i]);
        }
        assert(chosen(items[items.len() - 1]) == all);
        lemma_choice_of_all_or_nothing(items.drop_last(), chosen, all);
        assert(items.drop_last().push(items.last()) =~= items);
    } else {
        assert(items.filter(chosen) =~= given(all, items));
    }
}

// ---------------------------------------------------------------------------
// Topics
// ---------------------------------------------------------------------------

/// All topics, in the order of declaration.
pub open spec fn all_topics() -> Seq<Topic> {
    seq![
        Topic::MrmState,
        Topic::HazardLightsCmd,
        Topic::GearCmd,
        Topic::ControlCmd,
        Topic::TurnIndicatorsCmd,
        Topic::ApiOperationMode,
        Topic::EmergencyStopStatus,
        Topic::ComfortableStopStatus,
        Topic::PullOverStatus,
        Topic::EmergencyGearCmd,
        Topic::EmergencyHazardLightsCmd,
        Topic::EmergencyTurnIndicatorsCmd,
        Topic::EmergencyHolding,
        Topic::EmergencyCmd,
        Topic::GateModeCmd,
        Topic::ShiftDeciderGearCmd,
        Topic::GateIsStopped,
        Topic::GateOperationMode,
        Topic::SystemOperationMode,
        Topic::GateIsPaused,
        Topic::GateIsStartRequested,
        Topic::CurrentGateMode,
        Topic::FilterActivated,
        Topic::FilterFlag,
        Topic::FilterMarker,
        Topic::FilterMarkerRaw,
        Topic::ValidatorDebugMarker,
        Topic::ValidatorOutputMarkers,
        Topic::ValidationStatus,
        Topic::ValidatorVirtualWall,
        Topic::TransitionDebug,
        Topic::AutonomousAvailable,
        Topic::ControlPublishedTime,
        Topic::ApiEngage,
        Topic::AutowareEngage,
        Topic::AutowareState,
        Topic::ApiEmergency,
        Topic::DiagnosticsStatus,
        Topic::DiagnosticsStruct,
        Topic::DiagnosticsUnknowns,
        Topic::CommandModeAvailability,
        Topic::LaunchControl,
        Topic::LaunchLocalization,
        Topic::LaunchMap,
        Topic::LaunchPerception,
        Topic::LaunchPlanning,
        Topic::LaunchSensing,
        Topic::LaunchSystem,
        Topic::LaunchVehicle,
        Topic::HazardStatus,
        Topic::OperationModeAvailability,
    ]
}

/// The topics that a build declares, in order.
pub open spec fn declared_topics(f: Features) -> Seq<Topic> {
    all_topics().filter(|x: Topic| f.has(x.component()))
}

/// Lists the topics that a build declares.
pub fn topics(f: &Features) -> (r: Vec<Topic>)
    ensures
        r@ == declared_topics(*f),
{
    let all: Vec<Topic> = vec![
        Topic::MrmState,
        Topic::HazardLightsCmd,
        Topic::GearCmd,
        Topic::ControlCmd,
        Topic::TurnIndicatorsCmd,
        Topic::ApiOperationMode,
        Topic::EmergencyStopStatus,
        Topic::ComfortableStopStatus,
        Topic::PullOverStatus,
        Topic::EmergencyGearCmd,
        Topic::EmergencyHazardLightsCmd,
        Topic::EmergencyTurnIndicatorsCmd,
        Topic::EmergencyHolding,
        Topic::EmergencyCmd,
        Topic::GateModeCmd,
        Topic::ShiftDeciderGearCmd,
        Topic::GateIsStopped,
        Topic::GateOperationMode,
        Topic::SystemOperationMode,
        Topic::GateIsPaused,
        Topic::GateIsStartRequested,
        Topic::CurrentGateMode,
        Topic::FilterActivated,
        Topic::FilterFlag,
        Topic::FilterMarker,
        Topic::FilterMarkerRaw,
        Topic::ValidatorDebugMarker,
        Topic::ValidatorOutputMarkers,
        Topic::ValidationStatus,
        Topic::ValidatorVirtualWall,
        Topic::TransitionDebug,
        Topic::AutonomousAvailable,
        Topic::ControlPublishedTime,
        Topic::ApiEngage,
        Topic::AutowareEngage,
        Topic::AutowareState,
        Topic::ApiEmergency,
        Topic::DiagnosticsStatus,
        Topic::DiagnosticsStruct,
        Topic::DiagnosticsUnknowns,
        Topic::CommandModeAvailability,
        Topic::LaunchControl,
        Topic::LaunchLocalization,
        Topic::LaunchMap,
        Topic::LaunchPerception,
        Topic::LaunchPlanning,
        Topic::LaunchSensing,
        Topic::LaunchSystem,
        Topic::LaunchVehicle,
        Topic::HazardStatus,
        Topic::OperationModeAvailability,
    ];
    let ghost chosen = |x: Topic| f.has(x.component());
    assert(all@ =~= all_topics());
    let mut r: Vec<Topic> = Vec::new();
    let mut i: usize = 0;
    proof {
        reveal(Seq::filter);
        assert(all@.take(0).filter(chosen) =~= seq![]);
    }
    while i < all.len()
        invariant
            i <= all.len(),
            chosen == |x: Topic| f.has(x.component()),
            r@ == all@.take(i as int).filter(chosen),
        decreases all.len() - i,
    {
        let x = all[i];
        proof {
            reveal(Seq::filter);
            assert(all@.take(i + 1).drop_last() =~= all@.take(i as int));
            assert(all@.take(i + 1).last() == x);
        }
        if f.has(x.component()) {
            r.push(x);
        }
        i += 1;
    }
    assert(all@.take(i as int) =~= all@);
    r
}

/// The place of a topic in the order of declaration.
spec fn topic_place(x: Topic) -> int {
    match x {
        Topic::MrmState => 0,
        Topic::HazardLightsCmd => 1,
        Topic::GearCmd => 2,
        Topic::ControlCmd => 3,
        Topic::TurnIndicatorsCmd => 4,
        Topic::ApiOperationMode => 5,
        Topic::EmergencyStopStatus => 6,
        Topic::ComfortableStopStatus => 7,
        Topic::PullOverStatus => 8,
        Topic::EmergencyGearCmd => 9,
        Topic::EmergencyHazardLightsCmd => 10,
        Topic::EmergencyTurnIndicatorsCmd => 11,
        Topic::EmergencyHolding => 12,
        Topic::EmergencyCmd => 13,
        Topic::GateModeCmd => 14,
        Topic::ShiftDeciderGearCmd => 15,
        Topic::GateIsStopped => 16,
        Topic::GateOperationMode => 17,
        Topic::SystemOperationMode => 18,
        Topic::GateIsPaused => 19,
        Topic::GateIsStartRequested => 20,
        Topic::CurrentGateMode => 21,
        Topic::FilterActivated => 22,
        Topic::FilterFlag => 23,
        Topic::FilterMarker => 24,
        Topic::FilterMarkerRaw => 25,
        Topic::ValidatorDebugMarker => 26,
        Topic::ValidatorOutputMarkers => 27,
        Topic::ValidationStatus => 28,
        Topic::ValidatorVirtualWall => 29,
        Topic::TransitionDebug => 30,
        Topic::AutonomousAvailable => 31,
        Topic::ControlPublishedTime => 32,
        Topic::ApiEngage => 33,
        Topic::AutowareEngage => 34,
        Topic::AutowareState => 35,
        Topic::ApiEmergency => 36,
        Topic::DiagnosticsStatus => 37,
        Topic::DiagnosticsStruct => 38,
        Topic::DiagnosticsUnknowns => 39,
        Topic::CommandModeAvailability => 40,
        Topic::LaunchControl => 41,
        Topic::LaunchLocalization => 42,
        Topic::LaunchMap => 43,
        Topic::LaunchPerception => 44,
        Topic::LaunchPlanning => 45,
        Topic::LaunchSensing => 46,
        Topic::LaunchSystem => 47,
        Topic::LaunchVehicle => 48,
        Topic::HazardStatus => 49,
        Topic::OperationModeAvailability => 50,
    }
}

proof fn lemma_all_topics(x: Topic)
    ensures
        0 <= topic_place(x) < all_topics().len(),
        all_topics()[topic_place(x)] == x,
{
}

proof fn lemma_all_topics_are_listed_once()
    ensures
        all_topics().no_duplicates(),
{
    let all = all_topics();
    assert forall|i: int| 0 <= i < all.len() implies topic_place(#[trigger] all[i]) == i by {}
}

/// A build declares a topic exactly if it has the topic's component, and then once.
pub proof fn law_build_declares_its_topics(f: Features, x: Topic)
    ensures
        declared_topics(f).contains(x) <==> f.has(x.component()),
        declared_topics(f).no_duplicates(),
{
    lemma_all_topics(x);
    lemma_all_topics_are_listed_once();
    lemma_choice_has_no_duplicates(all_topics(), |y: Topic| f.has(y.component()));
}

spec fn core_topics() -> Seq<Topic> {
    seq![
        Topic::MrmState,
        Topic::HazardLightsCmd,
        Topic::GearCmd,
        Topic::ControlCmd,
        Topic::TurnIndicatorsCmd,
        Topic::ApiOperationMode,
    ]
}

proof fn lemma_core_topics(f: Features)
    ensures
        core_topics().filter(|x: Topic| f.has(x.component())).len() == counted(
            true,
            6,
        ),
{
    lemma_choice_of_all_or_nothing(
        core_topics(),
        |x: Topic| f.has(x.component()),
        true,
    );
}

spec fn mrm_topics() -> Seq<Topic> {
    seq![
        Topic::EmergencyStopStatus,
        Topic::ComfortableStopStatus,
        Topic::PullOverStatus,
        Topic::EmergencyGearCmd,
        Topic::EmergencyHazardLightsCmd,
        Topic::EmergencyTurnIndicatorsCmd,
        Topic::EmergencyHolding,
    ]
}

proof fn lemma_mrm_topics(f: Features)
    ensures
        mrm_topics().filter(|x: Topic| f.has(x.component())).len() == counted(
            f.mrm,
            7,
        ),
{
    lemma_choice_of_all_or_nothing(
        mrm_topics(),
        |x: Topic| f.has(x.component()),
        f.mrm,
    );
}

spec fn command_gate_topics() -> Seq<Topic> {
    seq![
        Topic::EmergencyCmd,
        Topic::GateModeCmd,
        Topic::ShiftDeciderGearCmd,
        Topic::GateIsStopped,
        Topic::GateOperationMode,
        Topic::SystemOperationMode,
        Topic::GateIsPaused,
        Topic::GateIsStartRequested,
        Topic::CurrentGateMode,
        Topic::FilterActivated,
        Topic::FilterFlag,
        Topic::FilterMarker,
        Topic::FilterMarkerRaw,
    ]
}

proof fn lemma_command_gate_topics(f: Features)
    ensures
        command_gate_topics().filter(|x: Topic| f.has(x.component())).len() == counted(
            f.command_gate,
            13,
        ),
{
    lemma_choice_of_all_or_nothing(
        command_gate_topics(),
        |x: Topic| f.has(x.component()),
        f.command_gate,
    );
}

spec fn validator_topics() -> Seq<Topic> {
    seq![
        Topic::ValidatorDebugMarker,
        Topic::ValidatorOutputMarkers,
        Topic::ValidationStatus,
        Topic::ValidatorVirtualWall,
    ]
}

proof fn lemma_validator_topics(f: Features)
    ensures
        validator_topics().filter(|x: Topic| f.has(x.component())).len() == counted(
            f.validator,
            4,
        ),
{
    lemma_choice_of_all_or_nothing(
        validator_topics(),
        |x: Topic| f.has(x.component()),
        f.validator,
    );
}

spec fn operation_mode_topics() -> Seq<Topic> {
    seq![
        Topic::TransitionDebug,
        Topic::AutonomousAvailable,
        Topic::ControlPublishedTime,
    ]
}

proof fn lemma_operation_mode_topics(f: Features)
    ensures
        operation_mode_topics().filter(|x: Topic| f.has(x.component())).len() == counted(
            f.operation_mode,
            3,
        ),
{
    lemma_choice_of_all_or_nothing(
        operation_mode_topics(),
        |x: Topic| f.has(x.component()),
        f.operation_mode,
    );
}

spec fn engagement_topics() -> Seq<Topic> {
    seq![
        Topic::ApiEngage,
        Topic::AutowareEngage,
        Topic::AutowareState,
        Topic::ApiEmergency,
    ]
}

proof fn lemma_engagement_topics(f: Features)
    ensures
        engagement_topics().filter(|x: Topic| f.has(x.component())).len() == counted(
            f.engagement,
            4,
        ),
{
    lemma_choice_of_all_or_nothing(
        engagement_topics(),
        |x: Topic| f.has(x.component()),
        f.engagement,
    );
}

spec fn monitoring_topics() -> Seq<Topic> {
    seq![
        Topic::DiagnosticsStatus,
        Topic::DiagnosticsStruct,
        Topic::DiagnosticsUnknowns,
        Topic::CommandModeAvailability,
        Topic::LaunchControl,
        Topic::LaunchLocalization,
        Topic::LaunchMap,
        Topic::LaunchPerception,
        Topic::LaunchPlanning,
        Topic::LaunchSensing,
        Topic::LaunchSystem,
        Topic::LaunchVehicle,
        Topic::HazardStatus,
        Topic::OperationModeAvailability,
    ]
}

proof fn lemma_monitoring_topics(f: Features)
    ensures
        monitoring_topics().filter(|x: Topic| f.has(x.component())).len() == counted(
            f.monitoring,
            14,
        ),
{
    lemma_choice_of_all_or_nothing(
        monitoring_topics(),
        |x: Topic| f.has(x.component()),
        f.monitoring,
    );
}

/// How many topics a build declares: each component adds its own number.
pub proof fn law_count_of_topics(f: Features)
    ensures
        declared_topics(f).len() == 6
            + counted(f.mrm, 7)
            + counted(f.command_gate, 13)
            + counted(f.validator, 4)
            + counted(f.operation_mode, 3)
            + counted(f.engagement, 4)
            + counted(f.monitoring, 14),
{
    let chosen = |x: Topic| f.has(x.component());
    lemma_core_topics(f);
    lemma_mrm_topics(f);
    lemma_command_gate_topics(f);
    lemma_validator_topics(f);
    lemma_operation_mode_topics(f);
    lemma_engagement_topics(f);
    lemma_monitoring_topics(f);
    Seq::filter_distributes_over_add(core_topics(), mrm_topics(), chosen);
    let p1 = core_topics() + mrm_topics();
    Seq::filter_distributes_over_add(p1, command_gate_topics(), chosen);
    let p2 = p1 + command_gate_topics();
    Seq::filter_distributes_over_add(p2, validator_topics(), chosen);
    let p3 = p2 + validator_topics();
    Seq::filter_distributes_over_add(p3, operation_mode_topics(), chosen);
    let p4 = p3 + operation_mode_topics();
    Seq::filter_distributes_over_add(p4, engagement_topics(), chosen);
    let p5 = p4 + engagement_topics();
    Seq::filter_distributes_over_add(p5, monitoring_topics(), chosen);
    let p6 = p5 + monitoring_topics();
    assert(all_topics() =~= p6);
}

// ---------------------------------------------------------------------------
// Sources
// ---------------------------------------------------------------------------

/// All sources, in the order of declaration.
pub open spec fn all_sources() -> Seq<Source> {
    seq![
        Source::VelocityStatus,
        Source::Heartbeat,
        Source::FollowerControl,
        Source::AutowareState,
        Source::GearStatus,
        Source::Trajectory,
        Source::KinematicState,
        Source::SteeringStatus,
        Source::Acceleration,
    ]
}

/// The sources that a build declares, in order.
pub open spec fn declared_sources(f: Features) -> Seq<Source> {
    all_sources().filter(|x: Source| f.has(x.component()))
}

/// Lists the sources that a build declares.
pub fn sources(f: &Features) -> (r: Vec<Source>)
    ensures
        r@ == declared_sources(*f),
{
    let all: Vec<Source> = vec![
        Source::VelocityStatus,
        Source::Heartbeat,
        Source::FollowerControl,
        Source::AutowareState,
        Source::GearStatus,
        Source::Trajectory,
        Source::KinematicState,
        Source::SteeringStatus,
        Source::Acceleration,
    ];
    let ghost chosen = |x: Source| f.has(x.component());
    assert(all@ =~= all_sources());
    let mut r: Vec<Source> = Vec::new();
    let mut i: usize = 0;
    proof {
        reveal(Seq::filter);
        assert(all@.take(0).filter(chosen) =~= seq![]);
    }
    while i < all.len()
        invariant
            i <= all.len(),
            chosen == |x: Source| f.has(x.component()),
            r@ == all@.take(i as int).filter(chosen),
        decreases all.len() - i,
    {
        let x = all[i];
        proof {
            reveal(Seq::filter);
            assert(all@.take(i + 1).drop_last() =~= all@.take(i as int));
            assert(all@.take(i + 1).last() == x);
        }
        if f.has(x.component()) {
            r.push(x);
        }
        i += 1;
    }
    assert(all@.take(i as int) =~= all@);
    r
}

/// The place of a source in the order of declaration.
spec fn source_place(x: Source) -> int {
    match x {
        Source::VelocityStatus => 0,
        Source::Heartbeat => 1,
        Source::FollowerControl => 2,
        Source::AutowareState => 3,
        Source::GearStatus => 4,
        Source::Trajectory => 5,
        Source::KinematicState => 6,
        Source::SteeringStatus => 7,
        Source::Acceleration => 8,
    }
}

proof fn lemma_all_sources(x: Source)
    ensures
        0 <= source_place(x) < all_sources().len(),
        all_sources()[source_place(x)] == x,
{
}

proof fn lemma_all_sources_are_listed_once()
    ensures
        all_sources().no_duplicates(),
{
    let all = all_sources();
    assert forall|i: int| 0 <= i < all.len() implies source_place(#[trigger] all[i]) == i by {}
}

/// A build declares a source exactly if it has the source's component, and then once.
pub proof fn law_build_declares_its_sources(f: Features, x: Source)
    ensures
        declared_sources(f).contains(x) <==> f.has(x.component()),
        declared_sources(f).no_duplicates(),
{
    lemma_all_sources(x);
    lemma_all_sources_are_listed_once();
    lemma_choice_has_no_duplicates(all_sources(), |y: Source| f.has(y.component()));
}

spec fn core_sources() -> Seq<Source> {
    seq![
        Source::VelocityStatus,
        Source::Heartbeat,
        Source::FollowerControl,
    ]
}

proof fn lemma_core_sources(f: Features)
    ensures
        core_sources().filter(|x: Source| f.has(x.component())).len() == counted(
            true,
            3,
        ),
{
    lemma_choice_of_all_or_nothing(
        core_sources(),
        |x: Source| f.has(x.component()),
        true,
    );
}

spec fn engagement_sources() -> Seq<Source> {
    seq![
        Source::AutowareState,
    ]
}

proof fn lemma_engagement_sources(f: Features)
    ensures
        engagement_sources().filter(|x: Source| f.has(x.component())).len() == counted(
            f.engagement,
            1,
        ),
{
    lemma_choice_of_all_or_nothing(
        engagement_sources(),
        |x: Source| f.has(x.component()),
        f.engagement,
    );
}

spec fn command_gate_sources() -> Seq<Source> {
    seq![
        Source::GearStatus,
    ]
}

proof fn lemma_command_gate_sources(f: Features)
    ensures
        command_gate_sources().filter(|x: Source| f.has(x.component())).len() == counted(
            f.command_gate,
            1,
        ),
{
    lemma_choice_of_all_or_nothing(
        command_gate_sources(),
        |x: Source| f.has(x.component()),
        f.command_gate,
    );
}

spec fn controller_sources() -> Seq<Source> {
    seq![
        Source::Trajectory,
        Source::KinematicState,
        Source::SteeringStatus,
        Source::Acceleration,
    ]
}

proof fn lemma_controller_sources(f: Features)
    ensures
        controller_sources().filter(|x: Source| f.has(x.component())).len() == counted(
            f.controller,
            4,
        ),
{
    lemma_choice_of_all_or_nothing(
        controller_sources(),
        |x: Source| f.has(x.component()),
        f.controller,
    );
}

/// How many sources a build declares: each component adds its own number.
pub proof fn law_count_of_sources(f: Features)
    ensures
        declared_sources(f).len() == 3
            + counted(f.engagement, 1)
            + counted(f.command_gate, 1)
            + counted(f.controller, 4),
{
    let chosen = |x: Source| f.has(x.component());
    lemma_core_sources(f);
    lemma_engagement_sources(f);
    lemma_command_gate_sources(f);
    lemma_controller_sources(f);
    Seq::filter_distributes_over_add(core_sources(), engagement_sources(), chosen);
    let p1 = core_sources() + engagement_sources();
    Seq::filter_distributes_over_add(p1, command_gate_sources(), chosen);
    let p2 = p1 + command_gate_sources();
    Seq::filter_distributes_over_add(p2, controller_sources(), chosen);
    let p3 = p2 + controller_sources();
    assert(all_sources() =~= p3);
}

// ---------------------------------------------------------------------------
// Services
// ---------------------------------------------------------------------------

/// The services that a build declares, in order.
pub open spec fn declared_services(f: Features) -> Seq<Service> {
    all_services().filter(|x: Service| f.has(x.component()))
}

/// Lists the services that a build declares.
pub fn services(f: &Features) -> (r: Vec<Service>)
    ensures
        r@ == declared_services(*f),
{
    let all = Service::all();
    let ghost chosen = |x: Service| f.has(x.component());
    assert(all@ =~= all_services());
    let mut r: Vec<Service> = Vec::new();
    let mut i: usize = 0;
    proof {
        reveal(Seq::filter);
        assert(all@.take(0).filter(chosen) =~= seq![]);
    }
    while i < all.len()
        invariant
            i <= all.len(),
            chosen == |x: Service| f.has(x.component()),
            r@ == all@.take(i as int).filter(chosen),
        decreases all.len() - i,
    {
        let x = all[i];
        proof {
            reveal(Seq::filter);
            assert(all@.take(i + 1).drop_last() =~= all@.take(i as int));
            assert(all@.take(i + 1).last() == x);
        }
        if f.has(x.component()) {
            r.push(x);
        }
        i += 1;
    }
    assert(all@.take(i as int) =~= all@);
    r
}

/// The place of a service in the order of declaration.
spec fn service_place(x: Service) -> int {
    match x {
        Service::ChangeToAutonomous => 0,
        Service::SetEngage => 1,
        Service::SetEmergency => 2,
        Service::ExternalEmergencyStop => 3,
        Service::ClearExternalEmergencyStop => 4,
        Service::ConfigLogger => 5,
        Service::SetStop => 6,
        Service::ControlModeRequest => 7,
        Service::ChangeToStop => 8,
        Service::ChangeToLocal => 9,
        Service::ChangeToRemote => 10,
        Service::EnableAutowareControl => 11,
        Service::DisableAutowareControl => 12,
        Service::OperateComfortableStop => 13,
        Service::OperateEmergencyStop => 14,
        Service::OperatePullOver => 15,
        Service::InterfaceVersion => 16,
        Service::ResetDiagnostics => 17,
        Service::Shutdown => 18,
        Service::ResetDiagnosticsGraph => 19,
        Service::SetInitializing => 20,
        Service::ChangeAutowareControl => 21,
    }
}

proof fn lemma_all_services(x: Service)
    ensures
        0 <= service_place(x) < all_services().len(),
        all_services()[service_place(x)] == x,
{
}

proof fn lemma_all_services_are_listed_once()
    ensures
        all_services().no_duplicates(),
{
    let all = all_services();
    assert forall|i: int| 0 <= i < all.len() implies service_place(#[trigger] all[i]) == i by {}
}

/// A build declares a service exactly if it has the service's component, and then once.
pub proof fn law_build_declares_its_services(f: Features, x: Service)
    ensures
        declared_services(f).contains(x) <==> f.has(x.component()),
        declared_services(f).no_duplicates(),
{
    lemma_all_services(x);
    lemma_all_services_are_listed_once();
    lemma_choice_has_no_duplicates(all_services(), |y: Service| f.has(y.component()));
}

spec fn core_services() -> Seq<Service> {
    seq![
        Service::ChangeToAutonomous,
    ]
}

proof fn lemma_core_services(f: Features)
    ensures
        core_services().filter(|x: Service| f.has(x.component())).len() == counted(
            true,
            1,
        ),
{
    lemma_choice_of_all_or_nothing(
        core_services(),
        |x: Service| f.has(x.component()),
        true,
    );
}

spec fn engagement_services() -> Seq<Service> {
    seq![
        Service::SetEngage,
        Service::SetEmergency,
    ]
}

proof fn lemma_engagement_services(f: Features)
    ensures
        engagement_services().filter(|x: Service| f.has(x.component())).len() == counted(
            f.engagement,
            2,
        ),
{
    lemma_choice_of_all_or_nothing(
        engagement_services(),
        |x: Service| f.has(x.component()),
        f.engagement,
    );
}

spec fn command_gate_services() -> Seq<Service> {
    seq![
        Service::ExternalEmergencyStop,
        Service::ClearExternalEmergencyStop,
        Service::ConfigLogger,
        Service::SetStop,
    ]
}

proof fn lemma_command_gate_services(f: Features)
    ensures
        command_gate_services().filter(|x: Service| f.has(x.component())).len() == counted(
            f.command_gate,
            4,
        ),
{
    lemma_choice_of_all_or_nothing(
        command_gate_services(),
        |x: Service| f.has(x.component()),
        f.command_gate,
    );
}

spec fn operation_mode_services() -> Seq<Service> {
    seq![
        Service::ControlModeRequest,
        Service::ChangeToStop,
        Service::ChangeToLocal,
        Service::ChangeToRemote,
        Service::EnableAutowareControl,
        Service::DisableAutowareControl,
    ]
}

proof fn lemma_operation_mode_services(f: Features)
    ensures
        operation_mode_services().filter(|x: Service| f.has(x.component())).len() == counted(
            f.operation_mode,
            6,
        ),
{
    lemma_choice_of_all_or_nothing(
        operation_mode_services(),
        |x: Service| f.has(x.component()),
        f.operation_mode,
    );
}

spec fn mrm_services() -> Seq<Service> {
    seq![
        Service::OperateComfortableStop,
        Service::OperateEmergencyStop,
        Service::OperatePullOver,
    ]
}

proof fn lemma_mrm_services(f: Features)
    ensures
        mrm_services().filter(|x: Service| f.has(x.component())).len() == counted(
            f.mrm,
            3,
        ),
{
    lemma_choice_of_all_or_nothing(
        mrm_services(),
        |x: Service| f.has(x.component()),
        f.mrm,
    );
}

spec fn stubs_services() -> Seq<Service> {
    seq![
        Service::InterfaceVersion,
        Service::ResetDiagnostics,
        Service::Shutdown,
        Service::ResetDiagnosticsGraph,
        Service::SetInitializing,
        Service::ChangeAutowareControl,
    ]
}

proof fn lemma_stubs_services(f: Features)
    ensures
        stubs_services().filter(|x: Service| f.has(x.component())).len() == counted(
            f.stubs,
            6,
        ),
{
    lemma_choice_of_all_or_nothing(
        stubs_services(),
        |x: Service| f.has(x.component()),
        f.stubs,
    );
}

/// How many services a build declares: each component adds its own number.
pub proof fn law_count_of_services(f: Features)
    ensures
        declared_services(f).len() == 1
            + counted(f.engagement, 2)
            + counted(f.command_gate, 4)
            + counted(f.operation_mode, 6)
            + counted(f.mrm, 3)
            + counted(f.stubs, 6),
{
    let chosen = |x: Service| f.has(x.component());
    lemma_core_services(f);
    lemma_engagement_services(f);
    lemma_command_gate_services(f);
    lemma_operation_mode_services(f);
    lemma_mrm_services(f);
    lemma_stubs_services(f);
    Seq::filter_distributes_over_add(core_services(), engagement_services(), chosen);
    let p1 = core_services() + engagement_services();
    Seq::filter_distributes_over_add(p1, command_gate_services(), chosen);
    let p2 = p1 + command_gate_services();
    Seq::filter_distributes_over_add(p2, operation_mode_services(), chosen);
    let p3 = p2 + operation_mode_services();
    Seq::filter_distributes_over_add(p3, mrm_services(), chosen);
    let p4 = p3 + mrm_services();
    Seq::filter_distributes_over_add(p4, stubs_services(), chosen);
    let p5 = p4 + stubs_services();
    assert(all_services() =~= p5);
}

// ---------------------------------------------------------------------------
// Publishing what was declared
// ---------------------------------------------------------------------------

/// The place of a topic in the order of publication.
spec fn publish_place(x: Topic) -> int {
    match x {
        Topic::MrmState => 0,
        Topic::HazardLightsCmd => 1,
        Topic::GearCmd => 2,
        Topic::ControlCmd => 3,
        Topic::TurnIndicatorsCmd => 4,
        Topic::ApiOperationMode => 5,
        Topic::EmergencyStopStatus => 6,
        Topic::ComfortableStopStatus => 7,
        Topic::PullOverStatus => 8,
        Topic::EmergencyGearCmd => 9,
        Topic::EmergencyHazardLightsCmd => 10,
        Topic::EmergencyTurnIndicatorsCmd => 11,
        Topic::EmergencyHolding => 12,
        Topic::EmergencyCmd => 13,
        Topic::GateModeCmd => 14,
        Topic::ShiftDeciderGearCmd => 15,
        Topic::GateIsStopped => 16,
        Topic::GateOperationMode => 17,
        Topic::SystemOperationMode => 18,
        Topic::GateIsPaused => 19,
        Topic::GateIsStartRequested => 20,
        Topic::CurrentGateMode => 21,
        Topic::FilterActivated => 22,
        Topic::FilterFlag => 23,
        Topic::FilterMarker => 24,
        Topic::FilterMarkerRaw => 25,
        Topic::ApiEngage => 26,
        Topic::AutowareEngage => 27,
        Topic::AutowareState => 28,
        Topic::ApiEmergency => 29,
        Topic::ValidatorDebugMarker => 30,
        Topic::ValidatorOutputMarkers => 31,
        Topic::ValidatorVirtualWall => 32,
        Topic::ValidationStatus => 33,
        Topic::TransitionDebug => 34,
        Topic::ControlPublishedTime => 35,
        Topic::AutonomousAvailable => 36,
        Topic::DiagnosticsStatus => 37,
        Topic::DiagnosticsStruct => 38,
        Topic::DiagnosticsUnknowns => 39,
        Topic::CommandModeAvailability => 40,
        Topic::LaunchControl => 41,
        Topic::LaunchLocalization => 42,
        Topic::LaunchMap => 43,
        Topic::LaunchPerception => 44,
        Topic::LaunchPlanning => 45,
        Topic::LaunchSensing => 46,
        Topic::LaunchSystem => 47,
        Topic::LaunchVehicle => 48,
        Topic::HazardStatus => 49,
        Topic::OperationModeAvailability => 50,
    }
}

proof fn lemma_publish_order(x: Topic)
    ensures
        0 <= publish_place(x) < publish_order().len(),
        publish_order()[publish_place(x)] == x,
{
}

proof fn lemma_publish_order_has_no_duplicates()
    ensures
        publish_order().no_duplicates(),
{
    let all = publish_order();
    assert forall|i: int| 0 <= i < all.len() implies publish_place(#[trigger] all[i]) == i by {}
}

/// Every pass publishes on each topic that the build declares once, and on no other.
pub proof fn law_pass_publishes_each_declared_topic_once(f: Features, o: ChainOutputs, x: Topic)
    ensures
        present(publish_order(), f).no_duplicates(),
        present(publish_order(), f).contains(x) <==> declared_topics(f).contains(x),
        contents(present(publish_order(), f), o).contains(
            Publication { topic: x, message: content(x, o) },
        ) <==> declared_topics(f).contains(x),
{
    lemma_publish_order(x);
    lemma_publish_order_has_no_duplicates();
    law_build_declares_its_topics(f, x);
    lemma_choice_has_no_duplicates(publish_order(), |t: Topic| f.has(t.component()));
    let topics = present(publish_order(), f);
    let all = contents(topics, o);
    let publication = Publication { topic: x, message: content(x, o) };
    if topics.contains(x) {
        let i = choose|i: int| 0 <= i < topics.len() && topics[i] == x;
        assert(all[i] == publication);
    }
    if all.contains(publication) {
        let i = choose|i: int| 0 <= i < all.len() && all[i] == publication;
        assert(topics[i] == x);
    }
}

// ---------------------------------------------------------------------------
// Wiring
// ---------------------------------------------------------------------------

/// The node of a build that is set up on a single one.
pub const SENTINEL_NODE: &'static str = "sentinel";

/// What is declared on the executor, in this order: the nodes, the publishers, the
/// subscriptions, the services and the control timer.
pub struct Wiring {
    pub nodes: Vec<&'static str>,
    pub publishers: Vec<Topic>,
    pub subscriptions: Vec<Source>,
    pub services: Vec<Service>,
    pub timer_period_ms: u64,
}

/// What a build is about to declare when it is set up on so many executor nodes. They share
/// its endpoints, of which there are no more for that.
pub open spec fn census_of(f: Features, nodes: usize) -> Census {
    Census {
        nodes,
        subscriptions: declared_sources(f).len() as usize,
        services: (declared_services(f).len() + counted(
            f.param_services,
            PARAM_SERVICE_COUNT as int,
        )) as usize,
        timers: 1,
        publishers: declared_topics(f).len() as usize,
    }
}

/// A build on so many executor nodes can be counted. With room for 88 more liveliness tokens
/// every build can.
pub open spec fn can_be_counted(f: Features, nodes: usize) -> bool {
    nodes + 88 <= usize::MAX || census_of(f, nodes).countable()
}

/// Counts what a build is about to declare on so many executor nodes.
#[verifier::rlimit(30)]
pub fn wiring_census(f: &Features, nodes: usize) -> (r: Census)
    requires
        can_be_counted(*f, nodes),
    ensures
        r == census_of(*f, nodes),
        r.nodes == nodes,
        r.timers == 1,
        r.publishers == declared_topics(*f).len(),
        r.subscriptions == declared_sources(*f).len(),
        r.services == declared_services(*f).len() + counted(
            f.param_services,
            PARAM_SERVICE_COUNT as int,
        ),
{
    proof {
        law_count_of_topics(*f);
        law_count_of_sources(*f);
        law_count_of_services(*f);
    }
    let more: usize = if f.param_services {
        PARAM_SERVICE_COUNT
    } else {
        0
    };
    Census {
        nodes,
        subscriptions: sources(f).len(),
        services: services(f).len() + more,
        timers: 1,
        publishers: topics(f).len(),
    }
}

/// A build never takes more than 38 callback slots, and no more than 88 liveliness tokens
/// besides those of its nodes. So what is asked for a count is no more than that the tokens
/// can be counted.
pub proof fn law_builds_are_countable(f: Features, nodes: usize)
    ensures
        census_of(f, nodes).slots() <= 38,
        census_of(f, nodes).tokens() <= nodes + 88,
        can_be_counted(f, nodes) <==> census_of(f, nodes).countable(),
{
    law_count_of_topics(f);
    law_count_of_sources(f);
    law_count_of_services(f);
}

/// Wires a build that is set up on these executor nodes: checks that the executor is large
/// enough, and only then says what to declare. `compiled_cbs` is the number of callback
/// slots that the executor was compiled with. Nothing is declared when they do not suffice.
pub fn wire_executor(
    f: &Features,
    nodes: &[&'static str],
    compiled_cbs: usize,
    log: &mut Vec<LogLine>,
) -> (r: Result<Wiring, NodeError>)
    requires
        can_be_counted(*f, nodes@.len() as usize),
    ensures
        entries(final(log)@) == entries(old(log)@) + check_entries(
            census_of(*f, nodes@.len() as usize),
            compiled_cbs as int,
        ),
        match r {
            Ok(wiring) => {
                &&& census_of(*f, nodes@.len() as usize).slots() <= compiled_cbs
                &&& wiring.nodes@ == nodes@
                &&& wiring.publishers@ == declared_topics(*f)
                &&& wiring.subscriptions@ == declared_sources(*f)
                &&& wiring.services@ == declared_services(*f)
                &&& wiring.timer_period_ms == CONTROL_PERIOD_MS
            },
            Err(error) => {
                &&& census_of(*f, nodes@.len() as usize).slots() > compiled_cbs
                &&& error == NodeError::ExecutorFull
            },
        },
        r is Ok <==> suffices(census_of(*f, nodes@.len() as usize), compiled_cbs as int),
{
    let census = wiring_census(f, nodes.len());
    proof {
        law_builds_are_countable(*f, nodes.len());
    }
    match check(&census, compiled_cbs, log) {
        Ok(()) => Ok(
            Wiring {
                nodes: listed(nodes),
                publishers: topics(f),
                subscriptions: sources(f),
                services: services(f),
                timer_period_ms: CONTROL_PERIOD_MS,
            },
        ),
        Err(error) => Err(error),
    }
}

fn listed(names: &[&'static str]) -> (r: Vec<&'static str>)
    ensures
        r@ == names@,
{
    let mut r: Vec<&'static str> = Vec::new();
    let mut i: usize = 0;
    while i < names.len()
        invariant
            i <= names.len(),
            r@ == names@.take(i as int),
        decreases names.len() - i,
    {
        r.push(names[i]);
        assert(r@ =~= names@.take(i + 1));
        i += 1;
    }
    assert(names@.take(i as int) =~= names@);
    r
}

/// The callback slots that a build takes: one for each subscription, each service and the
/// control timer, on however many nodes.
pub proof fn law_slots_of_a_build(f: Features, nodes: usize)
    ensures
        census_of(f, nodes).slots() == declared_sources(f).len() + declared_services(f).len() + counted(
            f.param_services,
            PARAM_SERVICE_COUNT as int,
        ) + 1,
{
    law_count_of_sources(f);
    law_count_of_services(f);
}

// ---------------------------------------------------------------------------
// What each feature brings
// ---------------------------------------------------------------------------

/// Every build publishes the driving commands, the state of the minimum-risk manoeuvre and the
/// operation mode; every other topic comes with one feature and not without it.
#[verifier::spinoff_prover]
#[verifier::rlimit(30)]
pub proof fn law_topics_come_with_their_feature(f: Features)
    ensures
        declared_topics(f).contains(Topic::MrmState),
        declared_topics(f).contains(Topic::HazardLightsCmd),
        declared_topics(f).contains(Topic::GearCmd),
        declared_topics(f).contains(Topic::ControlCmd),
        declared_topics(f).contains(Topic::TurnIndicatorsCmd),
        declared_topics(f).contains(Topic::ApiOperationMode),
        declared_topics(f).contains(Topic::EmergencyStopStatus) <==> f.mrm,
        declared_topics(f).contains(Topic::ComfortableStopStatus) <==> f.mrm,
        declared_topics(f).contains(Topic::PullOverStatus) <==> f.mrm,
        declared_topics(f).contains(Topic::EmergencyGearCmd) <==> f.mrm,
        declared_topics(f).contains(Topic::EmergencyHazardLightsCmd) <==> f.mrm,
        declared_topics(f).contains(Topic::EmergencyTurnIndicatorsCmd) <==> f.mrm,
        declared_topics(f).contains(Topic::EmergencyHolding) <==> f.mrm,
        declared_topics(f).contains(Topic::EmergencyCmd) <==> f.command_gate,
        declared_topics(f).contains(Topic::GateModeCmd) <==> f.command_gate,
        declared_topics(f).contains(Topic::ShiftDeciderGearCmd) <==> f.command_gate,
        declared_topics(f).contains(Topic::GateIsStopped) <==> f.command_gate,
        declared_topics(f).contains(Topic::GateOperationMode) <==> f.command_gate,
        declared_topics(f).contains(Topic::SystemOperationMode) <==> f.command_gate,
        declared_topics(f).contains(Topic::GateIsPaused) <==> f.command_gate,
        declared_topics(f).contains(Topic::GateIsStartRequested) <==> f.command_gate,
        declared_topics(f).contains(Topic::CurrentGateMode) <==> f.command_gate,
        declared_topics(f).contains(Topic::FilterActivated) <==> f.command_gate,
        declared_topics(f).contains(Topic::FilterFlag) <==> f.command_gate,
        declared_topics(f).contains(Topic::FilterMarker) <==> f.command_gate,
        declared_topics(f).contains(Topic::FilterMarkerRaw) <==> f.command_gate,
        declared_topics(f).contains(Topic::ValidatorDebugMarker) <==> f.validator,
        declared_topics(f).contains(Topic::ValidatorOutputMarkers) <==> f.validator,
        declared_topics(f).contains(Topic::ValidationStatus) <==> f.validator,
        declared_topics(f).contains(Topic::ValidatorVirtualWall) <==> f.validator,
        declared_topics(f).contains(Topic::TransitionDebug) <==> f.operation_mode,
        declared_topics(f).contains(Topic::AutonomousAvailable) <==> f.operation_mode,
        declared_topics(f).contains(Topic::ControlPublishedTime) <==> f.operation_mode,
        declared_topics(f).contains(Topic::ApiEngage) <==> f.engagement,
        declared_topics(f).contains(Topic::AutowareEngage) <==> f.engagement,
        declared_topics(f).contains(Topic::AutowareState) <==> f.engagement,
        declared_topics(f).contains(Topic::ApiEmergency) <==> f.engagement,
        declared_topics(f).contains(Topic::DiagnosticsStatus) <==> f.monitoring,
        declared_topics(f).contains(Topic::DiagnosticsStruct) <==> f.monitoring,
        declared_topics(f).contains(Topic::DiagnosticsUnknowns) <==> f.monitoring,
        declared_topics(f).contains(Topic::CommandModeAvailability) <==> f.monitoring,
        declared_topics(f).contains(Topic::LaunchControl) <==> f.monitoring,
        declared_topics(f).contains(Topic::LaunchLocalization) <==> f.monitoring,
        declared_topics(f).contains(Topic::LaunchMap) <==> f.monitoring,
        declared_topics(f).contains(Topic::LaunchPerception) <==> f.monitoring,
        declared_topics(f).contains(Topic::LaunchPlanning) <==> f.monitoring,
        declared_topics(f).contains(Topic::LaunchSensing) <==> f.monitoring,
        declared_topics(f).contains(Topic::LaunchSystem) <==> f.monitoring,
        declared_topics(f).contains(Topic::LaunchVehicle) <==> f.monitoring,
        declared_topics(f).contains(Topic::HazardStatus) <==> f.monitoring,
        declared_topics(f).contains(Topic::OperationModeAvailability) <==> f.monitoring,
{
    law_build_declares_its_topics(f, Topic::MrmState);
    law_build_declares_its_topics(f, Topic::HazardLightsCmd);
    law_build_declares_its_topics(f, Topic::GearCmd);
    law_build_declares_its_topics(f, Topic::ControlCmd);
    law_build_declares_its_topics(f, Topic::TurnIndicatorsCmd);
    law_build_declares_its_topics(f, Topic::ApiOperationMode);
    law_build_declares_its_topics(f, Topic::EmergencyStopStatus);
    law_build_declares_its_topics(f, Topic::ComfortableStopStatus);
    law_build_declares_its_topics(f, Topic::PullOverStatus);
    law_build_declares_its_topics(f, Topic::EmergencyGearCmd);
    law_build_declares_its_topics(f, Topic::EmergencyHazardLightsCmd);
    law_build_declares_its_topics(f, Topic::EmergencyTurnIndicatorsCmd);
    law_build_declares_its_topics(f, Topic::EmergencyHolding);
    law_build_declares_its_topics(f, Topic::EmergencyCmd);
    law_build_declares_its_topics(f, Topic::GateModeCmd);
    law_build_declares_its_topics(f, Topic::ShiftDeciderGearCmd);
    law_build_declares_its_topics(f, Topic::GateIsStopped);
    law_build_declares_its_topics(f, Topic::GateOperationMode);
    law_build_declares_its_topics(f, Topic::SystemOperationMode);
    law_build_declares_its_topics(f, Topic::GateIsPaused);
    law_build_declares_its_topics(f, Topic::GateIsStartRequested);
    law_build_declares_its_topics(f, Topic::CurrentGateMode);
    law_build_declares_its_topics(f, Topic::FilterActivated);
    law_build_declares_its_topics(f, Topic::FilterFlag);
    law_build_declares_its_topics(f, Topic::FilterMarker);
    law_build_declares_its_topics(f, Topic::FilterMarkerRaw);
    law_build_declares_its_topics(f, Topic::ValidatorDebugMarker);
    law_build_declares_its_topics(f, Topic::ValidatorOutputMarkers);
    law_build_declares_its_topics(f, Topic::ValidationStatus);
    law_build_declares_its_topics(f, Topic::ValidatorVirtualWall);
    law_build_declares_its_topics(f, Topic::TransitionDebug);
    law_build_declares_its_topics(f, Topic::AutonomousAvailable);
    law_build_declares_its_topics(f, Topic::ControlPublishedTime);
    law_build_declares_its_topics(f, Topic::ApiEngage);
    law_build_declares_its_topics(f, Topic::AutowareEngage);
    law_build_declares_its_topics(f, Topic::AutowareState);
    law_build_declares_its_topics(f, Topic::ApiEmergency);
    law_build_declares_its_topics(f, Topic::DiagnosticsStatus);
    law_build_declares_its_topics(f, Topic::DiagnosticsStruct);
    law_build_declares_its_topics(f, Topic::DiagnosticsUnknowns);
    law_build_declares_its_topics(f, Topic::CommandModeAvailability);
    law_build_declares_its_topics(f, Topic::LaunchControl);
    law_build_declares_its_topics(f, Topic::LaunchLocalization);
    law_build_declares_its_topics(f, Topic::LaunchMap);
    law_build_declares_its_topics(f, Topic::LaunchPerception);
    law_build_declares_its_topics(f, Topic::LaunchPlanning);
    law_build_declares_its_topics(f, Topic::LaunchSensing);
    law_build_declares_its_topics(f, Topic::LaunchSystem);
    law_build_declares_its_topics(f, Topic::LaunchVehicle);
    law_build_declares_its_topics(f, Topic::HazardStatus);
    law_build_declares_its_topics(f, Topic::OperationModeAvailability);
}

/// Every build listens for velocity reports, heartbeats and control commands; every other
/// source comes with one feature and not without it.
#[verifier::spinoff_prover]
pub proof fn law_sources_come_with_their_feature(f: Features)
    ensures
        declared_sources(f).contains(Source::VelocityStatus),
        declared_sources(f).contains(Source::Heartbeat),
        declared_sources(f).contains(Source::FollowerControl),
        declared_sources(f).contains(Source::AutowareState) <==> f.engagement,
        declared_sources(f).contains(Source::GearStatus) <==> f.command_gate,
        declared_sources(f).contains(Source::Trajectory) <==> f.controller,
        declared_sources(f).contains(Source::KinematicState) <==> f.controller,
        declared_sources(f).contains(Source::SteeringStatus) <==> f.controller,
        declared_sources(f).contains(Source::Acceleration) <==> f.controller,
{
    law_build_declares_its_sources(f, Source::VelocityStatus);
    law_build_declares_its_sources(f, Source::Heartbeat);
    law_build_declares_its_sources(f, Source::FollowerControl);
    law_build_declares_its_sources(f, Source::AutowareState);
    law_build_declares_its_sources(f, Source::GearStatus);
    law_build_declares_its_sources(f, Source::Trajectory);
    law_build_declares_its_sources(f, Source::KinematicState);
    law_build_declares_its_sources(f, Source::SteeringStatus);
    law_build_declares_its_sources(f, Source::Acceleration);
}

/// Every build can be engaged; every other service comes with one feature and not without it.
#[verifier::spinoff_prover]
pub proof fn law_services_come_with_their_feature(f: Features)
    ensures
        declared_services(f).contains(Service::ChangeToAutonomous),
        declared_services(f).contains(Service::SetEngage) <==> f.engagement,
        declared_services(f).contains(Service::SetEmergency) <==> f.engagement,
        declared_services(f).contains(Service::ExternalEmergencyStop) <==> f.command_gate,
        declared_services(f).contains(Service::ClearExternalEmergencyStop) <==> f.command_gate,
        declared_services(f).contains(Service::ConfigLogger) <==> f.command_gate,
        declared_services(f).contains(Service::SetStop) <==> f.command_gate,
        declared_services(f).contains(Service::ControlModeRequest) <==> f.operation_mode,
        declared_services(f).contains(Service::ChangeToStop) <==> f.operation_mode,
        declared_services(f).contains(Service::ChangeToLocal) <==> f.operation_mode,
        declared_services(f).contains(Service::ChangeToRemote) <==> f.operation_mode,
        declared_services(f).contains(Service::EnableAutowareControl) <==> f.operation_mode,
        declared_services(f).contains(Service::DisableAutowareControl) <==> f.operation_mode,
        declared_services(f).contains(Service::OperateComfortableStop) <==> f.mrm,
        declared_services(f).contains(Service::OperateEmergencyStop) <==> f.mrm,
        declared_services(f).contains(Service::OperatePullOver) <==> f.mrm,
        declared_services(f).contains(Service::InterfaceVersion) <==> f.stubs,
        declared_services(f).contains(Service::ResetDiagnostics) <==> f.stubs,
        declared_services(f).contains(Service::Shutdown) <==> f.stubs,
        declared_services(f).contains(Service::ResetDiagnosticsGraph) <==> f.stubs,
        declared_services(f).contains(Service::SetInitializing) <==> f.stubs,
        declared_services(f).contains(Service::ChangeAutowareControl) <==> f.stubs,
{
    law_build_declares_its_services(f, Service::ChangeToAutonomous);
    law_build_declares_its_services(f, Service::SetEngage);
    law_build_declares_its_services(f, Service::SetEmergency);
    law_build_declares_its_services(f, Service::ExternalEmergencyStop);
    law_build_declares_its_services(f, Service::ClearExternalEmergencyStop);
    law_build_declares_its_services(f, Service::ConfigLogger);
    law_build_declares_its_services(f, Service::SetStop);
    law_build_declares_its_services(f, Service::ControlModeRequest);
    law_build_declares_its_services(f, Service::ChangeToStop);
    law_build_declares_its_services(f, Service::ChangeToLocal);
    law_build_declares_its_services(f, Service::ChangeToRemote);
    law_build_declares_its_services(f, Service::EnableAutowareControl);
    law_build_declares_its_services(f, Service::DisableAutowareControl);
    law_build_declares_its_services(f, Service::OperateComfortableStop);
    law_build_declares_its_services(f, Service::OperateEmergencyStop);
    law_build_declares_its_services(f, Service::OperatePullOver);
    law_build_declares_its_services(f, Service::InterfaceVersion);
    law_build_declares_its_services(f, Service::ResetDiagnostics);
    law_build_declares_its_services(f, Service::Shutdown);
    law_build_declares_its_services(f, Service::ResetDiagnosticsGraph);
    law_build_declares_its_services(f, Service::SetInitializing);
    law_build_declares_its_services(f, Service::ChangeAutowareControl);
}

/// What a build needs: a callback slot for each subscription, for each service and for its one
/// timer, and six more slots where parameters are served; a liveliness token for each node and
/// for each of the endpoints, but none for the timer.
pub proof fn law_needs_of_a_build(f: Features, nodes: usize)
    requires
        can_be_counted(f, nodes),
    ensures
        ({
            let census = census_of(f, nodes);
            let served: int = if f.param_services {
                6
            } else {
                0
            };
            let endpoints = declared_sources(f).len() + declared_services(f).len() + served;
            &&& census.timers == 1
            &&& census.nodes == nodes
            &&& census.publishers == declared_topics(f).len()
            &&& census.slots() == endpoints + 1
            &&& census.tokens() == nodes + declared_topics(f).len() + endpoints
        }),
{
    law_count_of_topics(f);
    law_count_of_sources(f);
    law_count_of_services(f);
}

/// What a pass publishes, of a build and of these outputs: with each topic the message that is
/// meant for it, and each topic at most once.
proof fn lemma_published_on(f: Features, o: ChainOutputs, x: Topic, message: Message)
    requires
        content(x, o) == message,
        f.has(x.component()),
    ensures
        ({
            let published = contents(present(publish_order(), f), o);
            &&& published.contains(Publication { topic: x, message })
            &&& forall|i: int|
                0 <= i < published.len() && (#[trigger] published[i]).topic == x
                    ==> published[i].message == message
        }),
{
    law_build_declares_its_topics(f, x);
    law_pass_publishes_each_declared_topic_once(f, o, x);
}

/// Whatever the build, and whatever the stop manoeuvres report: after a pass the vehicle is
/// sent the control command, the gear and the turn indicators that the command gate let
/// through in that pass, and the hazard lights of the minimum-risk manoeuvre handler, and no
/// others.
pub proof fn law_vehicle_gets_the_commands_of_the_pass(
    f: Features,
    island: SafetyIsland,
    now_ms: u64,
    replies: Replies,
)
    requires
        island.phase == ChainPhase::Idle,
    ensures
        ({
            let published = contents(
                present(publish_order(), f),
                island.passed(now_ms, replies).last_outputs,
            );
            &&& published.contains(
                Publication {
                    topic: Topic::ControlCmd,
                    message: Message::Control(replies.gate.control),
                },
            )
            &&& published.contains(
                Publication {
                    topic: Topic::GearCmd,
                    message: Message::GearCommand(replies.gate.gear),
                },
            )
            &&& published.contains(
                Publication {
                    topic: Topic::TurnIndicatorsCmd,
                    message: Message::TurnIndicatorsCommand(replies.gate.turn_indicators),
                },
            )
            &&& published.contains(
                Publication {
                    topic: Topic::HazardLightsCmd,
                    message: Message::HazardLightsCommand(replies.mrm.hazard_lights),
                },
            )
            &&& published.contains(
                Publication {
                    topic: Topic::MrmState,
                    message: Message::MrmState(replies.mrm.mrm_state),
                },
            )
            &&& forall|i: int|
                0 <= i < published.len() ==> {
                    let p = #[trigger] published[i];
                    &&& p.topic == Topic::ControlCmd ==> p.message == Message::Control(
                        replies.gate.control,
                    )
                    &&& p.topic == Topic::GearCmd ==> p.message == Message::GearCommand(
                        replies.gate.gear,
                    )
                    &&& p.topic == Topic::TurnIndicatorsCmd ==> p.message
                        == Message::TurnIndicatorsCommand(replies.gate.turn_indicators)
                    &&& p.topic == Topic::HazardLightsCmd ==> p.message
                        == Message::HazardLightsCommand(replies.mrm.hazard_lights)
                    &&& p.topic == Topic::MrmState ==> p.message == Message::MrmState(
                        replies.mrm.mrm_state,
                    )
                }
        }),
{
    let o = island.passed(now_ms, replies).last_outputs;
    law_pass_hands_over_what_the_algorithms_gave(island, now_ms, replies);
    lemma_published_on(f, o, Topic::ControlCmd, Message::Control(replies.gate.control));
    lemma_published_on(f, o, Topic::GearCmd, Message::GearCommand(replies.gate.gear));
    lemma_published_on(
        f,
        o,
        Topic::TurnIndicatorsCmd,
        Message::TurnIndicatorsCommand(replies.gate.turn_indicators),
    );
    lemma_published_on(
        f,
        o,
        Topic::HazardLightsCmd,
        Message::HazardLightsCommand(replies.mrm.hazard_lights),
    );
    lemma_published_on(f, o, Topic::MrmState, Message::MrmState(replies.mrm.mrm_state));
}

/// Two topics are published in the order in which a pass publishes them, whatever else the
/// build has: a feature adds messages but never reorders those that are there without it.
pub proof fn law_order_of_publications_is_the_same_in_every_build(
    f: Features,
    g: Features,
    o: ChainOutputs,
)
    requires
        forall|c: Component| f.has(c) ==> #[trigger] g.has(c),
    ensures
        contents(present(publish_order(), f), o) == contents(
            present(present(publish_order(), g), f),
            o,
        ),
{
    lemma_choice_of_a_choice(
        publish_order(),
        |t: Topic| g.has(t.component()),
        |t: Topic| f.has(t.component()),
    );
}

proof fn lemma_choice_of_a_choice<T>(
    items: Seq<T>,
    wide: spec_fn(T) -> bool,
    narrow: spec_fn(T) -> bool,
)
    requires
        forall|x: T| narrow(x) ==> #[trigger] wide(x),
    ensures
        items.filter(wide).filter(narrow) == items.filter(narrow),
    decreases items.len(),
{
    reveal(Seq::filter);
    if items.len() > 0 {
        let rest = items.drop_last();
        lemma_choice_of_a_choice(rest, wide, narrow);
        let kept = rest.filter(wide);
        if wide(items.last()) {
            assert(kept.push(items.last()).drop_last() =~= kept);
        }
    }
}

/// In every build the driving commands go out first, before any report: the state of the
/// minimum-risk manoeuvre, the hazard lights, the gear, the control command, the turn
/// indicators and the operation mode, in this order.
pub proof fn law_driving_commands_go_out_first(f: Features, o: ChainOutputs)
    ensures
        ({
            let published = contents(present(publish_order(), f), o);
            &&& published.len() >= 6
            &&& published[0].topic == Topic::MrmState
            &&& published[1].topic == Topic::HazardLightsCmd
            &&& published[2].topic == Topic::GearCmd
            &&& published[3].topic == Topic::ControlCmd
            &&& published[4].topic == Topic::TurnIndicatorsCmd
            &&& published[5].topic == Topic::ApiOperationMode
        }),
{
    let chosen = |t: Topic| f.has(t.component());
    let first = publish_order().take(6);
    let rest = publish_order().skip(6);
    assert(first + rest =~= publish_order());
    Seq::filter_distributes_over_add(first, rest, chosen);
    lemma_choice_of_all_or_nothing(first, chosen, true);
    assert(present(publish_order(), f) == first + rest.filter(chosen));
}

/// Every message that a pass publishes is on a topic of the build, carries what the outputs hold
/// for that topic, and no topic gets two.
pub proof fn law_publications_are_those_of_the_build(f: Features, o: ChainOutputs)
    ensures
        ({
            let published = contents(present(publish_order(), f), o);
            &&& forall|i: int|
                0 <= i < published.len() ==> declared_topics(f).contains(
                    (#[trigger] published[i]).topic,
                ) && published[i].message == content(published[i].topic, o)
            &&& forall|i: int, j: int|
                0 <= i < j < published.len() ==> (#[trigger] published[i]).topic != (
                #[trigger] published[j]).topic
        }),
{
    let topics = present(publish_order(), f);
    let published = contents(topics, o);
    lemma_publish_order_has_no_duplicates();
    lemma_choice_has_no_duplicates(publish_order(), |t: Topic| f.has(t.component()));
    assert forall|i: int| 0 <= i < published.len() implies declared_topics(f).contains(
        (#[trigger] published[i]).topic,
    ) && published[i].message == content(published[i].topic, o) by {
        assert(topics.contains(topics[i]));
        law_build_declares_its_topics(f, topics[i]);
    }
}

} // verus!
