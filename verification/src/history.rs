//! What holds however many messages, velocity reports, requests and ticks come, in whatever
//! order.

use vstd::prelude::*;

use crate::chain::{operation_mode, ChainAction, ChainPhase, MRM_STATE_OPERATING};
use crate::endpoints::{Service, Source};
use crate::inputs::{law_inputs_are_not_forgotten, law_inputs_leave_the_chain_alone, Input};
use crate::island::SafetyIsland;
use crate::pass::{
    emergency_request, engagement_request, law_order_of_a_pass, law_pass_changes_nothing_else,
    law_pass_hands_over_what_the_algorithms_gave, law_pass_reports_the_flags,
    law_requests_set_the_flags, Replies,
};
use crate::sensing::SensingEvent;
use crate::services::law_requests_change_one_flag;

verus! {

/// Something that happens to an island between two passes, or a pass.
pub enum Happening<'a> {
    /// A message arrives.
    Message { source: Source, input: Input<'a>, now_ms: u64 },
    /// A velocity report comes one step further.
    Sensing(SensingEvent),
    /// A request is served.
    Request { service: Service, flag: Option<bool> },
    /// The control timer ticks, and the chain makes a pass with these replies.
    Pass { now_ms: u64, replies: Replies },
}

/// What happens turns the island `before` into `after`.
pub open spec fn happens(before: SafetyIsland, what: Happening, after: SafetyIsland) -> bool {
    match what {
        Happening::Message { source, input, now_ms } => before.takes(
            source,
            input,
            now_ms,
            after,
        ),
        Happening::Sensing(event) => after == before.sensed(event).0,
        Happening::Request { service, flag } => after == before.served(service, flag),
        Happening::Pass { now_ms, replies } => after == before.passed(now_ms, replies),
    }
}

/// `islands` are what an island goes through when these things happen, one after the other,
/// from a moment on at which the chain waits for the tick.
pub open spec fn is_history(islands: Seq<SafetyIsland>, happenings: Seq<Happening>) -> bool {
    &&& islands.len() == happenings.len() + 1
    &&& islands[0].phase == ChainPhase::Idle
    &&& forall|k: int|
        0 <= k < happenings.len() ==> happens(
            islands[k],
            #[trigger] happenings[k],
            islands[k + 1],
        )
}

/// What something asks for of engagement, if it is a request for it.
pub open spec fn engagement_asked(what: Happening) -> Option<bool> {
    match what {
        Happening::Request { service, flag } => engagement_request(service, flag),
        _ => None,
    }
}

/// What something asks for of the external emergency stop, if it is a request for it.
pub open spec fn emergency_asked(what: Happening) -> Option<bool> {
    match what {
        Happening::Request { service, flag } => emergency_request(service, flag),
        _ => None,
    }
}

/// The latest of the answers that are there, or what held at the start.
pub open spec fn latest(asked: Seq<Option<bool>>, start: bool) -> bool
    decreases asked.len(),
{
    if asked.len() == 0 {
        start
    } else {
        match asked.last() {
            Some(value) => value,
            None => latest(asked.drop_last(), start),
        }
    }
}

/// The engagement that was asked for last in the first `n` happenings.
pub open spec fn latest_engagement(happenings: Seq<Happening>, n: int, start: bool) -> bool {
    latest(Seq::new(n as nat, |i: int| engagement_asked(happenings[i])), start)
}

/// The external emergency stop that was asked for last in the first `n` happenings.
pub open spec fn latest_emergency(happenings: Seq<Happening>, n: int, start: bool) -> bool {
    latest(Seq::new(n as nat, |i: int| emergency_asked(happenings[i])), start)
}

proof fn lemma_one_happening(before: SafetyIsland, what: Happening, after: SafetyIsland)
    requires
        before.phase == ChainPhase::Idle,
        happens(before, what, after),
    ensures
        after.phase == ChainPhase::Idle,
        after.autonomous_engaged == (match engagement_asked(what) {
            Some(engage) => engage,
            None => before.autonomous_engaged,
        }),
        after.external_emergency_stop == (match emergency_asked(what) {
            Some(emergency) => emergency,
            None => before.external_emergency_stop,
        }),
{
    match what {
        Happening::Message { source, input, now_ms } => {
            law_inputs_leave_the_chain_alone(before, source, input, now_ms, after);
        },
        Happening::Sensing(_) => {},
        Happening::Request { service, flag } => {
            law_requests_set_the_flags(before, service, flag);
        },
        Happening::Pass { now_ms, replies } => {
            law_pass_reports_the_flags(before, now_ms, replies);
        },
    }
}

/// At every moment the island is engaged, and an emergency stop asserted from outside,
/// exactly as was asked for last; and the chain waits for the tick.
pub proof fn law_latest_requests_hold(
    islands: Seq<SafetyIsland>,
    happenings: Seq<Happening>,
    n: int,
)
    requires
        is_history(islands, happenings),
        0 <= n <= happenings.len(),
    ensures
        islands[n].phase == ChainPhase::Idle,
        islands[n].autonomous_engaged == latest_engagement(
            happenings,
            n,
            islands[0].autonomous_engaged,
        ),
        islands[n].external_emergency_stop == latest_emergency(
            happenings,
            n,
            islands[0].external_emergency_stop,
        ),
    decreases n,
{
    if n > 0 {
        let k = n - 1;
        law_latest_requests_hold(islands, happenings, k);
        assert(happens(islands[k], happenings[k], islands[k + 1]));
        lemma_one_happening(islands[k], happenings[k], islands[n]);
        let engagement = Seq::new(n as nat, |i: int| engagement_asked(happenings[i]));
        let emergency = Seq::new(n as nat, |i: int| emergency_asked(happenings[i]));
        assert(engagement.drop_last() =~= Seq::new(
            k as nat,
            |i: int| engagement_asked(happenings[i]),
        ));
        assert(emergency.drop_last() =~= Seq::new(
            k as nat,
            |i: int| emergency_asked(happenings[i]),
        ));
    }
}

/// Every tick, whatever came before in whatever order, reports the engagement that was asked
/// for last, and tells the command gate of it.
pub proof fn law_every_tick_reports_the_latest_engagement(
    islands: Seq<SafetyIsland>,
    happenings: Seq<Happening>,
    k: int,
    now_ms: u64,
    replies: Replies,
)
    requires
        is_history(islands, happenings),
        0 <= k < happenings.len(),
        happenings[k] == (Happening::Pass { now_ms, replies }),
    ensures
        ({
            let engaged = latest_engagement(happenings, k, islands[0].autonomous_engaged);
            let outputs = islands[k + 1].last_outputs;
            let done = islands[k].done(now_ms, replies);
            &&& outputs.op_mode_state == operation_mode(engaged)
            &&& outputs.autonomous_engaged == engaged
            &&& done[done.len() - 4] matches ChainAction::DriveGate(input)
            &&& input.engaged == engaged
        }),
{
    law_latest_requests_hold(islands, happenings, k);
    assert(happens(islands[k], happenings[k], islands[k + 1]));
    law_pass_reports_the_flags(islands[k], now_ms, replies);
}

/// Every tick, whatever came before in whatever order, reports an emergency exactly if the
/// external emergency stop was asked for last or a minimum-risk manoeuvre is under way, and
/// tells the command gate of it.
pub proof fn law_every_tick_reports_the_latest_emergency(
    islands: Seq<SafetyIsland>,
    happenings: Seq<Happening>,
    k: int,
    now_ms: u64,
    replies: Replies,
)
    requires
        is_history(islands, happenings),
        0 <= k < happenings.len(),
        happenings[k] == (Happening::Pass { now_ms, replies }),
    ensures
        ({
            let asserted = latest_emergency(happenings, k, islands[0].external_emergency_stop);
            let done = islands[k].done(now_ms, replies);
            &&& islands[k + 1].last_outputs.is_emergency == (asserted || replies.settled_state
                == MRM_STATE_OPERATING)
            &&& done[done.len() - 4] matches ChainAction::DriveGate(input)
            &&& input.system_emergency == (asserted || replies.mrm_state == MRM_STATE_OPERATING)
        }),
{
    law_latest_requests_hold(islands, happenings, k);
    assert(happens(islands[k], happenings[k], islands[k + 1]));
    law_pass_reports_the_flags(islands[k], now_ms, replies);
}

/// An external emergency stop that was asserted stays until it is cleared: every tick in
/// between reports an emergency, and the command gate is told of it.
pub proof fn law_external_emergency_stays_until_cleared(
    islands: Seq<SafetyIsland>,
    happenings: Seq<Happening>,
    asserted: int,
    k: int,
    now_ms: u64,
    replies: Replies,
)
    requires
        is_history(islands, happenings),
        0 <= asserted < k < happenings.len(),
        emergency_asked(happenings[asserted]) == Some(true),
        forall|i: int|
            asserted < i < k ==> emergency_asked(#[trigger] happenings[i]) != Some(false),
        happenings[k] == (Happening::Pass { now_ms, replies }),
    ensures
        islands[k + 1].last_outputs.is_emergency,
        ({
            let done = islands[k].done(now_ms, replies);
            &&& done[done.len() - 4] matches ChainAction::DriveGate(input)
            &&& input.system_emergency
        }),
{
    lemma_asserted_emergency_is_latest(
        happenings,
        asserted,
        k,
        islands[0].external_emergency_stop,
    );
    law_every_tick_reports_the_latest_emergency(islands, happenings, k, now_ms, replies);
}

proof fn lemma_asserted_emergency_is_latest(
    happenings: Seq<Happening>,
    asserted: int,
    n: int,
    start: bool,
)
    requires
        0 <= asserted < n <= happenings.len(),
        emergency_asked(happenings[asserted]) == Some(true),
        forall|i: int|
            asserted < i < n ==> emergency_asked(#[trigger] happenings[i]) != Some(false),
    ensures
        latest_emergency(happenings, n, start),
    decreases n,
{
    let asked = Seq::new(n as nat, |i: int| emergency_asked(happenings[i]));
    assert(asked.last() == emergency_asked(happenings[n - 1]));
    if n - 1 > asserted {
        lemma_asserted_emergency_is_latest(happenings, asserted, n - 1, start);
        assert(asked.drop_last() =~= Seq::new(
            (n - 1) as nat,
            |i: int| emergency_asked(happenings[i]),
        ));
    }
}

// ---------------------------------------------------------------------------
// The trajectory follower
// ---------------------------------------------------------------------------

/// A trajectory has arrived.
pub open spec fn is_trajectory(what: Happening) -> bool {
    what matches Happening::Message {
        source: Source::Trajectory,
        input: Input::Trajectory(_),
        ..
    }
}

/// A position has arrived.
pub open spec fn is_odometry(what: Happening) -> bool {
    what matches Happening::Message {
        source: Source::KinematicState,
        input: Input::Odometry(_),
        ..
    }
}

/// A steering angle has arrived.
pub open spec fn is_steering(what: Happening) -> bool {
    what matches Happening::Message {
        source: Source::SteeringStatus,
        input: Input::Steering(_),
        ..
    }
}

/// A control command has arrived from outside.
pub open spec fn is_control(what: Happening) -> bool {
    what matches Happening::Message {
        source: Source::FollowerControl,
        input: Input::Control(_),
        ..
    }
}

proof fn lemma_one_happening_is_remembered(
    before: SafetyIsland,
    what: Happening,
    after: SafetyIsland,
)
    requires
        before.phase == ChainPhase::Idle,
        happens(before, what, after),
    ensures
        after.controller == before.controller,
        after.has_trajectory == (before.has_trajectory || is_trajectory(what)),
        after.has_odometry == (before.has_odometry || is_odometry(what)),
        after.has_steering == (before.has_steering || is_steering(what)),
        after.has_external_control == (before.has_external_control || is_control(what)),
{
    match what {
        Happening::Message { source, input, now_ms } => {
            law_inputs_are_not_forgotten(before, source, input, now_ms, after);
        },
        Happening::Sensing(_) => {},
        Happening::Request { service, flag } => {
            law_requests_change_one_flag(before, service, flag);
        },
        Happening::Pass { now_ms, replies } => {
            law_pass_changes_nothing_else(before, now_ms, replies);
        },
    }
}

/// What the trajectory follower waits for is known exactly from the moment on at which it has
/// arrived, and control comes from outside exactly from its first command on, whatever else
/// happens.
pub proof fn law_arrivals_are_remembered(
    islands: Seq<SafetyIsland>,
    happenings: Seq<Happening>,
    n: int,
)
    requires
        is_history(islands, happenings),
        0 <= n <= happenings.len(),
    ensures
        islands[n].controller == islands[0].controller,
        islands[n].has_trajectory <==> islands[0].has_trajectory || exists|i: int|
            0 <= i < n && is_trajectory(#[trigger] happenings[i]),
        islands[n].has_odometry <==> islands[0].has_odometry || exists|i: int|
            0 <= i < n && is_odometry(#[trigger] happenings[i]),
        islands[n].has_steering <==> islands[0].has_steering || exists|i: int|
            0 <= i < n && is_steering(#[trigger] happenings[i]),
        islands[n].has_external_control <==> islands[0].has_external_control || exists|i: int|
            0 <= i < n && is_control(#[trigger] happenings[i]),
    decreases n,
{
    if n > 0 {
        let k = n - 1;
        law_arrivals_are_remembered(islands, happenings, k);
        law_latest_requests_hold(islands, happenings, k);
        assert(happens(islands[k], happenings[k], islands[k + 1]));
        lemma_one_happening_is_remembered(islands[k], happenings[k], islands[n]);
    }
}

/// In a build with the trajectory follower, a tick asks it exactly if a trajectory, a position
/// and a steering angle have each arrived, in whatever order and whatever came in between,
/// and no control command has come from outside.
pub proof fn law_follower_is_asked_once_all_has_arrived(
    islands: Seq<SafetyIsland>,
    happenings: Seq<Happening>,
    k: int,
    now_ms: u64,
    replies: Replies,
)
    requires
        is_history(islands, happenings),
        islands[0].is_initial(),
        islands[0].controller,
        0 <= k < happenings.len(),
        happenings[k] == (Happening::Pass { now_ms, replies }),
    ensures
        islands[k].done(now_ms, replies)[0] is RunController <==> {
            &&& exists|i: int| 0 <= i < k && is_trajectory(#[trigger] happenings[i])
            &&& exists|i: int| 0 <= i < k && is_odometry(#[trigger] happenings[i])
            &&& exists|i: int| 0 <= i < k && is_steering(#[trigger] happenings[i])
            &&& forall|i: int| 0 <= i < k ==> !is_control(#[trigger] happenings[i])
        },
{
    law_arrivals_are_remembered(islands, happenings, k);
    law_latest_requests_hold(islands, happenings, k);
    law_order_of_a_pass(islands[k], now_ms, replies);
}

/// Every tick publishes the commands that the command gate gives at that tick, and the state,
/// the gear and the hazard lights that the minimum-risk manoeuvre handler gives at that tick,
/// whatever came before.
pub proof fn law_every_tick_publishes_its_own_commands(
    islands: Seq<SafetyIsland>,
    happenings: Seq<Happening>,
    k: int,
    now_ms: u64,
    replies: Replies,
)
    requires
        is_history(islands, happenings),
        0 <= k < happenings.len(),
        happenings[k] == (Happening::Pass { now_ms, replies }),
    ensures
        islands[k + 1].last_outputs.gate_control == replies.gate.control,
        islands[k + 1].last_outputs.gate_gear == replies.gate.gear,
        islands[k + 1].last_outputs.gate_turn == replies.gate.turn_indicators,
        islands[k + 1].last_outputs.mrm_state == replies.mrm.mrm_state,
        islands[k + 1].last_outputs.mrm_gear == replies.mrm.gear,
        islands[k + 1].last_outputs.mrm_hazard == replies.mrm.hazard_lights,
        islands[k].done(now_ms, replies).last() == ChainAction::Publish(
            islands[k + 1].last_outputs,
        ),
{
    law_latest_requests_hold(islands, happenings, k);
    assert(happens(islands[k], happenings[k], islands[k + 1]));
    law_pass_hands_over_what_the_algorithms_gave(islands[k], now_ms, replies);
}

} // verus!
