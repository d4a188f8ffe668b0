//! A pass of the control chain as a whole: what is done in it, in which order, and what
//! follows from it for driving.

use vstd::prelude::*;

use crate::chain::{
    operation_mode, stop_order, ChainAction, ChainEvent, ChainOutputs, ChainPhase,
    ControllerOutput, GateOutput, MrmOutput, StopOrder, StopReport, ValidationInput,
    ValidatorStatus, EXTERNAL_CONTROL_STALE_MS, MRM_STATE_OPERATING, OP_MODE_AUTONOMOUS, OP_MODE_STOP,
    VALIDATION_FAILURE_THRESHOLD,
};
use crate::endpoints::Service;
use crate::island::{FollowerInput, SafetyIsland};
use crate::messages::{Control, Longitudinal, OperationModeAvailability};
use crate::number::Real;

verus! {

/// What the algorithms give in one pass.
pub struct Replies {
    /// Of the trajectory follower, if it is asked.
    pub controller: Option<ControllerOutput>,
    pub watchdog: Option<OperationModeAvailability>,
    pub mrm: MrmOutput,
    pub mrm_state: u16,
    pub emergency: StopReport,
    pub comfortable: StopReport,
    pub auto_gear: u8,
    pub gate: GateOutput,
    pub cv: ValidatorStatus,
    /// State of the minimum-risk manoeuvre handler after the validation.
    pub settled_state: u16,
}

impl SafetyIsland {
    /// What the chain makes of several events: the island after them and what was to be
    /// done after each.
    #[verifier::opaque]
    pub open spec fn after_all(self, events: Seq<ChainEvent>) -> (SafetyIsland, Seq<ChainAction>)
        decreases events.len(),
    {
        if events.len() == 0 {
            (self, seq![])
        } else {
            let (reached, actions) = self.after_all(events.drop_last());
            let (end, action) = reached.after(events.last());
            (end, actions.push(action))
        }
    }

    /// The events of a pass: the tick and then what each algorithm gives.
    pub open spec fn pass_events(self, now_ms: u64, replies: Replies) -> Seq<ChainEvent> {
        seq![ChainEvent::Timer { now_ms }] + (if self.controller_runs() {
            seq![ChainEvent::ControllerRan(replies.controller)]
        } else {
            seq![]
        }) + seq![
            ChainEvent::WatchdogChecked(replies.watchdog),
            ChainEvent::MrmUpdated { output: replies.mrm, state: replies.mrm_state },
            ChainEvent::StopsDriven {
                emergency: replies.emergency,
                comfortable: replies.comfortable,
            },
            ChainEvent::GearDecided { command: replies.auto_gear },
            ChainEvent::GateDriven(replies.gate),
            ChainEvent::Validated(replies.cv),
            ChainEvent::MrmSettled { state: replies.settled_state },
        ]
    }

    /// The island with the autonomous control command of the pass: what the trajectory
    /// follower asks for, if it runs, and gentle braking in place of a stale command.
    pub open spec fn with_due_control(self, now_ms: u64, replies: Replies) -> SafetyIsland {
        let followed = if self.controller_runs() {
            SafetyIsland {
                auto_control: self.followed_control(replies.controller),
                input: FollowerInput {
                    is_autonomous: true,
                    is_in_transition: false,
                    ..self.input
                },
                ..self
            }
        } else {
            self
        };
        SafetyIsland { auto_control: followed.guarded_control(now_ms), ..followed }
    }

    /// What a pass gives.
    pub open spec fn pass_outputs(self, replies: Replies) -> ChainOutputs {
        self.outputs(
            replies.mrm,
            replies.emergency,
            replies.comfortable,
            replies.auto_gear,
            replies.gate,
            replies.cv,
            replies.settled_state,
        )
    }

    /// What is done in a pass, in its order.
    pub open spec fn pass_actions(self, now_ms: u64, replies: Replies) -> Seq<ChainAction> {
        let due = self.with_due_control(now_ms, replies);
        (if self.controller_runs() {
            seq![ChainAction::RunController { now_ms }]
        } else {
            seq![]
        }) + seq![
            ChainAction::CheckWatchdog { now_ms },
            ChainAction::UpdateMrm {
                velocity: self.current_velocity,
                availability: replies.watchdog,
            },
            ChainAction::DriveStops {
                emergency: stop_order(replies.mrm.emergency_stop_operate, self.current_velocity),
                comfortable: stop_order(
                    replies.mrm.comfortable_stop_operate,
                    self.current_velocity,
                ),
            },
            ChainAction::DecideGear {
                autoware_state: self.autoware_state,
                control: due.auto_control,
                gear_report: self.gear_report,
            },
            ChainAction::DriveGate(
                due.gate_input(
                    now_ms,
                    self.control_time(now_ms),
                    replies.mrm,
                    replies.mrm_state,
                    replies.emergency,
                    replies.comfortable,
                    replies.auto_gear,
                ),
            ),
            ChainAction::Validate(
                ValidationInput {
                    control: replies.gate.control,
                    velocity: self.current_velocity,
                    measured_acceleration: self.accel.linear.x,
                    target_velocity: replies.gate.control.longitudinal.velocity,
                    further: Real::zero(),
                },
            ),
            ChainAction::SettleMrm {
                availability: if replies.cv.invalid_count >= VALIDATION_FAILURE_THRESHOLD {
                    Some(OperationModeAvailability::unset())
                } else {
                    None
                },
            },
            ChainAction::Publish(self.pass_outputs(replies)),
        ]
    }
}

proof fn lemma_after_none(island: SafetyIsland)
    ensures
        island.after_all(seq![]) == (island, Seq::<ChainAction>::empty()),
{
    reveal(SafetyIsland::after_all);
}

/// One event more: if the chain makes this island and this action of it, they come last.
proof fn lemma_after_one_more(
    island: SafetyIsland,
    events: Seq<ChainEvent>,
    event: ChainEvent,
    end: SafetyIsland,
    action: ChainAction,
)
    requires
        island.after_all(events).0.after(event) == (end, action),
    ensures
        island.after_all(events.push(event)) == (end, island.after_all(events).1.push(action)),
{
    reveal(SafetyIsland::after_all);
    assert(events.push(event).drop_last() =~= events);
}

proof fn lemma_watchdog_step(
    island: SafetyIsland,
    events: Seq<ChainEvent>,
    now_ms: u64,
    autonomous_ms: u64,
    availability: Option<OperationModeAvailability>,
)
    requires
        island.after_all(events).0.phase == (ChainPhase::Watchdog { now_ms, autonomous_ms }),
    ensures
        ({
            let at = island.after_all(events).0;
            island.after_all(events.push(ChainEvent::WatchdogChecked(availability))) == (
                SafetyIsland { phase: ChainPhase::Mrm { now_ms, autonomous_ms }, ..at },
                island.after_all(events).1.push(
                    ChainAction::UpdateMrm { velocity: at.current_velocity, availability },
                ),
            )
        }),
{
    let at = island.after_all(events).0;
    lemma_after_one_more(
        island,
        events,
        ChainEvent::WatchdogChecked(availability),
        SafetyIsland { phase: ChainPhase::Mrm { now_ms, autonomous_ms }, ..at },
        ChainAction::UpdateMrm { velocity: at.current_velocity, availability },
    );
}

proof fn lemma_mrm_step(
    island: SafetyIsland,
    events: Seq<ChainEvent>,
    now_ms: u64,
    autonomous_ms: u64,
    mrm: MrmOutput,
    state: u16,
)
    requires
        island.after_all(events).0.phase == (ChainPhase::Mrm { now_ms, autonomous_ms }),
    ensures
        ({
            let at = island.after_all(events).0;
            island.after_all(events.push(ChainEvent::MrmUpdated { output: mrm, state })) == (
                SafetyIsland {
                    phase: ChainPhase::Stops { now_ms, autonomous_ms, mrm, state },
                    ..at
                },
                island.after_all(events).1.push(ChainAction::DriveStops {
                    emergency: stop_order(mrm.emergency_stop_operate, at.current_velocity),
                    comfortable: stop_order(mrm.comfortable_stop_operate, at.current_velocity),
                }),
            )
        }),
{
    let at = island.after_all(events).0;
    lemma_after_one_more(
        island,
        events,
        ChainEvent::MrmUpdated { output: mrm, state },
        SafetyIsland { phase: ChainPhase::Stops { now_ms, autonomous_ms, mrm, state }, ..at },
        ChainAction::DriveStops {
                    emergency: stop_order(mrm.emergency_stop_operate, at.current_velocity),
                    comfortable: stop_order(mrm.comfortable_stop_operate, at.current_velocity),
                },
    );
}

proof fn lemma_stops_step(
    island: SafetyIsland,
    events: Seq<ChainEvent>,
    now_ms: u64,
    autonomous_ms: u64,
    mrm: MrmOutput,
    state: u16,
    emergency: StopReport,
    comfortable: StopReport,
)
    requires
        island.after_all(events).0.phase == (
            ChainPhase::Stops { now_ms, autonomous_ms, mrm, state }
        ),
    ensures
        ({
            let at = island.after_all(events).0;
            island.after_all(events.push(ChainEvent::StopsDriven { emergency, comfortable })) == (
                SafetyIsland {
                    phase: ChainPhase::Gear {
                        now_ms,
                        autonomous_ms,
                        mrm,
                        state,
                        emergency,
                        comfortable,
                    },
                    ..at
                },
                island.after_all(events).1.push(ChainAction::DecideGear {
                    autoware_state: at.autoware_state,
                    control: at.auto_control,
                    gear_report: at.gear_report,
                }),
            )
        }),
{
    let at = island.after_all(events).0;
    lemma_after_one_more(
        island,
        events,
        ChainEvent::StopsDriven { emergency, comfortable },
        SafetyIsland {
            phase: ChainPhase::Gear { now_ms, autonomous_ms, mrm, state, emergency, comfortable },
            ..at
        },
        ChainAction::DecideGear {
                    autoware_state: at.autoware_state,
                    control: at.auto_control,
                    gear_report: at.gear_report,
                },
    );
}

proof fn lemma_gear_step(
    island: SafetyIsland,
    events: Seq<ChainEvent>,
    now_ms: u64,
    autonomous_ms: u64,
    mrm: MrmOutput,
    state: u16,
    emergency: StopReport,
    comfortable: StopReport,
    auto_gear: u8,
)
    requires
        island.after_all(events).0.phase == (
            ChainPhase::Gear { now_ms, autonomous_ms, mrm, state, emergency, comfortable }
        ),
    ensures
        ({
            let at = island.after_all(events).0;
            island.after_all(events.push(ChainEvent::GearDecided { command: auto_gear })) == (
                SafetyIsland {
                    phase: ChainPhase::Gate { mrm, emergency, comfortable, auto_gear },
                    ..at
                },
                island.after_all(events).1.push(ChainAction::DriveGate(
                    at.gate_input(
                        now_ms,
                        autonomous_ms,
                        mrm,
                        state,
                        emergency,
                        comfortable,
                        auto_gear,
                    ),
                )),
            )
        }),
{
    let at = island.after_all(events).0;
    lemma_after_one_more(
        island,
        events,
        ChainEvent::GearDecided { command: auto_gear },
        SafetyIsland { phase: ChainPhase::Gate { mrm, emergency, comfortable, auto_gear }, ..at },
        ChainAction::DriveGate(
                    at.gate_input(
                        now_ms,
                        autonomous_ms,
                        mrm,
                        state,
                        emergency,
                        comfortable,
                        auto_gear,
                    ),
                ),
    );
}

proof fn lemma_gate_step(
    island: SafetyIsland,
    events: Seq<ChainEvent>,
    mrm: MrmOutput,
    emergency: StopReport,
    comfortable: StopReport,
    auto_gear: u8,
    gate: GateOutput,
)
    requires
        island.after_all(events).0.phase == (
            ChainPhase::Gate { mrm, emergency, comfortable, auto_gear }
        ),
    ensures
        ({
            let at = island.after_all(events).0;
            island.after_all(events.push(ChainEvent::GateDriven(gate))) == (
                SafetyIsland {
                    phase: ChainPhase::Validation { mrm, emergency, comfortable, auto_gear, gate },
                    ..at
                },
                island.after_all(events).1.push(ChainAction::Validate(
                    ValidationInput {
                        control: gate.control,
                        velocity: at.current_velocity,
                        measured_acceleration: at.accel.linear.x,
                        target_velocity: gate.control.longitudinal.velocity,
                        further: Real::zero(),
                    },
                )),
            )
        }),
{
    let at = island.after_all(events).0;
    lemma_after_one_more(
        island,
        events,
        ChainEvent::GateDriven(gate),
        SafetyIsland {
            phase: ChainPhase::Validation { mrm, emergency, comfortable, auto_gear, gate },
            ..at
        },
        ChainAction::Validate(
                    ValidationInput {
                        control: gate.control,
                        velocity: at.current_velocity,
                        measured_acceleration: at.accel.linear.x,
                        target_velocity: gate.control.longitudinal.velocity,
                        further: Real::zero(),
                    },
                ),
    );
}

proof fn lemma_validation_step(
    island: SafetyIsland,
    events: Seq<ChainEvent>,
    mrm: MrmOutput,
    emergency: StopReport,
    comfortable: StopReport,
    auto_gear: u8,
    gate: GateOutput,
    cv: ValidatorStatus,
)
    requires
        island.after_all(events).0.phase == (
            ChainPhase::Validation { mrm, emergency, comfortable, auto_gear, gate }
        ),
    ensures
        ({
            let at = island.after_all(events).0;
            island.after_all(events.push(ChainEvent::Validated(cv))) == (
                SafetyIsland {
                    phase: ChainPhase::Settlement {
                        mrm,
                        emergency,
                        comfortable,
                        auto_gear,
                        gate,
                        cv,
                    },
                    ..at
                },
                island.after_all(events).1.push(ChainAction::SettleMrm {
                    availability: if cv.invalid_count >= VALIDATION_FAILURE_THRESHOLD {
                        Some(OperationModeAvailability::unset())
                    } else {
                        None
                    },
                }),
            )
        }),
{
    let at = island.after_all(events).0;
    lemma_after_one_more(
        island,
        events,
        ChainEvent::Validated(cv),
        SafetyIsland {
            phase: ChainPhase::Settlement { mrm, emergency, comfortable, auto_gear, gate, cv },
            ..at
        },
        ChainAction::SettleMrm {
                    availability: if cv.invalid_count >= VALIDATION_FAILURE_THRESHOLD {
                        Some(OperationModeAvailability::unset())
                    } else {
                        None
                    },
                },
    );
}

proof fn lemma_settlement_step(
    island: SafetyIsland,
    events: Seq<ChainEvent>,
    mrm: MrmOutput,
    emergency: StopReport,
    comfortable: StopReport,
    auto_gear: u8,
    gate: GateOutput,
    cv: ValidatorStatus,
    state: u16,
)
    requires
        island.after_all(events).0.phase == (
            ChainPhase::Settlement { mrm, emergency, comfortable, auto_gear, gate, cv }
        ),
    ensures
        ({
            let at = island.after_all(events).0;
            island.after_all(events.push(ChainEvent::MrmSettled { state })) == (
                SafetyIsland {
                    phase: ChainPhase::Idle,
                    last_outputs: at.outputs(
                        mrm,
                        emergency,
                        comfortable,
                        auto_gear,
                        gate,
                        cv,
                        state,
                    ),
                    ..at
                },
                island.after_all(events).1.push(
                    ChainAction::Publish(
                        at.outputs(mrm, emergency, comfortable, auto_gear, gate, cv, state),
                    ),
                ),
            )
        }),
{
    let at = island.after_all(events).0;
    lemma_after_one_more(
        island,
        events,
        ChainEvent::MrmSettled { state },
        SafetyIsland {
            phase: ChainPhase::Idle,
            last_outputs: at.outputs(mrm, emergency, comfortable, auto_gear, gate, cv, state),
            ..at
        },
        ChainAction::Publish(at.outputs(mrm, emergency, comfortable, auto_gear, gate, cv, state)),
    );
}

/// The part of a pass from the watchdog on.
proof fn lemma_rest_of_pass(
    island: SafetyIsland,
    head: Seq<ChainEvent>,
    now_ms: u64,
    autonomous_ms: u64,
    replies: Replies,
)
    requires
        island.after_all(head).0.phase == (ChainPhase::Watchdog { now_ms, autonomous_ms }),
    ensures
        ({
            let at = island.after_all(head).0;
            let (end, actions) = island.after_all(
                head + seq![
                    ChainEvent::WatchdogChecked(replies.watchdog),
                    ChainEvent::MrmUpdated { output: replies.mrm, state: replies.mrm_state },
                    ChainEvent::StopsDriven {
                        emergency: replies.emergency,
                        comfortable: replies.comfortable,
                    },
                    ChainEvent::GearDecided { command: replies.auto_gear },
                    ChainEvent::GateDriven(replies.gate),
                    ChainEvent::Validated(replies.cv),
                    ChainEvent::MrmSettled { state: replies.settled_state },
                ],
            );
            &&& end == (SafetyIsland {
                phase: ChainPhase::Idle,
                last_outputs: at.pass_outputs(replies),
                ..at
            })
            &&& actions == island.after_all(head).1 + seq![
                ChainAction::UpdateMrm {
                    velocity: at.current_velocity,
                    availability: replies.watchdog,
                },
                ChainAction::DriveStops {
                    emergency: stop_order(replies.mrm.emergency_stop_operate, at.current_velocity),
                    comfortable: stop_order(
                        replies.mrm.comfortable_stop_operate,
                        at.current_velocity,
                    ),
                },
                ChainAction::DecideGear {
                    autoware_state: at.autoware_state,
                    control: at.auto_control,
                    gear_report: at.gear_report,
                },
                ChainAction::DriveGate(
                    at.gate_input(
                        now_ms,
                        autonomous_ms,
                        replies.mrm,
                        replies.mrm_state,
                        replies.emergency,
                        replies.comfortable,
                        replies.auto_gear,
                    ),
                ),
                ChainAction::Validate(
                    ValidationInput {
                        control: replies.gate.control,
                        velocity: at.current_velocity,
                        measured_acceleration: at.accel.linear.x,
                        target_velocity: replies.gate.control.longitudinal.velocity,
                        further: Real::zero(),
                    },
                ),
                ChainAction::SettleMrm {
                    availability: if replies.cv.invalid_count >= VALIDATION_FAILURE_THRESHOLD {
                        Some(OperationModeAvailability::unset())
                    } else {
                        None
                    },
                },
                ChainAction::Publish(at.pass_outputs(replies)),
            ]
        }),
{
    let e1 = ChainEvent::WatchdogChecked(replies.watchdog);
    let e2 = ChainEvent::MrmUpdated { output: replies.mrm, state: replies.mrm_state };
    let e3 = ChainEvent::StopsDriven {
        emergency: replies.emergency,
        comfortable: replies.comfortable,
    };
    let e4 = ChainEvent::GearDecided { command: replies.auto_gear };
    let e5 = ChainEvent::GateDriven(replies.gate);
    let e6 = ChainEvent::Validated(replies.cv);
    let e7 = ChainEvent::MrmSettled { state: replies.settled_state };
    let h1 = head.push(e1);
    let h2 = h1.push(e2);
    let h3 = h2.push(e3);
    let h4 = h3.push(e4);
    let h5 = h4.push(e5);
    let h6 = h5.push(e6);
    let h7 = h6.push(e7);
    let Replies {
        controller,
        watchdog,
        mrm,
        mrm_state,
        emergency,
        comfortable,
        auto_gear,
        gate,
        cv,
        settled_state,
    } = replies;
    lemma_watchdog_step(island, head, now_ms, autonomous_ms, watchdog);
    lemma_mrm_step(island, h1, now_ms, autonomous_ms, mrm, mrm_state);
    lemma_stops_step(island, h2, now_ms, autonomous_ms, mrm, mrm_state, emergency, comfortable);
    lemma_gear_step(
        island,
        h3,
        now_ms,
        autonomous_ms,
        mrm,
        mrm_state,
        emergency,
        comfortable,
        auto_gear,
    );
    lemma_gate_step(island, h4, mrm, emergency, comfortable, auto_gear, gate);
    lemma_validation_step(island, h5, mrm, emergency, comfortable, auto_gear, gate, cv);
    lemma_settlement_step(
        island,
        h6,
        mrm,
        emergency,
        comfortable,
        auto_gear,
        gate,
        cv,
        settled_state,
    );
    assert(head + seq![e1, e2, e3, e4, e5, e6, e7] =~= h7);
}

/// From a tick on, with whatever the algorithms give, the chain does in this order: it asks
/// the trajectory follower, if that is in charge, then the watchdog, the minimum-risk
/// manoeuvre handler, the stop manoeuvres, the gear, the command gate and the validator,
/// tells the handler of the validation, and publishes. Then it waits for the next tick, and
/// nothing has changed but the control command, what the trajectory follower was told, and
/// the outputs that are kept.
pub proof fn law_pass(island: SafetyIsland, now_ms: u64, replies: Replies)
    requires
        island.phase == ChainPhase::Idle,
    ensures
        island.after_all(island.pass_events(now_ms, replies)).0 == (SafetyIsland {
            last_outputs: island.pass_outputs(replies),
            ..island.with_due_control(now_ms, replies)
        }),
        island.after_all(island.pass_events(now_ms, replies)).1 == island.pass_actions(
            now_ms,
            replies,
        ),
{
    let tick = ChainEvent::Timer { now_ms };
    let none = Seq::<ChainEvent>::empty();
    let rest = seq![
        ChainEvent::WatchdogChecked(replies.watchdog),
        ChainEvent::MrmUpdated { output: replies.mrm, state: replies.mrm_state },
        ChainEvent::StopsDriven { emergency: replies.emergency, comfortable: replies.comfortable },
        ChainEvent::GearDecided { command: replies.auto_gear },
        ChainEvent::GateDriven(replies.gate),
        ChainEvent::Validated(replies.cv),
        ChainEvent::MrmSettled { state: replies.settled_state },
    ];
    let ticked = none.push(tick);
    lemma_after_none(island);
    lemma_after_one_more(
        island,
        none,
        tick,
        island.after_timer(now_ms).0,
        island.after_timer(now_ms).1,
    );
    if island.controller_runs() {
        let ran = ChainEvent::ControllerRan(replies.controller);
        let head = ticked.push(ran);
        let at = island.after_timer(now_ms).0;
        lemma_after_one_more(
            island,
            ticked,
            ran,
            at.after_controller(replies.controller).0,
            at.after_controller(replies.controller).1,
        );
        lemma_rest_of_pass(island, head, now_ms, island.control_time(now_ms), replies);
        assert(island.pass_events(now_ms, replies) =~= head + rest);
        assert(island.after_all(head).1 =~= seq![
            ChainAction::RunController { now_ms },
            ChainAction::CheckWatchdog { now_ms },
        ]);
    } else {
        lemma_rest_of_pass(island, ticked, now_ms, island.control_time(now_ms), replies);
        assert(island.pass_events(now_ms, replies) =~= ticked + rest);
        assert(island.after_all(ticked).1 =~= seq![ChainAction::CheckWatchdog { now_ms }]);
    }
    assert(island.after_all(island.pass_events(now_ms, replies)).1 =~= island.pass_actions(
        now_ms,
        replies,
    ));
}

// ---------------------------------------------------------------------------
// What follows for driving
// ---------------------------------------------------------------------------

impl SafetyIsland {
    /// The island after a pass.
    pub open spec fn passed(self, now_ms: u64, replies: Replies) -> SafetyIsland {
        self.after_all(self.pass_events(now_ms, replies)).0
    }

    /// What was done in a pass.
    pub open spec fn done(self, now_ms: u64, replies: Replies) -> Seq<ChainAction> {
        self.after_all(self.pass_events(now_ms, replies)).1
    }
}

/// What a pass reports of engagement and emergency depends on the island's own flags and on
/// the state of the minimum-risk manoeuvre handler alone, and a pass leaves those flags as
/// they are.
pub proof fn law_pass_reports_the_flags(island: SafetyIsland, now_ms: u64, replies: Replies)
    requires
        island.phase == ChainPhase::Idle,
    ensures
        ({
            let after = island.passed(now_ms, replies);
            let done = island.done(now_ms, replies);
            &&& after.phase == ChainPhase::Idle
            &&& after.autonomous_engaged == island.autonomous_engaged
            &&& after.external_emergency_stop == island.external_emergency_stop
            &&& after.last_outputs.op_mode_state == operation_mode(island.autonomous_engaged)
            &&& after.last_outputs.autonomous_engaged == island.autonomous_engaged
            &&& after.last_outputs.is_emergency == island.in_emergency(replies.settled_state)
            &&& done[done.len() - 4] matches ChainAction::DriveGate(input)
            &&& input.engaged == island.autonomous_engaged
            &&& input.system_emergency == island.in_emergency(replies.mrm_state)
        }),
{
    law_pass(island, now_ms, replies);
}

/// What a request makes of engagement and of the external emergency stop, whichever service
/// it came by; the chain goes on waiting for the tick.
pub proof fn law_requests_set_the_flags(island: SafetyIsland, service: Service, flag: Option<bool>)
    ensures
        island.served(service, flag).phase == island.phase,
        island.served(service, flag).autonomous_engaged == (match engagement_request(
            service,
            flag,
        ) {
            Some(engage) => engage,
            None => island.autonomous_engaged,
        }),
        island.served(service, flag).external_emergency_stop == (match emergency_request(
            service,
            flag,
        ) {
            Some(emergency) => emergency,
            None => island.external_emergency_stop,
        }),
{
}

/// A request that engages or disengages autonomous driving, with what it asks for.
pub open spec fn engagement_request(service: Service, flag: Option<bool>) -> Option<bool> {
    match service {
        Service::ChangeToAutonomous => Some(true),
        Service::ChangeToStop => Some(false),
        Service::SetEngage => flag,
        _ => None,
    }
}

/// A request that asserts or clears the external emergency stop, with what it asks for.
pub open spec fn emergency_request(service: Service, flag: Option<bool>) -> Option<bool> {
    match service {
        Service::ExternalEmergencyStop => Some(true),
        Service::ClearExternalEmergencyStop => Some(false),
        Service::SetEmergency => flag,
        _ => None,
    }
}

/// A pass that follows a request for engagement, whichever of the services it came by,
/// reports the operation mode that was asked for: autonomous once engaged, stop once
/// disengaged. After any other request it reports what was asked for before.
pub proof fn law_engagement_is_reported(
    island: SafetyIsland,
    service: Service,
    flag: Option<bool>,
    now_ms: u64,
    replies: Replies,
)
    requires
        island.phase == ChainPhase::Idle,
    ensures
        ({
            let outputs = island.served(service, flag).passed(now_ms, replies).last_outputs;
            let engaged = match engagement_request(service, flag) {
                Some(engage) => engage,
                None => island.autonomous_engaged,
            };
            &&& outputs.op_mode_state.mode == if engaged {
                OP_MODE_AUTONOMOUS
            } else {
                OP_MODE_STOP
            }
            &&& outputs.op_mode_state.is_autoware_control_enabled == engaged
            &&& outputs.autonomous_engaged == engaged
        }),
{
    law_requests_set_the_flags(island, service, flag);
    law_pass_reports_the_flags(island.served(service, flag), now_ms, replies);
}

/// When control comes from outside but has not come for too long, the command gate gets the
/// last command with the current velocity and a gentle deceleration in its place, under the
/// time at which that command came.
pub proof fn law_stale_control_is_replaced_by_braking(
    island: SafetyIsland,
    now_ms: u64,
    replies: Replies,
)
    requires
        island.phase == ChainPhase::Idle,
        island.has_external_control,
        now_ms > island.last_external_control_ms + EXTERNAL_CONTROL_STALE_MS,
    ensures
        ({
            let done = island.done(now_ms, replies);
            let braking = Control {
                longitudinal: Longitudinal {
                    velocity: island.current_velocity,
                    acceleration: Real::minus(15, 1),
                    ..island.auto_control.longitudinal
                },
                ..island.auto_control
            };
            &&& done[4] matches ChainAction::DriveGate(input)
            &&& input.autonomous.control == braking
            &&& input.autonomous_ms == island.last_external_control_ms
            &&& island.passed(now_ms, replies).auto_control == braking
        }),
{
    law_pass(island, now_ms, replies);
}

/// While control from outside is fresh, the command gate gets it as it came.
pub proof fn law_fresh_control_is_passed_on(island: SafetyIsland, now_ms: u64, replies: Replies)
    requires
        island.phase == ChainPhase::Idle,
        island.has_external_control,
        now_ms <= island.last_external_control_ms + EXTERNAL_CONTROL_STALE_MS,
    ensures
        ({
            let done = island.done(now_ms, replies);
            &&& done[4] matches ChainAction::DriveGate(input)
            &&& input.autonomous.control == island.auto_control
            &&& input.autonomous_ms == island.last_external_control_ms
            &&& island.passed(now_ms, replies).auto_control == island.auto_control
        }),
{
    law_pass(island, now_ms, replies);
}

/// Once control comes from outside the trajectory follower is not asked any more, and it
/// never is before it has a trajectory, a position and a steering angle.
#[verifier::rlimit(30)]
pub proof fn law_trajectory_follower_yields(island: SafetyIsland, now_ms: u64, replies: Replies)
    requires
        island.phase == ChainPhase::Idle,
        island.has_external_control || !island.controller || !island.has_trajectory
            || !island.has_odometry || !island.has_steering,
    ensures
        island.done(now_ms, replies)[0] == (ChainAction::CheckWatchdog { now_ms }),
        forall|i: int|
            0 <= i < island.done(now_ms, replies).len() ==> !(#[trigger] island.done(
                now_ms,
                replies,
            )[i] is RunController),
{
    law_pass(island, now_ms, replies);
}

/// An emergency stop that is asserted from outside, by whichever service, reaches the
/// command gate and the report in the next pass, whatever the algorithms give. Once it is
/// cleared, there is an emergency exactly while a minimum-risk manoeuvre is under way. Other
/// requests leave it as it was.
pub proof fn law_external_emergency_takes_effect(
    island: SafetyIsland,
    service: Service,
    flag: Option<bool>,
    now_ms: u64,
    replies: Replies,
)
    requires
        island.phase == ChainPhase::Idle,
    ensures
        ({
            let after = island.served(service, flag);
            let done = after.done(now_ms, replies);
            let asserted = match emergency_request(service, flag) {
                Some(emergency) => emergency,
                None => island.external_emergency_stop,
            };
            &&& done[done.len() - 4] matches ChainAction::DriveGate(input)
            &&& input.system_emergency == (asserted || replies.mrm_state == MRM_STATE_OPERATING)
            &&& after.passed(now_ms, replies).last_outputs.is_emergency == (asserted
                || replies.settled_state == MRM_STATE_OPERATING)
        }),
{
    law_requests_set_the_flags(island, service, flag);
    law_pass_reports_the_flags(island.served(service, flag), now_ms, replies);
}

/// The minimum-risk manoeuvre handler is told that nothing is available as soon as so many
/// commands in a row were invalid, and is told nothing before.
pub proof fn law_invalid_commands_call_for_a_manoeuvre(
    island: SafetyIsland,
    now_ms: u64,
    replies: Replies,
)
    requires
        island.phase == ChainPhase::Idle,
    ensures
        ({
            let done = island.done(now_ms, replies);
            done[done.len() - 2] == (ChainAction::SettleMrm {
                availability: if replies.cv.invalid_count >= VALIDATION_FAILURE_THRESHOLD {
                    Some(OperationModeAvailability::unset())
                } else {
                    None
                },
            })
        }),
{
    law_pass(island, now_ms, replies);
}

/// Every pass ends where it began, ready for the next tick, and a tick in the middle of a
/// pass changes nothing.
pub proof fn law_passes_do_not_overlap(island: SafetyIsland, now_ms: u64, replies: Replies)
    ensures
        island.phase == ChainPhase::Idle ==> island.passed(now_ms, replies).phase
            == ChainPhase::Idle,
        island.phase != ChainPhase::Idle ==> island.after(ChainEvent::Timer { now_ms }) == (
            island,
            ChainAction::Nothing,
        ),
{
    if island.phase == ChainPhase::Idle {
        law_pass(island, now_ms, replies);
    }
}

/// A pass keeps the island well formed.
pub proof fn law_pass_keeps_island_well_formed(island: SafetyIsland, now_ms: u64, replies: Replies)
    requires
        island.phase == ChainPhase::Idle,
        island.wf(),
    ensures
        island.passed(now_ms, replies).wf(),
{
    law_pass(island, now_ms, replies);
}

// ---------------------------------------------------------------------------
// What a pass hands over, and what it asks of each algorithm
// ---------------------------------------------------------------------------

/// Whatever the stop manoeuvres report and whatever was published before, a pass hands over
/// the commands that the command gate gave in this pass and the state, gear and hazard lights
/// that the minimum-risk manoeuvre handler gave in this pass. The rest of its outputs are the
/// gear for autonomous driving, the findings of the validator and whether the manoeuvres
/// operate, as they were given in this pass too. They are published once, at the end.
pub proof fn law_pass_hands_over_what_the_algorithms_gave(
    island: SafetyIsland,
    now_ms: u64,
    replies: Replies,
)
    requires
        island.phase == ChainPhase::Idle,
    ensures
        ({
            let o = island.passed(now_ms, replies).last_outputs;
            let done = island.done(now_ms, replies);
            &&& o.gate_control == replies.gate.control
            &&& o.gate_gear == replies.gate.gear
            &&& o.gate_turn == replies.gate.turn_indicators
            &&& o.mrm_state == replies.mrm.mrm_state
            &&& o.mrm_gear == replies.mrm.gear
            &&& o.mrm_hazard == replies.mrm.hazard_lights
            &&& o.auto_gear == replies.auto_gear
            &&& o.estop_operating == replies.emergency.is_operating
            &&& o.comfy_operating == replies.comfortable.is_operating
            &&& o.cv == replies.cv
            &&& done.last() == ChainAction::Publish(o)
            &&& forall|i: int|
                0 <= i < done.len() - 1 ==> !(#[trigger] done[i] is Publish)
        }),
{
    law_pass(island, now_ms, replies);
}

/// A pass reports how the island stands, and nothing that the algorithms give changes that:
/// engaged or not, autonomous mode or stop mode with every other mode in reach, an emergency
/// exactly while one is asserted from outside or the minimum-risk manoeuvre handler ends in
/// its operating state, and the motion that the last velocity report gave.
pub proof fn law_pass_reports_how_the_island_stands(
    island: SafetyIsland,
    now_ms: u64,
    replies: Replies,
)
    requires
        island.phase == ChainPhase::Idle,
    ensures
        ({
            let o = island.passed(now_ms, replies).last_outputs;
            let mode = o.op_mode_state;
            &&& o.autonomous_engaged == island.autonomous_engaged
            &&& o.is_stopped == island.is_stopped
            &&& o.current_velocity == island.current_velocity
            &&& o.is_emergency <==> island.external_emergency_stop || replies.settled_state == 2
            &&& mode.mode == 2 <==> island.autonomous_engaged
            &&& mode.mode == 1 <==> !island.autonomous_engaged
            &&& mode.is_autoware_control_enabled == island.autonomous_engaged
            &&& !mode.is_in_transition
            &&& mode.is_stop_mode_available
            &&& mode.is_autonomous_mode_available
            &&& mode.is_local_mode_available
            &&& mode.is_remote_mode_available
            &&& mode.stamp.sec == 0
            &&& mode.stamp.nanosec == 0
        }),
{
    law_pass(island, now_ms, replies);
}

/// A pass leaves the island as it was, but for the control command, the flags that the
/// trajectory follower is given, and the outputs that are kept.
pub proof fn law_pass_changes_nothing_else(island: SafetyIsland, now_ms: u64, replies: Replies)
    requires
        island.phase == ChainPhase::Idle,
    ensures
        ({
            let after = island.passed(now_ms, replies);
            &&& after == (SafetyIsland {
                auto_control: after.auto_control,
                input: after.input,
                last_outputs: after.last_outputs,
                ..island
            })
            &&& after.input == (FollowerInput {
                is_autonomous: after.input.is_autonomous,
                is_in_transition: after.input.is_in_transition,
                ..island.input
            })
        }),
{
    law_pass(island, now_ms, replies);
}

/// The order of a pass. The trajectory follower is asked first exactly if it is part of the
/// build, no control comes from outside, and a trajectory, a position and a steering angle
/// have come; then it is told that driving is autonomous and not in transition. The other
/// eight steps come in every pass.
pub proof fn law_order_of_a_pass(island: SafetyIsland, now_ms: u64, replies: Replies)
    requires
        island.phase == ChainPhase::Idle,
    ensures
        ({
            let done = island.done(now_ms, replies);
            let n = done.len() as int;
            let follows = island.controller && !island.has_external_control
                && island.has_trajectory && island.has_odometry && island.has_steering;
            &&& follows ==> n == 9 && done[0] == (ChainAction::RunController { now_ms })
            &&& follows ==> island.passed(now_ms, replies).input.is_autonomous
            &&& follows ==> !island.passed(now_ms, replies).input.is_in_transition
            &&& !follows ==> n == 8 && island.passed(now_ms, replies).input == island.input
            &&& done[n - 8] == (ChainAction::CheckWatchdog { now_ms })
            &&& done[n - 7] is UpdateMrm
            &&& done[n - 6] is DriveStops
            &&& done[n - 5] is DecideGear
            &&& done[n - 4] is DriveGate
            &&& done[n - 3] is Validate
            &&& done[n - 2] is SettleMrm
            &&& done[n - 1] is Publish
        }),
{
    law_pass(island, now_ms, replies);
}

/// The minimum-risk manoeuvre handler is told the current velocity and the news of the
/// watchdog, whatever they are. Each stop manoeuvre is ordered to start, to end or nothing at
/// all, exactly as the handler asks for that manoeuvre, and starts from the current velocity.
pub proof fn law_manoeuvres_follow_their_handler(
    island: SafetyIsland,
    now_ms: u64,
    replies: Replies,
)
    requires
        island.phase == ChainPhase::Idle,
    ensures
        ({
            let done = island.done(now_ms, replies);
            let start = Some(StopOrder::Start { initial_velocity: island.current_velocity });
            &&& done[done.len() - 7] matches ChainAction::UpdateMrm { velocity, availability }
            &&& velocity == island.current_velocity
            &&& availability == replies.watchdog
            &&& done[done.len() - 6] matches ChainAction::DriveStops { emergency, comfortable }
            &&& emergency == start <==> replies.mrm.emergency_stop_operate == Some(true)
            &&& emergency == Some(StopOrder::End) <==> replies.mrm.emergency_stop_operate == Some(
                false,
            )
            &&& emergency is None <==> replies.mrm.emergency_stop_operate is None
            &&& comfortable == start <==> replies.mrm.comfortable_stop_operate == Some(true)
            &&& comfortable == Some(StopOrder::End) <==> replies.mrm.comfortable_stop_operate
                == Some(false)
            &&& comfortable is None <==> replies.mrm.comfortable_stop_operate is None
        }),
{
    law_pass(island, now_ms, replies);
}

/// The command gate and the choice of the gear get the control command of this pass. With it
/// goes the gear that was chosen for it, and, for emergencies, the command of the
/// emergency stop while that operates, else that of the comfortable stop while that operates,
/// else one that asks for nothing; with the gear and the hazard lights of the minimum-risk
/// manoeuvre handler.
pub proof fn law_gate_gets_both_sources(island: SafetyIsland, now_ms: u64, replies: Replies)
    requires
        island.phase == ChainPhase::Idle,
    ensures
        ({
            let done = island.done(now_ms, replies);
            let command = island.passed(now_ms, replies).auto_control;
            &&& done[done.len() - 5] matches ChainAction::DecideGear {
                autoware_state,
                control,
                gear_report,
            }
            &&& autoware_state == island.autoware_state
            &&& control == command
            &&& gear_report == island.gear_report
            &&& done[done.len() - 4] matches ChainAction::DriveGate(input)
            &&& input.now_ms == now_ms
            &&& input.current_speed == island.current_velocity
            &&& input.engaged == island.autonomous_engaged
            &&& input.system_emergency <==> island.external_emergency_stop || replies.mrm_state
                == 2
            &&& input.autonomous.control == command
            &&& input.autonomous.gear.command == replies.auto_gear
            &&& input.autonomous.turn_indicators.command == 0
            &&& input.autonomous.hazard_lights.command == 0
            &&& island.has_external_control ==> input.autonomous_ms
                == island.last_external_control_ms
            &&& !island.has_external_control ==> input.autonomous_ms == now_ms
            &&& replies.emergency.is_operating ==> input.emergency.control
                == replies.emergency.control
            &&& !replies.emergency.is_operating && replies.comfortable.is_operating
                ==> input.emergency.control == replies.comfortable.control
            &&& !replies.emergency.is_operating && !replies.comfortable.is_operating
                ==> asks_for_nothing(input.emergency.control)
            &&& input.emergency.gear == replies.mrm.gear
            &&& input.emergency.hazard_lights == replies.mrm.hazard_lights
            &&& input.emergency.turn_indicators.command == 0
        }),
{
    law_pass(island, now_ms, replies);
}

/// A control command with neither steering nor speed nor acceleration.
pub open spec fn asks_for_nothing(control: Control) -> bool {
    let zero = Real::Decimal { negative: false, units: 0, places: 0 };
    &&& control.lateral.steering_tire_angle == zero
    &&& control.lateral.steering_tire_rotation_rate == zero
    &&& !control.lateral.is_defined_steering_tire_rotation_rate
    &&& control.longitudinal.velocity == zero
    &&& control.longitudinal.acceleration == zero
    &&& control.longitudinal.jerk == zero
    &&& !control.longitudinal.is_defined_acceleration
    &&& !control.longitudinal.is_defined_jerk
}

/// The validator gets the command that was let through in this pass, with the velocity and
/// the acceleration that were measured. The minimum-risk manoeuvre handler is told that
/// nothing at all is available once 30 commands in a row were invalid, and nothing before.
pub proof fn law_validator_gets_what_the_gate_lets_through(
    island: SafetyIsland,
    now_ms: u64,
    replies: Replies,
)
    requires
        island.phase == ChainPhase::Idle,
    ensures
        ({
            let done = island.done(now_ms, replies);
            &&& done[done.len() - 3] matches ChainAction::Validate(input)
            &&& input.control == replies.gate.control
            &&& input.target_velocity == replies.gate.control.longitudinal.velocity
            &&& input.velocity == island.current_velocity
            &&& input.measured_acceleration == island.accel.linear.x
            &&& input.further == (Real::Decimal { negative: false, units: 0, places: 0 })
            &&& done[done.len() - 2] matches ChainAction::SettleMrm { availability }
            &&& availability is Some <==> replies.cv.invalid_count >= 30
            &&& availability matches Some(a) ==> {
                &&& !a.stop && !a.autonomous && !a.local && !a.remote
                &&& !a.emergency_stop && !a.comfortable_stop && !a.pull_over
            }
        }),
{
    law_pass(island, now_ms, replies);
}

/// Where the trajectory follower is asked, its steering, speed and acceleration become those
/// of the control command, and nothing else of the command changes; where it has nothing to
/// ask for, the command stays as it was.
pub proof fn law_followed_trajectory_becomes_the_command(
    island: SafetyIsland,
    now_ms: u64,
    replies: Replies,
)
    requires
        island.phase == ChainPhase::Idle,
        island.controller,
        !island.has_external_control,
        island.has_trajectory,
        island.has_odometry,
        island.has_steering,
    ensures
        ({
            let before = island.auto_control;
            let after = island.passed(now_ms, replies).auto_control;
            match replies.controller {
                Some(output) => {
                    &&& after.lateral.steering_tire_angle == output.steering_tire_angle
                    &&& after.lateral.steering_tire_rotation_rate
                        == output.steering_tire_rotation_rate
                    &&& after.longitudinal.velocity == output.velocity
                    &&& after.longitudinal.acceleration == output.acceleration
                    &&& after.stamp == before.stamp
                    &&& after.control_time == before.control_time
                    &&& after.lateral.stamp == before.lateral.stamp
                    &&& after.lateral.control_time == before.lateral.control_time
                    &&& after.lateral.is_defined_steering_tire_rotation_rate
                        == before.lateral.is_defined_steering_tire_rotation_rate
                    &&& after.longitudinal.stamp == before.longitudinal.stamp
                    &&& after.longitudinal.control_time == before.longitudinal.control_time
                    &&& after.longitudinal.jerk == before.longitudinal.jerk
                    &&& after.longitudinal.is_defined_acceleration
                        == before.longitudinal.is_defined_acceleration
                    &&& after.longitudinal.is_defined_jerk == before.longitudinal.is_defined_jerk
                },
                None => after == before,
            }
        }),
{
    law_pass(island, now_ms, replies);
}

/// Without the trajectory follower, the control command stays as it came for as long as it is
/// at most two seconds old. After that the vehicle brakes with 1.5 m/s² from its current
/// velocity, and steers on as it was told. Without control from outside there is nothing that
/// could grow old.
pub proof fn law_old_control_brakes(island: SafetyIsland, now_ms: u64, replies: Replies)
    requires
        island.phase == ChainPhase::Idle,
        island.has_external_control || !island.controller || !island.has_trajectory
            || !island.has_odometry || !island.has_steering,
    ensures
        ({
            let before = island.auto_control;
            let after = island.passed(now_ms, replies).auto_control;
            let aged = island.has_external_control && now_ms > island.last_external_control_ms
                + 2000;
            &&& !aged ==> after == before
            &&& aged ==> {
                &&& after.longitudinal.velocity == island.current_velocity
                &&& after.longitudinal.acceleration == (Real::Decimal {
                    negative: true,
                    units: 15,
                    places: 1,
                })
                &&& after.longitudinal.jerk == before.longitudinal.jerk
                &&& after.longitudinal.stamp == before.longitudinal.stamp
                &&& after.longitudinal.control_time == before.longitudinal.control_time
                &&& after.longitudinal.is_defined_acceleration
                    == before.longitudinal.is_defined_acceleration
                &&& after.longitudinal.is_defined_jerk == before.longitudinal.is_defined_jerk
                &&& after.lateral == before.lateral
                &&& after.stamp == before.stamp
                &&& after.control_time == before.control_time
            }
        }),
{
    law_pass(island, now_ms, replies);
}

/// The chain takes an event exactly if it is the one that it is waiting for; any other leaves
/// the island as it is, with nothing to do.
pub proof fn law_chain_takes_what_it_waits_for(island: SafetyIsland, event: ChainEvent)
    ensures
        ({
            let awaited = match island.phase {
                ChainPhase::Idle => event is Timer,
                ChainPhase::Controller { .. } => event is ControllerRan,
                ChainPhase::Watchdog { .. } => event is WatchdogChecked,
                ChainPhase::Mrm { .. } => event is MrmUpdated,
                ChainPhase::Stops { .. } => event is StopsDriven,
                ChainPhase::Gear { .. } => event is GearDecided,
                ChainPhase::Gate { .. } => event is GateDriven,
                ChainPhase::Validation { .. } => event is Validated,
                ChainPhase::Settlement { .. } => event is MrmSettled,
            };
            let (after, action) = island.after(event);
            &&& awaited ==> after.phase != island.phase && !(action is Nothing)
            &&& !awaited ==> after == island && action is Nothing
        }),
{
}

/// The first pass of a new island, whatever the algorithms give: it is not engaged and in
/// stop mode, stands still, and there is an emergency only if the minimum-risk manoeuvre
/// handler is operating. The trajectory follower is not asked, and the command asks for
/// nothing.
pub proof fn law_first_pass_of_a_new_island(island: SafetyIsland, now_ms: u64, replies: Replies)
    requires
        island.is_initial(),
    ensures
        ({
            let after = island.passed(now_ms, replies);
            let o = after.last_outputs;
            &&& !o.autonomous_engaged
            &&& o.op_mode_state.mode == 1
            &&& o.is_stopped
            &&& o.current_velocity == (Real::Decimal { negative: false, units: 0, places: 0 })
            &&& o.is_emergency <==> replies.settled_state == 2
            &&& island.done(now_ms, replies).len() == 8
            &&& asks_for_nothing(after.auto_control)
            &&& after.autoware_state.state == 5
        }),
{
    law_pass(island, now_ms, replies);
}

// ---------------------------------------------------------------------------
// Single steps, also when something came in between
// ---------------------------------------------------------------------------

/// The last step of a pass, in whatever state it finds the island: what the algorithms gave is
/// handed over as they gave it, with how the island stands at that moment.
pub proof fn law_last_step_hands_over(
    island: SafetyIsland,
    mrm: MrmOutput,
    emergency: StopReport,
    comfortable: StopReport,
    auto_gear: u8,
    gate: GateOutput,
    cv: ValidatorStatus,
    state: u16,
)
    requires
        island.phase == (ChainPhase::Settlement {
            mrm,
            emergency,
            comfortable,
            auto_gear,
            gate,
            cv,
        }),
    ensures
        ({
            let (after, action) = island.after(ChainEvent::MrmSettled { state });
            &&& action matches ChainAction::Publish(o)
            &&& after.last_outputs == o
            &&& after.phase is Idle
            &&& after == (SafetyIsland { phase: after.phase, last_outputs: o, ..island })
            &&& o.gate_control == gate.control
            &&& o.gate_gear == gate.gear
            &&& o.gate_turn == gate.turn_indicators
            &&& o.mrm_state == mrm.mrm_state
            &&& o.mrm_gear == mrm.gear
            &&& o.mrm_hazard == mrm.hazard_lights
            &&& o.auto_gear == auto_gear
            &&& o.estop_operating == emergency.is_operating
            &&& o.comfy_operating == comfortable.is_operating
            &&& o.cv == cv
            &&& o.autonomous_engaged == island.autonomous_engaged
            &&& o.op_mode_state.is_autoware_control_enabled == island.autonomous_engaged
            &&& o.is_stopped == island.is_stopped
            &&& o.current_velocity == island.current_velocity
            &&& o.is_emergency <==> island.external_emergency_stop || state == 2
        }),
{
}

/// The step before the command gate, in whatever state it finds the island: every emergency
/// and engagement are told as they stand at that moment.
pub proof fn law_gate_is_told_how_the_island_stands(
    island: SafetyIsland,
    now_ms: u64,
    autonomous_ms: u64,
    mrm: MrmOutput,
    state: u16,
    emergency: StopReport,
    comfortable: StopReport,
    command: u8,
)
    requires
        island.phase == (ChainPhase::Gear {
            now_ms,
            autonomous_ms,
            mrm,
            state,
            emergency,
            comfortable,
        }),
    ensures
        ({
            let (after, action) = island.after(ChainEvent::GearDecided { command });
            &&& action matches ChainAction::DriveGate(input)
            &&& after == (SafetyIsland { phase: after.phase, ..island })
            &&& input.now_ms == now_ms
            &&& input.autonomous_ms == autonomous_ms
            &&& input.system_emergency <==> island.external_emergency_stop || state == 2
            &&& input.engaged == island.autonomous_engaged
            &&& input.current_speed == island.current_velocity
            &&& input.autonomous.control == island.auto_control
            &&& input.autonomous.gear.command == command
            &&& input.emergency.gear == mrm.gear
            &&& input.emergency.hazard_lights == mrm.hazard_lights
            &&& emergency.is_operating ==> input.emergency.control == emergency.control
            &&& !emergency.is_operating && comfortable.is_operating ==> input.emergency.control
                == comfortable.control
            &&& !emergency.is_operating && !comfortable.is_operating ==> asks_for_nothing(
                input.emergency.control,
            )
        }),
{
}

} // verus!
