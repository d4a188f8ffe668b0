//! The control chain: what happens at every tick of the control timer.
//!
//! A pass goes from the trajectory follower, where it is in charge, over the watchdog, the
//! minimum-risk manoeuvre, the two stop manoeuvres, the gear, the command gate and the
//! validator to the messages that are published. The algorithms on the way run elsewhere:
//! [`SafetyIsland::step`] takes what the last one gave and says what to do next, until it
//! hands over the outputs of the pass.

use vstd::prelude::*;

use crate::island::{FollowerInput, SafetyIsland};
use crate::messages::{
    AutowareState, Control, GearCommand, GearReport, HazardLightsCommand, Lateral, Longitudinal,
    MrmState, OperationModeAvailability, OperationModeState, Time, TurnIndicatorsCommand,
};
use crate::number::Real;

verus! {

/// State of the minimum-risk manoeuvre handler while a manoeuvre is under way.
pub const MRM_STATE_OPERATING: u16 = 2;

/// After so many invalid commands in a row a minimum-risk manoeuvre is called for; at the
/// rate of the control timer this takes a second.
pub const VALIDATION_FAILURE_THRESHOLD: u32 = 30;

/// Passes of the control chain in a second, which the algorithms go by.
pub const CONTROL_RATE_HZ: u32 = 30;

/// Period of the control timer.
pub const CONTROL_PERIOD_MS: u64 = 33;

/// A control command from outside that is older than this is not followed any more.
pub const EXTERNAL_CONTROL_STALE_MS: u64 = 2000;

/// Operation mode: the vehicle stays where it is.
pub const OP_MODE_STOP: u8 = 1;

/// Operation mode: the vehicle drives on its own.
pub const OP_MODE_AUTONOMOUS: u8 = 2;

// ---------------------------------------------------------------------------
// What the algorithms take and give
// ---------------------------------------------------------------------------

/// What the trajectory follower asks of the vehicle.
#[derive(Clone, Copy, Debug, PartialEq, Eq, Structural)]
pub struct ControllerOutput {
    pub steering_tire_angle: Real,
    pub steering_tire_rotation_rate: Real,
    pub velocity: Real,
    pub acceleration: Real,
}

/// What the minimum-risk manoeuvre handler gives.
#[derive(Clone, Copy, Debug, PartialEq, Eq, Structural)]
pub struct MrmOutput {
    pub mrm_state: MrmState,
    pub gear: GearCommand,
    pub hazard_lights: HazardLightsCommand,
    /// The emergency stop shall start or end.
    pub emergency_stop_operate: Option<bool>,
    /// The comfortable stop shall start or end.
    pub comfortable_stop_operate: Option<bool>,
}

/// An order to a stop manoeuvre. One that starts is told the velocity to start from.
#[derive(Clone, Copy, Debug, PartialEq, Eq, Structural)]
pub enum StopOrder {
    Start { initial_velocity: Real },
    End,
}

/// What a stop manoeuvre gives in one pass.
#[derive(Clone, Copy, Debug, PartialEq, Eq, Structural)]
pub struct StopReport {
    pub control: Control,
    pub is_operating: bool,
}

/// The commands of one source to the command gate.
#[derive(Clone, Copy, Debug, PartialEq, Eq, Structural)]
pub struct SourceCommands {
    pub control: Control,
    pub gear: GearCommand,
    pub turn_indicators: TurnIndicatorsCommand,
    pub hazard_lights: HazardLightsCommand,
}

/// What the command gate takes in one pass.
#[derive(Clone, Copy, Debug, PartialEq, Eq, Structural)]
pub struct GateInput {
    pub now_ms: u64,
    pub system_emergency: bool,
    pub current_speed: Real,
    pub engaged: bool,
    pub autonomous: SourceCommands,
    /// When the autonomous commands came.
    pub autonomous_ms: u64,
    pub emergency: SourceCommands,
}

/// What the command gate lets through.
#[derive(Clone, Copy, Debug, PartialEq, Eq, Structural)]
pub struct GateOutput {
    pub control: Control,
    pub gear: GearCommand,
    pub turn_indicators: TurnIndicatorsCommand,
}

/// What the validator and the operation mode transitions take in one pass.
#[derive(Clone, Copy, Debug, PartialEq, Eq, Structural)]
pub struct ValidationInput {
    pub control: Control,
    pub velocity: Real,
    pub measured_acceleration: Real,
    pub target_velocity: Real,
    /// A further quantity that the validator takes; always 0 here.
    pub further: Real,
}

/// What the validator found.
#[derive(Clone, Copy, Debug, PartialEq, Eq, Structural)]
pub struct ValidatorStatus {
    pub is_valid_acc: bool,
    pub is_rolling_back: bool,
    pub is_over_velocity: bool,
    pub is_valid_lateral_jerk: bool,
    pub steering_rate: Real,
    pub lateral_jerk: Real,
    pub desired_acc: Real,
    pub measured_acc: Real,
    pub target_vel: Real,
    pub vehicle_vel: Real,
    /// Invalid commands in a row.
    pub invalid_count: u32,
}

impl ValidatorStatus {
    #[verifier::allow_in_spec]
    pub fn unset() -> ValidatorStatus
        returns
            (ValidatorStatus {
                is_valid_acc: false,
                is_rolling_back: false,
                is_over_velocity: false,
                is_valid_lateral_jerk: false,
                steering_rate: Real::zero(),
                lateral_jerk: Real::zero(),
                desired_acc: Real::zero(),
                measured_acc: Real::zero(),
                target_vel: Real::zero(),
                vehicle_vel: Real::zero(),
                invalid_count: 0,
            }),
    {
        ValidatorStatus {
            is_valid_acc: false,
            is_rolling_back: false,
            is_over_velocity: false,
            is_valid_lateral_jerk: false,
            steering_rate: Real::zero(),
            lateral_jerk: Real::zero(),
            desired_acc: Real::zero(),
            measured_acc: Real::zero(),
            target_vel: Real::zero(),
            vehicle_vel: Real::zero(),
            invalid_count: 0,
        }
    }
}

/// What a pass of the control chain gives. All messages are made from it.
#[derive(Clone, Copy, Debug, PartialEq, Eq, Structural)]
pub struct ChainOutputs {
    pub mrm_state: MrmState,
    pub mrm_gear: GearCommand,
    pub mrm_hazard: HazardLightsCommand,
    pub gate_control: Control,
    pub gate_gear: GearCommand,
    pub gate_turn: TurnIndicatorsCommand,
    pub auto_gear: u8,
    pub op_mode_state: OperationModeState,
    pub autonomous_engaged: bool,
    pub is_emergency: bool,
    pub is_stopped: bool,
    pub estop_operating: bool,
    pub comfy_operating: bool,
    pub current_velocity: Real,
    pub cv: ValidatorStatus,
}

impl ChainOutputs {
    /// What stands there before the first pass.
    #[verifier::allow_in_spec]
    pub fn unset() -> ChainOutputs
        returns
            (ChainOutputs {
                mrm_state: MrmState::unset(),
                mrm_gear: GearCommand::unset(),
                mrm_hazard: HazardLightsCommand::unset(),
                gate_control: Control::unset(),
                gate_gear: GearCommand::unset(),
                gate_turn: TurnIndicatorsCommand::unset(),
                auto_gear: 0,
                op_mode_state: OperationModeState::unset(),
                autonomous_engaged: false,
                is_emergency: false,
                is_stopped: false,
                estop_operating: false,
                comfy_operating: false,
                current_velocity: Real::zero(),
                cv: ValidatorStatus::unset(),
            }),
    {
        ChainOutputs {
            mrm_state: MrmState::unset(),
            mrm_gear: GearCommand::unset(),
            mrm_hazard: HazardLightsCommand::unset(),
            gate_control: Control::unset(),
            gate_gear: GearCommand::unset(),
            gate_turn: TurnIndicatorsCommand::unset(),
            auto_gear: 0,
            op_mode_state: OperationModeState::unset(),
            autonomous_engaged: false,
            is_emergency: false,
            is_stopped: false,
            estop_operating: false,
            comfy_operating: false,
            current_velocity: Real::zero(),
            cv: ValidatorStatus::unset(),
        }
    }
}

// ---------------------------------------------------------------------------
// Events, actions, phases
// ---------------------------------------------------------------------------

/// Something that the chain has been waiting for.
#[derive(Clone, Copy, Debug, PartialEq, Eq, Structural)]
pub enum ChainEvent {
    /// The control timer ticked.
    Timer { now_ms: u64 },
    /// The trajectory follower ran; it may have nothing to ask for.
    ControllerRan(Option<ControllerOutput>),
    /// The watchdog was asked; it may have news.
    WatchdogChecked(Option<OperationModeAvailability>),
    /// The minimum-risk manoeuvre handler ran and is in this state.
    MrmUpdated { output: MrmOutput, state: u16 },
    /// Both stop manoeuvres got their orders and ran.
    StopsDriven { emergency: StopReport, comfortable: StopReport },
    /// The gear for autonomous driving is known.
    GearDecided { command: u8 },
    /// The command gate ran.
    GateDriven(GateOutput),
    /// The validator and the operation mode transitions ran.
    Validated(ValidatorStatus),
    /// The minimum-risk manoeuvre handler was told of the validation and is in this state.
    MrmSettled { state: u16 },
}

/// What to do next.
#[derive(Clone, Copy, Debug, PartialEq, Eq, Structural)]
pub enum ChainAction {
    /// Nothing: the event was not the one that the chain is waiting for.
    Nothing,
    /// Run the trajectory follower on the inputs that the island holds.
    RunController { now_ms: u64 },
    /// Ask the watchdog.
    CheckWatchdog { now_ms: u64 },
    /// Tell the minimum-risk manoeuvre handler the velocity and the watchdog's news, if
    /// there are any, and run it.
    UpdateMrm { velocity: Real, availability: Option<OperationModeAvailability> },
    /// Give the stop manoeuvres their orders, if there are any, and run both.
    DriveStops { emergency: Option<StopOrder>, comfortable: Option<StopOrder> },
    /// Decide the gear for autonomous driving.
    DecideGear { autoware_state: AutowareState, control: Control, gear_report: GearReport },
    /// Run the command gate.
    DriveGate(GateInput),
    /// Run the validator and the operation mode transitions.
    Validate(ValidationInput),
    /// Tell the minimum-risk manoeuvre handler what is available, if anything is said, and
    /// read its state.
    SettleMrm { availability: Option<OperationModeAvailability> },
    /// Publish. The pass is over.
    Publish(ChainOutputs),
}

/// What the chain is waiting for, and what it has learned in this pass.
#[derive(Clone, Copy, Debug, PartialEq, Eq, Structural)]
pub enum ChainPhase {
    /// The next tick.
    Idle,
    /// The trajectory follower.
    Controller { now_ms: u64 },
    /// The watchdog.
    Watchdog { now_ms: u64, autonomous_ms: u64 },
    /// The minimum-risk manoeuvre handler.
    Mrm { now_ms: u64, autonomous_ms: u64 },
    /// The stop manoeuvres.
    Stops { now_ms: u64, autonomous_ms: u64, mrm: MrmOutput, state: u16 },
    /// The gear.
    Gear {
        now_ms: u64,
        autonomous_ms: u64,
        mrm: MrmOutput,
        state: u16,
        emergency: StopReport,
        comfortable: StopReport,
    },
    /// The command gate.
    Gate { mrm: MrmOutput, emergency: StopReport, comfortable: StopReport, auto_gear: u8 },
    /// The validator.
    Validation {
        mrm: MrmOutput,
        emergency: StopReport,
        comfortable: StopReport,
        auto_gear: u8,
        gate: GateOutput,
    },
    /// The minimum-risk manoeuvre handler, after the validation.
    Settlement {
        mrm: MrmOutput,
        emergency: StopReport,
        comfortable: StopReport,
        auto_gear: u8,
        gate: GateOutput,
        cv: ValidatorStatus,
    },
}

// ---------------------------------------------------------------------------
// The decisions
// ---------------------------------------------------------------------------

/// A manoeuvre that starts does so from the current velocity.
pub open spec fn stop_order(operate: Option<bool>, velocity: Real) -> Option<StopOrder> {
    match operate {
        Some(true) => Some(StopOrder::Start { initial_velocity: velocity }),
        Some(false) => Some(StopOrder::End),
        None => None,
    }
}

/// The command that counts in an emergency: that of the emergency stop while it operates,
/// else that of the comfortable stop while it operates, else the unset one.
pub open spec fn emergency_control(emergency: StopReport, comfortable: StopReport) -> Control {
    if emergency.is_operating {
        emergency.control
    } else if comfortable.is_operating {
        comfortable.control
    } else {
        Control::unset()
    }
}

/// The operation mode that is reported, engaged or not.
pub open spec fn operation_mode(engaged: bool) -> OperationModeState {
    OperationModeState {
        stamp: Time::unset(),
        mode: if engaged {
            OP_MODE_AUTONOMOUS
        } else {
            OP_MODE_STOP
        },
        is_autoware_control_enabled: engaged,
        is_in_transition: false,
        is_stop_mode_available: true,
        is_autonomous_mode_available: true,
        is_local_mode_available: true,
        is_remote_mode_available: true,
    }
}

impl SafetyIsland {
    /// The trajectory follower is in charge and knows all it needs.
    pub open spec fn controller_runs(&self) -> bool {
        &&& self.controller
        &&& !self.has_external_control
        &&& self.has_trajectory
        &&& self.has_odometry
        &&& self.has_steering
    }

    /// Control comes from outside, but has not come for too long.
    pub open spec fn control_is_stale(&self, now_ms: u64) -> bool {
        self.has_external_control && now_ms - self.last_external_control_ms
            > EXTERNAL_CONTROL_STALE_MS
    }

    /// The autonomous control command to go by: the latest one, or gentle braking from the
    /// current velocity when that is stale.
    pub open spec fn guarded_control(&self, now_ms: u64) -> Control {
        if self.control_is_stale(now_ms) {
            Control {
                longitudinal: Longitudinal {
                    velocity: self.current_velocity,
                    acceleration: Real::minus(15, 1),
                    ..self.auto_control.longitudinal
                },
                ..self.auto_control
            }
        } else {
            self.auto_control
        }
    }

    /// When the autonomous control command came.
    pub open spec fn control_time(&self, now_ms: u64) -> u64 {
        if self.has_external_control {
            self.last_external_control_ms
        } else {
            now_ms
        }
    }

    /// There is an emergency, given the state of the minimum-risk manoeuvre handler.
    pub open spec fn in_emergency(&self, mrm_state: u16) -> bool {
        mrm_state == MRM_STATE_OPERATING || self.external_emergency_stop
    }

    /// The control command with what the trajectory follower asks for.
    pub open spec fn followed_control(&self, output: Option<ControllerOutput>) -> Control {
        match output {
            Some(output) => Control {
                lateral: Lateral {
                    steering_tire_angle: output.steering_tire_angle,
                    steering_tire_rotation_rate: output.steering_tire_rotation_rate,
                    ..self.auto_control.lateral
                },
                longitudinal: Longitudinal {
                    velocity: output.velocity,
                    acceleration: output.acceleration,
                    ..self.auto_control.longitudinal
                },
                ..self.auto_control
            },
            None => self.auto_control,
        }
    }

    /// What the command gate is given.
    pub open spec fn gate_input(
        &self,
        now_ms: u64,
        autonomous_ms: u64,
        mrm: MrmOutput,
        state: u16,
        emergency: StopReport,
        comfortable: StopReport,
        auto_gear: u8,
    ) -> GateInput {
        GateInput {
            now_ms,
            system_emergency: self.in_emergency(state),
            current_speed: self.current_velocity,
            engaged: self.autonomous_engaged,
            autonomous: SourceCommands {
                control: self.auto_control,
                gear: GearCommand { stamp: Time::unset(), command: auto_gear },
                turn_indicators: TurnIndicatorsCommand::unset(),
                hazard_lights: HazardLightsCommand::unset(),
            },
            autonomous_ms,
            emergency: SourceCommands {
                control: emergency_control(emergency, comfortable),
                gear: mrm.gear,
                turn_indicators: TurnIndicatorsCommand::unset(),
                hazard_lights: mrm.hazard_lights,
            },
        }
    }

    /// What the pass gives.
    pub open spec fn outputs(
        &self,
        mrm: MrmOutput,
        emergency: StopReport,
        comfortable: StopReport,
        auto_gear: u8,
        gate: GateOutput,
        cv: ValidatorStatus,
        settled_state: u16,
    ) -> ChainOutputs {
        ChainOutputs {
            mrm_state: mrm.mrm_state,
            mrm_gear: mrm.gear,
            mrm_hazard: mrm.hazard_lights,
            gate_control: gate.control,
            gate_gear: gate.gear,
            gate_turn: gate.turn_indicators,
            auto_gear,
            op_mode_state: operation_mode(self.autonomous_engaged),
            autonomous_engaged: self.autonomous_engaged,
            is_emergency: self.in_emergency(settled_state),
            is_stopped: self.is_stopped,
            estop_operating: emergency.is_operating,
            comfy_operating: comfortable.is_operating,
            current_velocity: self.current_velocity,
            cv,
        }
    }

    /// From the point of the pass at which the autonomous control command is due: the island
    /// with the command to go by, waiting for the watchdog.
    pub open spec fn guarded(self, now_ms: u64) -> SafetyIsland {
        SafetyIsland {
            auto_control: self.guarded_control(now_ms),
            phase: ChainPhase::Watchdog { now_ms, autonomous_ms: self.control_time(now_ms) },
            ..self
        }
    }

    /// What the chain makes of a tick. It starts a pass unless one is under way.
    pub open spec fn after_timer(self, now_ms: u64) -> (SafetyIsland, ChainAction) {
        match self.phase {
            ChainPhase::Idle => if self.controller_runs() {
                (
                    SafetyIsland {
                        input: FollowerInput {
                            is_autonomous: true,
                            is_in_transition: false,
                            ..self.input
                        },
                        phase: ChainPhase::Controller { now_ms },
                        ..self
                    },
                    ChainAction::RunController { now_ms },
                )
            } else {
                (self.guarded(now_ms), ChainAction::CheckWatchdog { now_ms })
            },
            _ => (self, ChainAction::Nothing),
        }
    }

    /// What the chain makes of the trajectory follower's result.
    pub open spec fn after_controller(self, output: Option<ControllerOutput>) -> (
        SafetyIsland,
        ChainAction,
    ) {
        match self.phase {
            ChainPhase::Controller { now_ms } => (
                (SafetyIsland { auto_control: self.followed_control(output), ..self }).guarded(
                    now_ms,
                ),
                ChainAction::CheckWatchdog { now_ms },
            ),
            _ => (self, ChainAction::Nothing),
        }
    }

    /// What the chain makes of the watchdog's news.
    pub open spec fn after_watchdog(self, availability: Option<OperationModeAvailability>) -> (
        SafetyIsland,
        ChainAction,
    ) {
        match self.phase {
            ChainPhase::Watchdog { now_ms, autonomous_ms } => (
                SafetyIsland { phase: ChainPhase::Mrm { now_ms, autonomous_ms }, ..self },
                ChainAction::UpdateMrm { velocity: self.current_velocity, availability },
            ),
            _ => (self, ChainAction::Nothing),
        }
    }

    /// What the chain makes of the minimum-risk manoeuvre handler's result.
    pub open spec fn after_mrm(self, output: MrmOutput, state: u16) -> (SafetyIsland, ChainAction) {
        match self.phase {
            ChainPhase::Mrm { now_ms, autonomous_ms } => (
                SafetyIsland {
                    phase: ChainPhase::Stops { now_ms, autonomous_ms, mrm: output, state },
                    ..self
                },
                ChainAction::DriveStops {
                    emergency: stop_order(output.emergency_stop_operate, self.current_velocity),
                    comfortable: stop_order(output.comfortable_stop_operate, self.current_velocity),
                },
            ),
            _ => (self, ChainAction::Nothing),
        }
    }

    /// What the chain makes of the stop manoeuvres' results.
    pub open spec fn after_stops(self, emergency: StopReport, comfortable: StopReport) -> (
        SafetyIsland,
        ChainAction,
    ) {
        match self.phase {
            ChainPhase::Stops { now_ms, autonomous_ms, mrm, state } => (
                SafetyIsland {
                    phase: ChainPhase::Gear {
                        now_ms,
                        autonomous_ms,
                        mrm,
                        state,
                        emergency,
                        comfortable,
                    },
                    ..self
                },
                ChainAction::DecideGear {
                    autoware_state: self.autoware_state,
                    control: self.auto_control,
                    gear_report: self.gear_report,
                },
            ),
            _ => (self, ChainAction::Nothing),
        }
    }

    /// What the chain makes of the gear.
    pub open spec fn after_gear(self, command: u8) -> (SafetyIsland, ChainAction) {
        match self.phase {
            ChainPhase::Gear { now_ms, autonomous_ms, mrm, state, emergency, comfortable } => (
                SafetyIsland {
                    phase: ChainPhase::Gate { mrm, emergency, comfortable, auto_gear: command },
                    ..self
                },
                ChainAction::DriveGate(
                    self.gate_input(
                        now_ms,
                        autonomous_ms,
                        mrm,
                        state,
                        emergency,
                        comfortable,
                        command,
                    ),
                ),
            ),
            _ => (self, ChainAction::Nothing),
        }
    }

    /// What the chain makes of the command gate's result.
    pub open spec fn after_gate(self, gate: GateOutput) -> (SafetyIsland, ChainAction) {
        match self.phase {
            ChainPhase::Gate { mrm, emergency, comfortable, auto_gear } => (
                SafetyIsland {
                    phase: ChainPhase::Validation { mrm, emergency, comfortable, auto_gear, gate },
                    ..self
                },
                ChainAction::Validate(
                    ValidationInput {
                        control: gate.control,
                        velocity: self.current_velocity,
                        measured_acceleration: self.accel.linear.x,
                        target_velocity: gate.control.longitudinal.velocity,
                        further: Real::zero(),
                    },
                ),
            ),
            _ => (self, ChainAction::Nothing),
        }
    }

    /// What the chain makes of the validator's findings.
    pub open spec fn after_validation(self, cv: ValidatorStatus) -> (SafetyIsland, ChainAction) {
        match self.phase {
            ChainPhase::Validation { mrm, emergency, comfortable, auto_gear, gate } => (
                SafetyIsland {
                    phase: ChainPhase::Settlement {
                        mrm,
                        emergency,
                        comfortable,
                        auto_gear,
                        gate,
                        cv,
                    },
                    ..self
                },
                ChainAction::SettleMrm {
                    availability: if cv.invalid_count >= VALIDATION_FAILURE_THRESHOLD {
                        Some(OperationModeAvailability::unset())
                    } else {
                        None
                    },
                },
            ),
            _ => (self, ChainAction::Nothing),
        }
    }

    /// What the chain makes of the state that the minimum-risk manoeuvre handler ends in.
    pub open spec fn after_settlement(self, state: u16) -> (SafetyIsland, ChainAction) {
        match self.phase {
            ChainPhase::Settlement { mrm, emergency, comfortable, auto_gear, gate, cv } => {
                let outputs = self.outputs(
                    mrm,
                    emergency,
                    comfortable,
                    auto_gear,
                    gate,
                    cv,
                    state,
                );
                (
                    SafetyIsland { phase: ChainPhase::Idle, last_outputs: outputs, ..self },
                    ChainAction::Publish(outputs),
                )
            },
            _ => (self, ChainAction::Nothing),
        }
    }

    /// What the chain makes of an event: the island after it and what to do next. An event
    /// that it is not waiting for changes nothing.
    pub open spec fn after(self, event: ChainEvent) -> (SafetyIsland, ChainAction) {
        match event {
            ChainEvent::Timer { now_ms } => self.after_timer(now_ms),
            ChainEvent::ControllerRan(output) => self.after_controller(output),
            ChainEvent::WatchdogChecked(availability) => self.after_watchdog(availability),
            ChainEvent::MrmUpdated { output, state } => self.after_mrm(output, state),
            ChainEvent::StopsDriven { emergency, comfortable } => self.after_stops(
                emergency,
                comfortable,
            ),
            ChainEvent::GearDecided { command } => self.after_gear(command),
            ChainEvent::GateDriven(gate) => self.after_gate(gate),
            ChainEvent::Validated(cv) => self.after_validation(cv),
            ChainEvent::MrmSettled { state } => self.after_settlement(state),
        }
    }

    // -----------------------------------------------------------------------
    // The same in executable form
    // -----------------------------------------------------------------------

    /// Replaces a stale autonomous control command and goes on to the watchdog.
    fn guard_control(&mut self, now_ms: u64) -> (r: ChainAction)
        ensures
            *final(self) == old(self).guarded(now_ms),
            r == (ChainAction::CheckWatchdog { now_ms }),
    {
        let autonomous_ms: u64 = if self.has_external_control {
            let age_ms: u64 = now_ms.saturating_sub(self.last_external_control_ms);
            if age_ms > EXTERNAL_CONTROL_STALE_MS {
                self.auto_control.longitudinal.velocity = self.current_velocity;
                self.auto_control.longitudinal.acceleration = Real::minus(15, 1);
            }
            self.last_external_control_ms
        } else {
            now_ms
        };
        self.phase = ChainPhase::Watchdog { now_ms, autonomous_ms };
        ChainAction::CheckWatchdog { now_ms }
    }

    /// Whether the trajectory follower is in charge and knows all it needs.
    fn controller_is_due(&self) -> (r: bool)
        ensures
            r == self.controller_runs(),
    {
        self.controller && !self.has_external_control && self.has_trajectory && self.has_odometry
            && self.has_steering
    }

    /// Takes what the trajectory follower asks for.
    fn follow(&mut self, output: Option<ControllerOutput>)
        ensures
            *final(self) == (SafetyIsland {
                auto_control: old(self).followed_control(output),
                ..*old(self)
            }),
    {
        if let Some(output) = output {
            self.auto_control.lateral.steering_tire_angle = output.steering_tire_angle;
            self.auto_control.lateral.steering_tire_rotation_rate =
                output.steering_tire_rotation_rate;
            self.auto_control.longitudinal.velocity = output.velocity;
            self.auto_control.longitudinal.acceleration = output.acceleration;
        }
    }

    fn gate_input_of(
        &self,
        now_ms: u64,
        autonomous_ms: u64,
        mrm: MrmOutput,
        state: u16,
        emergency: StopReport,
        comfortable: StopReport,
        auto_gear: u8,
    ) -> (r: GateInput)
        ensures
            r == self.gate_input(
                now_ms,
                autonomous_ms,
                mrm,
                state,
                emergency,
                comfortable,
                auto_gear,
            ),
    {
        let mrm_control = if emergency.is_operating {
            emergency.control
        } else if comfortable.is_operating {
            comfortable.control
        } else {
            Control::unset()
        };
        GateInput {
            now_ms,
            system_emergency: state == MRM_STATE_OPERATING || self.external_emergency_stop,
            current_speed: self.current_velocity,
            engaged: self.autonomous_engaged,
            autonomous: SourceCommands {
                control: self.auto_control,
                gear: GearCommand { stamp: Time::unset(), command: auto_gear },
                turn_indicators: TurnIndicatorsCommand::unset(),
                hazard_lights: HazardLightsCommand::unset(),
            },
            autonomous_ms,
            emergency: SourceCommands {
                control: mrm_control,
                gear: mrm.gear,
                turn_indicators: TurnIndicatorsCommand::unset(),
                hazard_lights: mrm.hazard_lights,
            },
        }
    }

    fn outputs_of(
        &self,
        mrm: MrmOutput,
        emergency: StopReport,
        comfortable: StopReport,
        auto_gear: u8,
        gate: GateOutput,
        cv: ValidatorStatus,
        settled_state: u16,
    ) -> (r: ChainOutputs)
        ensures
            r == self.outputs(
                mrm,
                emergency,
                comfortable,
                auto_gear,
                gate,
                cv,
                settled_state,
            ),
    {
        let op_mode_state = OperationModeState {
            stamp: Time::unset(),
            mode: if self.autonomous_engaged {
                OP_MODE_AUTONOMOUS
            } else {
                OP_MODE_STOP
            },
            is_autoware_control_enabled: self.autonomous_engaged,
            is_in_transition: false,
            is_stop_mode_available: true,
            is_autonomous_mode_available: true,
            is_local_mode_available: true,
            is_remote_mode_available: true,
        };
        ChainOutputs {
            mrm_state: mrm.mrm_state,
            mrm_gear: mrm.gear,
            mrm_hazard: mrm.hazard_lights,
            gate_control: gate.control,
            gate_gear: gate.gear,
            gate_turn: gate.turn_indicators,
            auto_gear,
            op_mode_state,
            autonomous_engaged: self.autonomous_engaged,
            is_emergency: settled_state == MRM_STATE_OPERATING || self.external_emergency_stop,
            is_stopped: self.is_stopped,
            estop_operating: emergency.is_operating,
            comfy_operating: comfortable.is_operating,
            current_velocity: self.current_velocity,
            cv,
        }
    }

    fn on_timer(&mut self, now_ms: u64) -> (r: ChainAction)
        ensures
            (*final(self), r) == old(self).after_timer(now_ms),
    {
        match self.phase {
            ChainPhase::Idle => {
                if self.controller_is_due() {
                    self.input.is_autonomous = true;
                    self.input.is_in_transition = false;
                    self.phase = ChainPhase::Controller { now_ms };
                    ChainAction::RunController { now_ms }
                } else {
                    self.guard_control(now_ms)
                }
            },
            _ => ChainAction::Nothing,
        }
    }

    fn on_controller(&mut self, output: Option<ControllerOutput>) -> (r: ChainAction)
        ensures
            (*final(self), r) == old(self).after_controller(output),
    {
        match self.phase {
            ChainPhase::Controller { now_ms } => {
                self.follow(output);
                self.guard_control(now_ms)
            },
            _ => ChainAction::Nothing,
        }
    }

    fn on_watchdog(&mut self, availability: Option<OperationModeAvailability>) -> (r: ChainAction)
        ensures
            (*final(self), r) == old(self).after_watchdog(availability),
    {
        match self.phase {
            ChainPhase::Watchdog { now_ms, autonomous_ms } => {
                self.phase = ChainPhase::Mrm { now_ms, autonomous_ms };
                ChainAction::UpdateMrm { velocity: self.current_velocity, availability }
            },
            _ => ChainAction::Nothing,
        }
    }

    fn on_mrm(&mut self, output: MrmOutput, state: u16) -> (r: ChainAction)
        ensures
            (*final(self), r) == old(self).after_mrm(output, state),
    {
        match self.phase {
            ChainPhase::Mrm { now_ms, autonomous_ms } => {
                self.phase = ChainPhase::Stops { now_ms, autonomous_ms, mrm: output, state };
                ChainAction::DriveStops {
                    emergency: order_of(output.emergency_stop_operate, self.current_velocity),
                    comfortable: order_of(output.comfortable_stop_operate, self.current_velocity),
                }
            },
            _ => ChainAction::Nothing,
        }
    }

    fn on_stops(&mut self, emergency: StopReport, comfortable: StopReport) -> (r: ChainAction)
        ensures
            (*final(self), r) == old(self).after_stops(emergency, comfortable),
    {
        match self.phase {
            ChainPhase::Stops { now_ms, autonomous_ms, mrm, state } => {
                self.phase = ChainPhase::Gear {
                    now_ms,
                    autonomous_ms,
                    mrm,
                    state,
                    emergency,
                    comfortable,
                };
                ChainAction::DecideGear {
                    autoware_state: self.autoware_state,
                    control: self.auto_control,
                    gear_report: self.gear_report,
                }
            },
            _ => ChainAction::Nothing,
        }
    }

    fn on_gear(&mut self, command: u8) -> (r: ChainAction)
        ensures
            (*final(self), r) == old(self).after_gear(command),
    {
        match self.phase {
            ChainPhase::Gear { now_ms, autonomous_ms, mrm, state, emergency, comfortable } => {
                let input = self.gate_input_of(
                    now_ms,
                    autonomous_ms,
                    mrm,
                    state,
                    emergency,
                    comfortable,
                    command,
                );
                self.phase = ChainPhase::Gate { mrm, emergency, comfortable, auto_gear: command };
                ChainAction::DriveGate(input)
            },
            _ => ChainAction::Nothing,
        }
    }

    fn on_gate(&mut self, gate: GateOutput) -> (r: ChainAction)
        ensures
            (*final(self), r) == old(self).after_gate(gate),
    {
        match self.phase {
            ChainPhase::Gate { mrm, emergency, comfortable, auto_gear } => {
                self.phase = ChainPhase::Validation {
                    mrm,
                    emergency,
                    comfortable,
                    auto_gear,
                    gate,
                };
                ChainAction::Validate(
                    ValidationInput {
                        control: gate.control,
                        velocity: self.current_velocity,
                        measured_acceleration: self.accel.linear.x,
                        target_velocity: gate.control.longitudinal.velocity,
                        further: Real::zero(),
                    },
                )
            },
            _ => ChainAction::Nothing,
        }
    }

    fn on_validation(&mut self, cv: ValidatorStatus) -> (r: ChainAction)
        ensures
            (*final(self), r) == old(self).after_validation(cv),
    {
        match self.phase {
            ChainPhase::Validation { mrm, emergency, comfortable, auto_gear, gate } => {
                self.phase = ChainPhase::Settlement {
                    mrm,
                    emergency,
                    comfortable,
                    auto_gear,
                    gate,
                    cv,
                };
                let availability = if cv.invalid_count >= VALIDATION_FAILURE_THRESHOLD {
                    Some(OperationModeAvailability::unset())
                } else {
                    None
                };
                ChainAction::SettleMrm { availability }
            },
            _ => ChainAction::Nothing,
        }
    }

    fn on_settlement(&mut self, state: u16) -> (r: ChainAction)
        ensures
            (*final(self), r) == old(self).after_settlement(state),
    {
        match self.phase {
            ChainPhase::Settlement { mrm, emergency, comfortable, auto_gear, gate, cv } => {
                let outputs = self.outputs_of(
                    mrm,
                    emergency,
                    comfortable,
                    auto_gear,
                    gate,
                    cv,
                    state,
                );
                self.phase = ChainPhase::Idle;
                self.last_outputs = outputs;
                ChainAction::Publish(outputs)
            },
            _ => ChainAction::Nothing,
        }
    }

    /// Takes an event and says what to do next.
    pub fn step(&mut self, event: ChainEvent) -> (r: ChainAction)
        ensures
            (*final(self), r) == old(self).after(event),
    {
        match event {
            ChainEvent::Timer { now_ms } => self.on_timer(now_ms),
            ChainEvent::ControllerRan(output) => self.on_controller(output),
            ChainEvent::WatchdogChecked(availability) => self.on_watchdog(availability),
            ChainEvent::MrmUpdated { output, state } => self.on_mrm(output, state),
            ChainEvent::StopsDriven { emergency, comfortable } => self.on_stops(
                emergency,
                comfortable,
            ),
            ChainEvent::GearDecided { command } => self.on_gear(command),
            ChainEvent::GateDriven(gate) => self.on_gate(gate),
            ChainEvent::Validated(cv) => self.on_validation(cv),
            ChainEvent::MrmSettled { state } => self.on_settlement(state),
        }
    }
}

fn order_of(operate: Option<bool>, velocity: Real) -> (r: Option<StopOrder>)
    ensures
        r == stop_order(operate, velocity),
{
    match operate {
        Some(activate) => {
            if activate {
                Some(StopOrder::Start { initial_velocity: velocity })
            } else {
                Some(StopOrder::End)
            }
        },
        None => None,
    }
}

} // verus!
