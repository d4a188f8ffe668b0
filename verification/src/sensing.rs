//! What happens with a velocity report: it is converted, the converted velocity is filtered,
//! and the filtered one is differentiated over the time since the last report.
//!
//! The three algorithms run elsewhere. [`SafetyIsland::sense`] takes what the last one gave
//! and says what to do next, until the island knows the motion of the vehicle.

use vstd::prelude::*;

use crate::chain::{ChainAction, ChainPhase};
use crate::island::{Interval, SafetyIsland, SensedAcceleration, SensedMotion};
use crate::messages::{Motion, Time, Vector3};
use crate::pass::{
    law_gate_gets_both_sources, law_manoeuvres_follow_their_handler,
    law_pass_reports_how_the_island_stands, law_validator_gets_what_the_gate_lets_through, Replies,
};

verus! {

/// What the stop filter gives.
#[derive(Clone, Copy, Debug, PartialEq, Eq, Structural)]
pub struct FilteredMotion {
    pub twist: Motion,
    /// Whether the vehicle is taken for standing.
    pub was_stopped: bool,
}

/// Something that sensing has been waiting for.
#[derive(Clone, Copy)]
pub enum SensingEvent {
    /// A velocity report came.
    Reported { stamp: Time },
    /// The report was converted to this velocity.
    Converted(Motion),
    /// The converted velocity went through the stop filter.
    Filtered(FilteredMotion),
    /// The filtered velocity was differentiated; there may be no acceleration yet.
    Differentiated(Option<SensedAcceleration>),
}

/// What to do next.
#[derive(Clone, Copy, Debug, PartialEq, Eq, Structural)]
pub enum SensingAction {
    /// Nothing: the event was not the one that sensing is waiting for.
    Nothing,
    /// Convert the report.
    Convert,
    /// Put the velocity through the stop filter.
    Filter { linear: Vector3, angular: Vector3 },
    /// Differentiate the velocity over the time since the last report.
    Differentiate { twist: Motion, interval: Interval },
    /// The island knows the motion of the vehicle.
    Done,
}

/// What sensing is waiting for, and what it knows of the report.
#[derive(Clone, Copy, Debug, PartialEq, Eq, Structural)]
pub enum SensingPhase {
    /// A report.
    Idle,
    /// The converter.
    Conversion { stamp: Time, interval: Interval },
    /// The stop filter.
    Filtering { stamp: Time, interval: Interval },
    /// The differentiation.
    Differentiation { stamp: Time, filtered: FilteredMotion },
}

impl SafetyIsland {
    /// The island with the motion that a velocity report gave. The acceleration stays as it
    /// was when none could be derived.
    pub open spec fn moved(self, stamp: Time, sensed: SensedMotion) -> SafetyIsland {
        SafetyIsland {
            prev_stamp: Some(stamp),
            current_velocity: sensed.twist.linear.x,
            is_stopped: sensed.was_stopped,
            twist: sensed.twist,
            accel: match sensed.accel {
                Some(output) => output.accel,
                None => self.accel,
            },
            accel_covariance: match sensed.accel {
                Some(output) => output.covariance,
                None => self.accel_covariance,
            },
            ..self
        }
    }

    /// What sensing makes of an event: the island after it and what to do next. An event
    /// that it is not waiting for changes nothing.
    pub open spec fn sensed(self, event: SensingEvent) -> (SafetyIsland, SensingAction) {
        match (self.sensing, event) {
            (SensingPhase::Idle, SensingEvent::Reported { stamp }) => (
                SafetyIsland {
                    sensing: SensingPhase::Conversion { stamp, interval: self.interval(stamp) },
                    ..self
                },
                SensingAction::Convert,
            ),
            (SensingPhase::Conversion { stamp, interval }, SensingEvent::Converted(twist)) => (
                SafetyIsland { sensing: SensingPhase::Filtering { stamp, interval }, ..self },
                SensingAction::Filter { linear: twist.linear, angular: twist.angular },
            ),
            (SensingPhase::Filtering { stamp, interval }, SensingEvent::Filtered(filtered)) => (
                SafetyIsland { sensing: SensingPhase::Differentiation { stamp, filtered }, ..self },
                SensingAction::Differentiate { twist: filtered.twist, interval },
            ),
            (
                SensingPhase::Differentiation { stamp, filtered },
                SensingEvent::Differentiated(accel),
            ) => (
                (SafetyIsland { sensing: SensingPhase::Idle, ..self }).moved(
                    stamp,
                    SensedMotion {
                        twist: filtered.twist,
                        was_stopped: filtered.was_stopped,
                        accel,
                    },
                ),
                SensingAction::Done,
            ),
            _ => (self, SensingAction::Nothing),
        }
    }

    /// Takes an event and says what to do next. The time from the last report to a new one
    /// has to be one that can be expressed.
    pub fn sense(&mut self, event: SensingEvent) -> (r: SensingAction)
        requires
            event matches SensingEvent::Reported { stamp } ==> old(self).measurable(stamp),
        ensures
            (*final(self), r) == old(self).sensed(event),
    {
        match (self.sensing, event) {
            (SensingPhase::Idle, SensingEvent::Reported { stamp }) => {
                let interval = self.interval_to(stamp);
                self.sensing = SensingPhase::Conversion { stamp, interval };
                SensingAction::Convert
            },
            (SensingPhase::Conversion { stamp, interval }, SensingEvent::Converted(twist)) => {
                self.sensing = SensingPhase::Filtering { stamp, interval };
                SensingAction::Filter { linear: twist.linear, angular: twist.angular }
            },
            (SensingPhase::Filtering { stamp, interval }, SensingEvent::Filtered(filtered)) => {
                self.sensing = SensingPhase::Differentiation { stamp, filtered };
                SensingAction::Differentiate { twist: filtered.twist, interval }
            },
            (
                SensingPhase::Differentiation { stamp, filtered },
                SensingEvent::Differentiated(accel),
            ) => {
                self.sensing = SensingPhase::Idle;
                self.on_velocity_report(
                    stamp,
                    SensedMotion {
                        twist: filtered.twist,
                        was_stopped: filtered.was_stopped,
                        accel,
                    },
                );
                SensingAction::Done
            },
            _ => SensingAction::Nothing,
        }
    }
}

// ---------------------------------------------------------------------------
// A report as a whole
// ---------------------------------------------------------------------------

/// What the sensing algorithms give for one report.
pub struct SensingReplies {
    pub converted: Motion,
    pub filtered: FilteredMotion,
    pub accel: Option<SensedAcceleration>,
}

impl SafetyIsland {
    /// The island after a report with this stamp.
    pub open spec fn reported(self, stamp: Time, replies: SensingReplies) -> SafetyIsland {
        self.sensed(SensingEvent::Reported { stamp }).0.sensed(
            SensingEvent::Converted(replies.converted),
        ).0.sensed(SensingEvent::Filtered(replies.filtered)).0.sensed(
            SensingEvent::Differentiated(replies.accel),
        ).0
    }

    /// What was done for a report with this stamp.
    pub open spec fn report_actions(self, stamp: Time, replies: SensingReplies) -> Seq<
        SensingAction,
    > {
        let converting = self.sensed(SensingEvent::Reported { stamp });
        let filtering = converting.0.sensed(SensingEvent::Converted(replies.converted));
        let differentiating = filtering.0.sensed(SensingEvent::Filtered(replies.filtered));
        let done = differentiating.0.sensed(SensingEvent::Differentiated(replies.accel));
        seq![converting.1, filtering.1, differentiating.1, done.1]
    }
}

/// A point in time as a number of nanoseconds.
pub open spec fn nanoseconds(t: Time) -> int {
    t.sec * 1_000_000_000 + t.nanosec
}

/// An interval as a number of nanoseconds.
pub open spec fn interval_nanoseconds(interval: Interval) -> int {
    interval.seconds * 1_000_000_000 + interval.nanoseconds
}

/// Whatever the algorithms give: the stop filter gets the converted velocity, and the
/// differentiation gets the filtered one with the time since the last report. What they
/// give is then what the island knows of the motion, and nothing else changes.
pub proof fn law_report_goes_through_all_algorithms(
    island: SafetyIsland,
    stamp: Time,
    replies: SensingReplies,
)
    requires
        island.sensing == SensingPhase::Idle,
    ensures
        island.report_actions(stamp, replies) == seq![
            SensingAction::Convert,
            SensingAction::Filter {
                linear: replies.converted.linear,
                angular: replies.converted.angular,
            },
            SensingAction::Differentiate {
                twist: replies.filtered.twist,
                interval: island.interval(stamp),
            },
            SensingAction::Done,
        ],
        island.reported(stamp, replies) == island.moved(
            stamp,
            SensedMotion {
                twist: replies.filtered.twist,
                was_stopped: replies.filtered.was_stopped,
                accel: replies.accel,
            },
        ),
{
}

/// The acceleration is derived over the time between the stamps of two successive reports,
/// also where the nanoseconds run back; for the first report that time is 0.
pub proof fn law_acceleration_is_derived_over_the_time_between_reports(
    island: SafetyIsland,
    first: Time,
    first_replies: SensingReplies,
    second: Time,
    second_replies: SensingReplies,
)
    requires
        island.sensing == SensingPhase::Idle,
        i32::MIN <= second.sec - first.sec <= i32::MAX,
    ensures
        island.prev_stamp is None ==> (island.report_actions(first, first_replies)[2] matches
            SensingAction::Differentiate { interval, .. } && interval_nanoseconds(interval) == 0),
        ({
            let after = island.reported(first, first_replies);
            &&& after.measurable(second)
            &&& after.report_actions(second, second_replies)[2] matches
                SensingAction::Differentiate { twist, interval }
            &&& twist == second_replies.filtered.twist
            &&& interval.seconds == second.sec - first.sec
            &&& interval.nanoseconds == second.nanosec - first.nanosec
            &&& interval_nanoseconds(interval) == nanoseconds(second) - nanoseconds(first)
        }),
{
    law_report_goes_through_all_algorithms(island, first, first_replies);
    let after = island.reported(first, first_replies);
    law_report_goes_through_all_algorithms(after, second, second_replies);
}

/// What is known of the motion after a report, whether or not one came before: the velocity
/// and whether the vehicle stands are those of the stop filter; the acceleration and its
/// covariance are those of the differentiation where it gave any, and else as they were. The
/// report's stamp is kept for the next one. Nothing else changes.
pub proof fn law_report_gives_the_motion(
    island: SafetyIsland,
    stamp: Time,
    replies: SensingReplies,
)
    requires
        island.sensing == SensingPhase::Idle,
    ensures
        ({
            let after = island.reported(stamp, replies);
            &&& after.current_velocity == replies.filtered.twist.linear.x
            &&& after.is_stopped == replies.filtered.was_stopped
            &&& after.twist == replies.filtered.twist
            &&& after.prev_stamp == Some(stamp)
            &&& replies.accel matches Some(output) ==> {
                &&& after.accel == output.accel
                &&& after.accel_covariance == output.covariance
            }
            &&& replies.accel is None ==> {
                &&& after.accel == island.accel
                &&& after.accel_covariance == island.accel_covariance
            }
            &&& after == (SafetyIsland {
                prev_stamp: after.prev_stamp,
                current_velocity: after.current_velocity,
                is_stopped: after.is_stopped,
                twist: after.twist,
                accel: after.accel,
                accel_covariance: after.accel_covariance,
                ..island
            })
        }),
{
}

/// The same of a motion that the algorithms gave for a report, taken in at once.
pub proof fn law_sensed_motion_is_taken_in(island: SafetyIsland, stamp: Time, sensed: SensedMotion)
    ensures
        ({
            let after = island.moved(stamp, sensed);
            &&& after.current_velocity == sensed.twist.linear.x
            &&& after.is_stopped == sensed.was_stopped
            &&& after.twist == sensed.twist
            &&& after.prev_stamp == Some(stamp)
            &&& sensed.accel matches Some(output) ==> {
                &&& after.accel == output.accel
                &&& after.accel_covariance == output.covariance
            }
            &&& sensed.accel is None ==> {
                &&& after.accel == island.accel
                &&& after.accel_covariance == island.accel_covariance
            }
            &&& after == (SafetyIsland {
                prev_stamp: after.prev_stamp,
                current_velocity: after.current_velocity,
                is_stopped: after.is_stopped,
                twist: after.twist,
                accel: after.accel,
                accel_covariance: after.accel_covariance,
                ..island
            })
        }),
{
}

/// Of several reports the latest counts: the velocity is that of the last one, and the
/// acceleration that of the last one that gave any.
pub proof fn law_latest_report_counts(
    island: SafetyIsland,
    first: Time,
    first_replies: SensingReplies,
    second: Time,
    second_replies: SensingReplies,
)
    requires
        island.sensing == SensingPhase::Idle,
    ensures
        ({
            let after = island.reported(first, first_replies).reported(second, second_replies);
            &&& after.current_velocity == second_replies.filtered.twist.linear.x
            &&& after.is_stopped == second_replies.filtered.was_stopped
            &&& after.prev_stamp == Some(second)
            &&& second_replies.accel matches Some(output) ==> after.accel == output.accel
                && after.accel_covariance == output.covariance
            &&& second_replies.accel is None ==> (first_replies.accel matches Some(output)
                ==> after.accel == output.accel && after.accel_covariance == output.covariance)
        }),
{
    law_report_gives_the_motion(island, first, first_replies);
    law_report_gives_the_motion(
        island.reported(first, first_replies),
        second,
        second_replies,
    );
}

/// What a report gives reaches the next pass: the minimum-risk manoeuvre handler, the command
/// gate and the validator are given its velocity, the validator its acceleration, and the
/// outputs say whether the vehicle stands.
pub proof fn law_report_reaches_the_next_pass(
    island: SafetyIsland,
    stamp: Time,
    sensed: SensingReplies,
    now_ms: u64,
    replies: Replies,
)
    requires
        island.sensing == SensingPhase::Idle,
        island.phase == ChainPhase::Idle,
    ensures
        ({
            let after = island.reported(stamp, sensed);
            let done = after.done(now_ms, replies);
            let outputs = after.passed(now_ms, replies).last_outputs;
            let velocity = sensed.filtered.twist.linear.x;
            &&& done[done.len() - 7] matches ChainAction::UpdateMrm { velocity: told, .. }
            &&& told == velocity
            &&& done[done.len() - 4] matches ChainAction::DriveGate(gate)
            &&& gate.current_speed == velocity
            &&& done[done.len() - 3] matches ChainAction::Validate(validated)
            &&& validated.velocity == velocity
            &&& sensed.accel matches Some(output) ==> validated.measured_acceleration
                == output.accel.linear.x
            &&& outputs.current_velocity == velocity
            &&& outputs.is_stopped == sensed.filtered.was_stopped
        }),
{
    let after = island.reported(stamp, sensed);
    law_report_gives_the_motion(island, stamp, sensed);
    law_manoeuvres_follow_their_handler(after, now_ms, replies);
    law_gate_gets_both_sources(after, now_ms, replies);
    law_validator_gets_what_the_gate_lets_through(after, now_ms, replies);
    law_pass_reports_how_the_island_stands(after, now_ms, replies);
}

/// Sensing takes an event exactly if it is the one that it is waiting for; any other leaves
/// the island as it is, with nothing to do.
pub proof fn law_sensing_takes_what_it_waits_for(island: SafetyIsland, event: SensingEvent)
    ensures
        ({
            let awaited = match island.sensing {
                SensingPhase::Idle => event is Reported,
                SensingPhase::Conversion { .. } => event is Converted,
                SensingPhase::Filtering { .. } => event is Filtered,
                SensingPhase::Differentiation { .. } => event is Differentiated,
            };
            let (after, action) = island.sensed(event);
            &&& awaited ==> after.sensing != island.sensing && !(action is Nothing)
            &&& !awaited ==> after == island && action is Nothing
            &&& after.phase == island.phase
            &&& after.last_outputs == island.last_outputs
        }),
{
}

} // verus!
