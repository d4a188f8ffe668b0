//! What the island does with a message that arrives on one of its subscriptions.

use vstd::prelude::*;

use crate::endpoints::Source;
use crate::island::{FollowerInput, Odometry, PlannedPoint, SafetyIsland};
use crate::messages::{AutowareState, Control, GearReport};
use crate::number::Real;

verus! {

/// What arrived, as far as it could be read.
#[derive(Clone, Copy)]
pub enum Input<'a> {
    /// Nothing that could be read.
    Unreadable,
    /// A velocity report, which the sensing algorithms have to look at first.
    VelocityReport,
    Control(Control),
    AutowareState(AutowareState),
    GearReport(GearReport),
    Trajectory(&'a [PlannedPoint]),
    Odometry(Odometry),
    /// Angle of the steered wheels.
    Steering(Real),
    /// Acceleration in the direction of the vehicle.
    Acceleration(Real),
    /// A request for on or off.
    Flag(bool),
}

impl<'a> Input<'a> {
    /// What a request asks for, if it asks for on or off.
    #[verifier::allow_in_spec]
    pub fn flag(self) -> Option<bool>
        returns
            (match self {
                Input::Flag(flag) => Some(flag),
                _ => None,
            }),
    {
        match self {
            Input::Flag(flag) => Some(flag),
            _ => None,
        }
    }
}

/// What is left to do with an input.
#[derive(Clone, Copy, Debug, PartialEq, Eq, Structural)]
pub enum Chore {
    Nothing,
    /// Tell the watchdog of a heartbeat.
    FeedWatchdog { now_ms: u64 },
    /// Run the sensing algorithms on the velocity report, as [`SafetyIsland::sense`] says.
    SenseVelocity,
}

/// What is left to do with an input from a source. A heartbeat counts even if it could not
/// be read.
pub open spec fn chore(source: Source, input: Input, now_ms: u64) -> Chore {
    match source {
        Source::Heartbeat => Chore::FeedWatchdog { now_ms },
        Source::VelocityStatus => if input is VelocityReport {
            Chore::SenseVelocity
        } else {
            Chore::Nothing
        },
        _ => Chore::Nothing,
    }
}

impl SafetyIsland {
    /// `after` is this island after an input from a source. An input that is not of the
    /// source's kind changes nothing.
    pub open spec fn takes(
        self,
        source: Source,
        input: Input,
        now_ms: u64,
        after: SafetyIsland,
    ) -> bool {
        match (source, input) {
            (Source::FollowerControl, Input::Control(control)) => after == (SafetyIsland {
                auto_control: control,
                has_external_control: true,
                last_external_control_ms: now_ms,
                ..self
            }),
            (Source::AutowareState, Input::AutowareState(state)) => after == (SafetyIsland {
                autoware_state: state,
                ..self
            }),
            (Source::GearStatus, Input::GearReport(report)) => after == (SafetyIsland {
                gear_report: report,
                ..self
            }),
            (Source::Trajectory, Input::Trajectory(points)) => {
                &&& after.trajectory@ == points@.take(self.kept_points(points@)).map_values(
                    |p: PlannedPoint| p.point,
                )
                &&& after == (SafetyIsland {
                    trajectory: after.trajectory,
                    has_trajectory: true,
                    input: if self.kept_points(points@) > 0 {
                        FollowerInput { current_pose_pitch: points@[0].pitch, ..self.input }
                    } else {
                        self.input
                    },
                    ..self
                })
            },
            (Source::KinematicState, Input::Odometry(odometry)) => after == (SafetyIsland {
                has_odometry: true,
                input: FollowerInput {
                    current_pose_x: odometry.x,
                    current_pose_y: odometry.y,
                    current_pose_z: odometry.z,
                    current_pose_yaw: odometry.yaw,
                    current_pose_pitch: odometry.pitch,
                    current_velocity: odometry.velocity,
                    ..self.input
                },
                ..self
            }),
            (Source::SteeringStatus, Input::Steering(angle)) => after == (SafetyIsland {
                has_steering: true,
                input: FollowerInput { current_steer: angle, ..self.input },
                ..self
            }),
            (Source::Acceleration, Input::Acceleration(acceleration)) => after == (SafetyIsland {
                input: FollowerInput { current_accel: acceleration, ..self.input },
                ..self
            }),
            _ => after == self,
        }
    }

    /// Takes in what arrived from a source, and says what is left to do with it.
    pub fn receive(&mut self, source: Source, input: Input, now_ms: u64) -> (r: Chore)
        ensures
            old(self).takes(source, input, now_ms, *final(self)),
            r == chore(source, input, now_ms),
            old(self).wf() ==> final(self).wf(),
    {
        match source {
            Source::VelocityStatus => match input {
                Input::VelocityReport => Chore::SenseVelocity,
                _ => Chore::Nothing,
            },
            Source::Heartbeat => Chore::FeedWatchdog { now_ms },
            Source::FollowerControl => {
                if let Input::Control(control) = input {
                    self.on_external_control(control, now_ms);
                }
                Chore::Nothing
            },
            Source::AutowareState => {
                if let Input::AutowareState(state) = input {
                    self.on_autoware_state(state);
                }
                Chore::Nothing
            },
            Source::GearStatus => {
                if let Input::GearReport(report) = input {
                    self.on_gear_report(report);
                }
                Chore::Nothing
            },
            Source::Trajectory => {
                if let Input::Trajectory(points) = input {
                    self.on_trajectory(points);
                }
                Chore::Nothing
            },
            Source::KinematicState => {
                if let Input::Odometry(odometry) = input {
                    self.on_odometry(odometry);
                }
                Chore::Nothing
            },
            Source::SteeringStatus => {
                if let Input::Steering(angle) = input {
                    self.on_steering(angle);
                }
                Chore::Nothing
            },
            Source::Acceleration => {
                if let Input::Acceleration(acceleration) = input {
                    self.on_acceleration(acceleration);
                }
                Chore::Nothing
            },
        }
    }
}

/// Inputs that arrive between two passes leave the chain alone: it still waits for the
/// tick, engagement and emergency stop stay as they were, and so do the last outputs.
pub proof fn law_inputs_leave_the_chain_alone(
    island: SafetyIsland,
    source: Source,
    input: Input,
    now_ms: u64,
    after: SafetyIsland,
)
    requires
        island.takes(source, input, now_ms, after),
    ensures
        after.phase == island.phase,
        after.last_outputs == island.last_outputs,
        after.autonomous_engaged == island.autonomous_engaged,
        after.external_emergency_stop == island.external_emergency_stop,
        after.current_velocity == island.current_velocity,
        after.is_stopped == island.is_stopped,
{
}

/// Inputs keep the island well formed: the trajectory never outgrows its capacity.
pub proof fn law_inputs_keep_island_well_formed(
    island: SafetyIsland,
    source: Source,
    input: Input,
    now_ms: u64,
    after: SafetyIsland,
)
    requires
        island.wf(),
        island.takes(source, input, now_ms, after),
    ensures
        after.wf(),
{
}

/// What could not be read changes nothing.
pub proof fn law_unreadable_inputs_change_nothing(
    island: SafetyIsland,
    source: Source,
    now_ms: u64,
    after: SafetyIsland,
)
    requires
        island.takes(source, Input::Unreadable, now_ms, after),
    ensures
        after == island,
{
}

// ---------------------------------------------------------------------------
// What each message is for
// ---------------------------------------------------------------------------

/// The island with nothing changed but what the trajectory follower goes by.
pub open spec fn differs_in_follower_input(before: SafetyIsland, after: SafetyIsland) -> bool {
    after == (SafetyIsland {
        input: after.input,
        trajectory: after.trajectory,
        has_trajectory: after.has_trajectory,
        has_odometry: after.has_odometry,
        has_steering: after.has_steering,
        ..before
    })
}

/// A position that arrives gives the trajectory follower the pose and the velocity of the
/// vehicle, all of them and no older ones; its steering and acceleration stay.
pub proof fn law_odometry_gives_the_pose(
    island: SafetyIsland,
    odometry: Odometry,
    now_ms: u64,
    after: SafetyIsland,
)
    requires
        island.takes(Source::KinematicState, Input::Odometry(odometry), now_ms, after),
    ensures
        after.has_odometry,
        after.input.current_pose_x == odometry.x,
        after.input.current_pose_y == odometry.y,
        after.input.current_pose_z == odometry.z,
        after.input.current_pose_yaw == odometry.yaw,
        after.input.current_pose_pitch == odometry.pitch,
        after.input.current_velocity == odometry.velocity,
        after.input.current_steer == island.input.current_steer,
        after.input.current_accel == island.input.current_accel,
        after.has_trajectory == island.has_trajectory,
        after.trajectory == island.trajectory,
        after.has_steering == island.has_steering,
        differs_in_follower_input(island, after),
{
}

/// A steering angle that arrives is the one that the trajectory follower goes by; its pose,
/// velocity and acceleration stay.
pub proof fn law_steering_gives_the_angle(
    island: SafetyIsland,
    angle: Real,
    now_ms: u64,
    after: SafetyIsland,
)
    requires
        island.takes(Source::SteeringStatus, Input::Steering(angle), now_ms, after),
    ensures
        after.has_steering,
        after.input.current_steer == angle,
        after.input == (FollowerInput { current_steer: angle, ..island.input }),
        after.has_trajectory == island.has_trajectory,
        after.trajectory == island.trajectory,
        after.has_odometry == island.has_odometry,
        differs_in_follower_input(island, after),
{
}

/// An acceleration that arrives is the one that the trajectory follower goes by. It is not
/// waited for, and nothing else changes.
pub proof fn law_acceleration_is_taken_in(
    island: SafetyIsland,
    acceleration: Real,
    now_ms: u64,
    after: SafetyIsland,
)
    requires
        island.takes(Source::Acceleration, Input::Acceleration(acceleration), now_ms, after),
    ensures
        after.input.current_accel == acceleration,
        after.input == (FollowerInput { current_accel: acceleration, ..island.input }),
        after.has_trajectory == island.has_trajectory,
        after.trajectory == island.trajectory,
        after.has_odometry == island.has_odometry,
        after.has_steering == island.has_steering,
        differs_in_follower_input(island, after),
{
}

/// A trajectory that arrives replaces the one before: its points are kept in order, all of
/// them if there is room and else as many of the first as there is room for. The pitch of the
/// first point that is kept becomes that of the vehicle; nothing else of the pose changes.
pub proof fn law_trajectory_is_taken_in(
    island: SafetyIsland,
    points: &[PlannedPoint],
    now_ms: u64,
    after: SafetyIsland,
)
    requires
        island.takes(Source::Trajectory, Input::Trajectory(points), now_ms, after),
    ensures
        after.has_trajectory,
        points@.len() <= island.trajectory_capacity ==> after.trajectory@.len() == points@.len(),
        points@.len() > island.trajectory_capacity ==> after.trajectory@.len()
            == island.trajectory_capacity,
        forall|i: int|
            0 <= i < after.trajectory@.len() ==> #[trigger] after.trajectory@[i]
                == points@[i].point,
        after.trajectory@.len() > 0 ==> after.input == (FollowerInput {
            current_pose_pitch: points@[0].pitch,
            ..island.input
        }),
        after.trajectory@.len() == 0 ==> after.input == island.input,
        after.has_odometry == island.has_odometry,
        after.has_steering == island.has_steering,
        differs_in_follower_input(island, after),
{
}

/// A control command that arrives is the one to go by from then on, in place of whatever the
/// trajectory follower asked for, and its age counts from its arrival.
pub proof fn law_control_from_outside_takes_over(
    island: SafetyIsland,
    control: Control,
    now_ms: u64,
    after: SafetyIsland,
)
    requires
        island.takes(Source::FollowerControl, Input::Control(control), now_ms, after),
    ensures
        after.has_external_control,
        after.auto_control == control,
        after.last_external_control_ms == now_ms,
        after == (SafetyIsland {
            has_external_control: true,
            auto_control: control,
            last_external_control_ms: now_ms,
            ..island
        }),
{
}

/// The state of the driving stack and the gear of the vehicle are kept as they arrive, and
/// nothing else changes.
pub proof fn law_states_are_kept(
    island: SafetyIsland,
    state: AutowareState,
    report: GearReport,
    now_ms: u64,
    after_state: SafetyIsland,
    after_report: SafetyIsland,
)
    requires
        island.takes(
            Source::AutowareState,
            Input::AutowareState(state),
            now_ms,
            after_state,
        ),
        island.takes(Source::GearStatus, Input::GearReport(report), now_ms, after_report),
    ensures
        after_state.autoware_state == state,
        after_state == (SafetyIsland { autoware_state: after_state.autoware_state, ..island }),
        after_report.gear_report == report,
        after_report == (SafetyIsland { gear_report: after_report.gear_report, ..island }),
{
}

/// Whatever arrives as a heartbeat feeds the watchdog with the time of its arrival, readable
/// or not. A velocity report is left to the sensing algorithms. Neither changes the island,
/// and nothing is left to do with any other message.
pub proof fn law_what_is_left_to_do(
    island: SafetyIsland,
    source: Source,
    input: Input,
    now_ms: u64,
    after: SafetyIsland,
)
    requires
        island.takes(source, input, now_ms, after),
    ensures
        source == Source::Heartbeat ==> chore(source, input, now_ms) == (Chore::FeedWatchdog {
            now_ms,
        }),
        source == Source::VelocityStatus && input is VelocityReport ==> chore(
            source,
            input,
            now_ms,
        ) == Chore::SenseVelocity,
        source == Source::VelocityStatus && !(input is VelocityReport) ==> chore(
            source,
            input,
            now_ms,
        ) == Chore::Nothing,
        source != Source::Heartbeat && source != Source::VelocityStatus ==> chore(
            source,
            input,
            now_ms,
        ) == Chore::Nothing,
        source == Source::Heartbeat || source == Source::VelocityStatus ==> after == island,
{
}

/// A message that is not of the kind that its source carries changes nothing.
pub proof fn law_messages_of_another_kind_change_nothing(
    island: SafetyIsland,
    source: Source,
    input: Input,
    now_ms: u64,
    after: SafetyIsland,
)
    requires
        island.takes(source, input, now_ms, after),
    ensures
        source == Source::FollowerControl && !(input is Control) ==> after == island,
        source == Source::AutowareState && !(input is AutowareState) ==> after == island,
        source == Source::GearStatus && !(input is GearReport) ==> after == island,
        source == Source::Trajectory && !(input is Trajectory) ==> after == island,
        source == Source::KinematicState && !(input is Odometry) ==> after == island,
        source == Source::SteeringStatus && !(input is Steering) ==> after == island,
        source == Source::Acceleration && !(input is Acceleration) ==> after == island,
{
}

/// What has come once stays known, and control from outside, once it has come, stays in
/// charge.
pub proof fn law_inputs_are_not_forgotten(
    island: SafetyIsland,
    source: Source,
    input: Input,
    now_ms: u64,
    after: SafetyIsland,
)
    requires
        island.takes(source, input, now_ms, after),
    ensures
        island.has_trajectory ==> after.has_trajectory,
        island.has_odometry ==> after.has_odometry,
        island.has_steering ==> after.has_steering,
        island.has_external_control ==> after.has_external_control,
        after.has_external_control && !island.has_external_control ==> source
            == Source::FollowerControl && input is Control,
        after.controller == island.controller,
        after.trajectory_capacity == island.trajectory_capacity,
{
}

} // verus!
