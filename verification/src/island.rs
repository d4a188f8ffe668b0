//! The state that the safety island keeps between messages, and how each message that
//! arrives changes it.

use vstd::prelude::*;

use crate::chain::{ChainOutputs, ChainPhase};
use crate::messages::{AutowareState, Control, GearReport, Motion, Time};
use crate::number::Real;
use crate::params::{
    ComfortableStopParams, ControllerParams, EmergencyStopParams, GateParams, MrmHandlerParams,
    OperationModeParams, SentinelParams, ValidatorParams,
};
use crate::sensing::SensingPhase;

verus! {

/// The driving stack is driving on its own.
pub const AUTOWARE_STATE_DRIVING: u8 = 5;

// ---------------------------------------------------------------------------
// What the algorithms are made with
// ---------------------------------------------------------------------------

/// How the algorithms are set up before the first message.
#[derive(Clone, Copy, Debug, PartialEq, Eq, Structural)]
pub struct AlgorithmSetup {
    pub velocity_speed_scale: Real,
    pub velocity_stddev_vx: Real,
    pub velocity_stddev_wz: Real,
    pub stop_vx_threshold: Real,
    pub stop_wz_threshold: Real,
    pub accel_lowpass_gain: Real,
    pub watchdog_timeout_ms: u64,
    /// The heartbeat that the watchdog is told of before any has come, so that it does
    /// not fire while the rest of the system is still starting.
    pub first_heartbeat_ms: u64,
    pub mrm_handler: MrmHandlerParams,
    pub emergency_stop: EmergencyStopParams,
    pub comfortable_stop: ComfortableStopParams,
    pub gate: GateParams,
    pub park_on_goal: bool,
    pub control_validator: ValidatorParams,
    pub op_mode_mgr: OperationModeParams,
    pub controller: Option<ControllerParams>,
}

/// The setup that follows from the settings: each algorithm gets its own, and the watchdog
/// a heartbeat at time 0.
pub open spec fn algorithm_setup(p: SentinelParams) -> AlgorithmSetup {
    AlgorithmSetup {
        velocity_speed_scale: p.velocity_converter_speed_scale,
        velocity_stddev_vx: p.velocity_converter_stddev_vx,
        velocity_stddev_wz: p.velocity_converter_stddev_wz,
        stop_vx_threshold: p.stop_filter_vx_threshold,
        stop_wz_threshold: p.stop_filter_wz_threshold,
        accel_lowpass_gain: p.twist2accel_lpf_gain,
        watchdog_timeout_ms: p.watchdog_timeout_ms,
        first_heartbeat_ms: 0,
        mrm_handler: p.mrm_handler,
        emergency_stop: p.emergency_stop,
        comfortable_stop: p.comfortable_stop,
        gate: p.gate,
        park_on_goal: p.shift_decider_park_on_goal,
        control_validator: p.control_validator,
        op_mode_mgr: p.op_mode_mgr,
        controller: p.controller,
    }
}

// ---------------------------------------------------------------------------
// Inputs of the trajectory follower
// ---------------------------------------------------------------------------

/// A point of the planned trajectory, as the trajectory follower takes it.
#[derive(Clone, Copy, Debug, PartialEq, Eq, Structural)]
pub struct TrajectoryPoint {
    pub x: Real,
    pub y: Real,
    pub z: Real,
    pub yaw: Real,
    pub longitudinal_velocity_mps: Real,
    pub lateral_velocity_mps: Real,
    pub acceleration_mps2: Real,
    pub heading_rate_rps: Real,
    pub front_wheel_angle_rad: Real,
}

/// A point of a received trajectory, with the pitch of its orientation.
#[derive(Clone, Copy, Debug, PartialEq, Eq, Structural)]
pub struct PlannedPoint {
    pub point: TrajectoryPoint,
    pub pitch: Real,
}

/// Where the vehicle is and how it moves.
#[derive(Clone, Copy, Debug, PartialEq, Eq, Structural)]
pub struct Odometry {
    pub x: Real,
    pub y: Real,
    pub z: Real,
    pub yaw: Real,
    pub pitch: Real,
    pub velocity: Real,
}

/// What the trajectory follower goes by, apart from the trajectory.
#[derive(Clone, Copy, Debug, PartialEq, Eq, Structural)]
pub struct FollowerInput {
    pub current_pose_x: Real,
    pub current_pose_y: Real,
    pub current_pose_z: Real,
    pub current_pose_yaw: Real,
    pub current_pose_pitch: Real,
    pub current_velocity: Real,
    pub current_steer: Real,
    pub current_accel: Real,
    pub is_autonomous: bool,
    pub is_in_transition: bool,
}

impl FollowerInput {
    #[verifier::allow_in_spec]
    pub fn unset() -> FollowerInput
        returns
            (FollowerInput {
                current_pose_x: Real::zero(),
                current_pose_y: Real::zero(),
                current_pose_z: Real::zero(),
                current_pose_yaw: Real::zero(),
                current_pose_pitch: Real::zero(),
                current_velocity: Real::zero(),
                current_steer: Real::zero(),
                current_accel: Real::zero(),
                is_autonomous: false,
                is_in_transition: false,
            }),
    {
        FollowerInput {
            current_pose_x: Real::zero(),
            current_pose_y: Real::zero(),
            current_pose_z: Real::zero(),
            current_pose_yaw: Real::zero(),
            current_pose_pitch: Real::zero(),
            current_velocity: Real::zero(),
            current_steer: Real::zero(),
            current_accel: Real::zero(),
            is_autonomous: false,
            is_in_transition: false,
        }
    }
}

// ---------------------------------------------------------------------------
// Velocity reports
// ---------------------------------------------------------------------------

/// Time between two stamps: `seconds + nanoseconds / 10^9`.
#[derive(Clone, Copy, Debug, PartialEq, Eq, Structural)]
pub struct Interval {
    pub seconds: i32,
    pub nanoseconds: i64,
}

/// What the sensing algorithms make of a velocity report.
#[derive(Clone, Copy)]
pub struct SensedMotion {
    /// Velocity after the stop filter.
    pub twist: Motion,
    /// Whether the stop filter took the vehicle for standing.
    pub was_stopped: bool,
    /// The acceleration with its covariance, if it could be derived.
    pub accel: Option<SensedAcceleration>,
}

/// An acceleration derived from successive velocities.
#[derive(Clone, Copy)]
pub struct SensedAcceleration {
    pub accel: Motion,
    pub covariance: [Real; 36],
}

// ---------------------------------------------------------------------------
// The island
// ---------------------------------------------------------------------------

/// What the safety island knows.
pub struct SafetyIsland {
    /// The trajectory follower is part of the build.
    pub controller: bool,
    /// How many points of a trajectory the trajectory follower can take.
    pub trajectory_capacity: usize,

    /// How far the current velocity report has come.
    pub sensing: SensingPhase,
    /// Stamp of the last velocity report.
    pub prev_stamp: Option<Time>,
    pub current_velocity: Real,
    pub is_stopped: bool,
    pub twist: Motion,
    pub accel: Motion,
    pub accel_covariance: [Real; 36],

    /// The control command of the driving stack or of the trajectory follower.
    pub auto_control: Control,
    pub autoware_state: AutowareState,
    pub gear_report: GearReport,

    pub input: FollowerInput,
    pub trajectory: Vec<TrajectoryPoint>,
    pub has_trajectory: bool,
    pub has_odometry: bool,
    pub has_steering: bool,

    /// Control commands come from outside.
    pub has_external_control: bool,
    /// When the last of them came.
    pub last_external_control_ms: u64,
    pub autonomous_engaged: bool,
    pub external_emergency_stop: bool,

    /// Where the current pass of the control chain stands.
    pub phase: ChainPhase,
    /// What the last pass of the control chain gave.
    pub last_outputs: ChainOutputs,
}

impl SafetyIsland {
    /// The trajectory is one that the trajectory follower can take.
    pub open spec fn wf(&self) -> bool {
        self.trajectory@.len() <= self.trajectory_capacity
    }

    /// Nothing has arrived yet: the vehicle is taken to stand and to drive on its own, is
    /// not engaged, and no emergency is asserted.
    pub open spec fn is_initial(&self) -> bool {
        &&& self.sensing == SensingPhase::Idle
        &&& self.prev_stamp is None
        &&& self.current_velocity == Real::zero()
        &&& self.is_stopped
        &&& self.twist == Motion::unset()
        &&& self.accel == Motion::unset()
        &&& forall|i: int| 0 <= i < 36 ==> self.accel_covariance@[i] == Real::zero()
        &&& self.auto_control == Control::unset()
        &&& self.autoware_state == (AutowareState {
            stamp: Time::unset(),
            state: AUTOWARE_STATE_DRIVING,
        })
        &&& self.gear_report == GearReport::unset()
        &&& self.input == FollowerInput::unset()
        &&& self.trajectory@.len() == 0
        &&& !self.has_trajectory
        &&& !self.has_odometry
        &&& !self.has_steering
        &&& !self.has_external_control
        &&& self.last_external_control_ms == 0
        &&& !self.autonomous_engaged
        &&& !self.external_emergency_stop
        &&& self.phase == ChainPhase::Idle
        &&& self.last_outputs == ChainOutputs::unset()
    }

    /// An island to which nothing has arrived, and the setup of its algorithms.
    pub fn new(p: SentinelParams, trajectory_capacity: usize) -> (r: (SafetyIsland, AlgorithmSetup))
        ensures
            r.0.wf(),
            r.0.is_initial(),
            r.0.controller == (p.controller is Some),
            r.0.trajectory_capacity == trajectory_capacity,
            r.1 == algorithm_setup(p),
    {
        let setup = AlgorithmSetup {
            velocity_speed_scale: p.velocity_converter_speed_scale,
            velocity_stddev_vx: p.velocity_converter_stddev_vx,
            velocity_stddev_wz: p.velocity_converter_stddev_wz,
            stop_vx_threshold: p.stop_filter_vx_threshold,
            stop_wz_threshold: p.stop_filter_wz_threshold,
            accel_lowpass_gain: p.twist2accel_lpf_gain,
            watchdog_timeout_ms: p.watchdog_timeout_ms,
            first_heartbeat_ms: 0,
            mrm_handler: p.mrm_handler,
            emergency_stop: p.emergency_stop,
            comfortable_stop: p.comfortable_stop,
            gate: p.gate,
            park_on_goal: p.shift_decider_park_on_goal,
            control_validator: p.control_validator,
            op_mode_mgr: p.op_mode_mgr,
            controller: p.controller,
        };
        let island = SafetyIsland {
            controller: p.controller.is_some(),
            trajectory_capacity,
            sensing: SensingPhase::Idle,
            prev_stamp: None,
            current_velocity: Real::zero(),
            is_stopped: true,
            twist: Motion::unset(),
            accel: Motion::unset(),
            accel_covariance: [Real::zero(); 36],
            auto_control: Control::unset(),
            autoware_state: AutowareState { stamp: Time::unset(), state: AUTOWARE_STATE_DRIVING },
            gear_report: GearReport::unset(),
            input: FollowerInput::unset(),
            trajectory: Vec::new(),
            has_trajectory: false,
            has_odometry: false,
            has_steering: false,
            has_external_control: false,
            last_external_control_ms: 0,
            autonomous_engaged: false,
            external_emergency_stop: false,
            phase: ChainPhase::Idle,
            last_outputs: ChainOutputs::unset(),
        };
        (island, setup)
    }

    // -- Sensing ------------------------------------------------------------

    /// Seconds from the last velocity report to one with this stamp.
    pub open spec fn seconds_since_report(&self, stamp: Time) -> int {
        match self.prev_stamp {
            Some(prev) => stamp.sec - prev.sec,
            None => 0,
        }
    }

    /// The time from the last velocity report to one with this stamp can be expressed.
    pub open spec fn measurable(&self, stamp: Time) -> bool {
        i32::MIN <= self.seconds_since_report(stamp) <= i32::MAX
    }

    /// Time from the last velocity report to one with this stamp; 0 if there was none.
    pub open spec fn interval(&self, stamp: Time) -> Interval {
        match self.prev_stamp {
            Some(prev) => Interval {
                seconds: (stamp.sec - prev.sec) as i32,
                nanoseconds: (stamp.nanosec - prev.nanosec) as i64,
            },
            None => Interval { seconds: 0, nanoseconds: 0 },
        }
    }

    /// Whether the time from the last velocity report to one with this stamp can be
    /// expressed.
    pub fn is_measurable(&self, stamp: Time) -> (r: bool)
        ensures
            r == self.measurable(stamp),
    {
        match self.prev_stamp {
            Some(prev) => stamp.sec.checked_sub(prev.sec).is_some(),
            None => true,
        }
    }

    /// Time from the last velocity report to one with this stamp; 0 if there was none.
    pub fn interval_to(&self, stamp: Time) -> (r: Interval)
        requires
            self.measurable(stamp),
        ensures
            r == self.interval(stamp),
            r.seconds == self.seconds_since_report(stamp),
            r.nanoseconds == (match self.prev_stamp {
                Some(prev) => stamp.nanosec - prev.nanosec,
                None => 0int,
            }),
    {
        match self.prev_stamp {
            Some(prev) => Interval {
                seconds: stamp.sec - prev.sec,
                nanoseconds: stamp.nanosec as i64 - prev.nanosec as i64,
            },
            None => Interval { seconds: 0, nanoseconds: 0 },
        }
    }

    /// Takes in a velocity report with what the sensing algorithms made of it. The
    /// acceleration stays as it was when none could be derived.
    pub fn on_velocity_report(&mut self, stamp: Time, sensed: SensedMotion)
        ensures
            *final(self) == old(self).moved(stamp, sensed),
    {
        self.prev_stamp = Some(stamp);
        self.current_velocity = sensed.twist.linear.x;
        self.is_stopped = sensed.was_stopped;
        self.twist = sensed.twist;
        if let Some(output) = sensed.accel {
            self.accel = output.accel;
            self.accel_covariance = output.covariance;
        }
    }

    // -- Inputs of the trajectory follower ----------------------------------

    /// How many points of a trajectory are kept.
    pub open spec fn kept_points(&self, points: Seq<PlannedPoint>) -> int {
        if points.len() <= self.trajectory_capacity {
            points.len() as int
        } else {
            self.trajectory_capacity as int
        }
    }

    /// Takes in a planned trajectory: its first points, as many as can be taken. The pitch
    /// of the first one becomes that of the vehicle.
    pub fn on_trajectory(&mut self, points: &[PlannedPoint])
        ensures
            final(self).wf(),
            final(self).trajectory@ == points@.take(old(self).kept_points(points@)).map_values(
                |p: PlannedPoint| p.point,
            ),
            *final(self) == (SafetyIsland {
                trajectory: final(self).trajectory,
                has_trajectory: true,
                input: if old(self).kept_points(points@) > 0 {
                    FollowerInput { current_pose_pitch: points@[0].pitch, ..old(self).input }
                } else {
                    old(self).input
                },
                ..*old(self)
            }),
    {
        let n: usize = if points.len() <= self.trajectory_capacity {
            points.len()
        } else {
            self.trajectory_capacity
        };
        let mut trajectory: Vec<TrajectoryPoint> = Vec::new();
        let mut i: usize = 0;
        while i < n
            invariant
                i <= n <= points@.len(),
                trajectory@ == points@.take(i as int).map_values(|p: PlannedPoint| p.point),
            decreases n - i,
        {
            trajectory.push(points[i].point);
            proof {
                assert(points@.take(i + 1) =~= points@.take(i as int).push(points@[i as int]));
                assert(trajectory@ =~= points@.take(i + 1).map_values(|p: PlannedPoint| p.point));
            }
            i += 1;
        }
        if n > 0 {
            self.input.current_pose_pitch = points[0].pitch;
        }
        self.trajectory = trajectory;
        self.has_trajectory = true;
    }

    /// Takes in where the vehicle is.
    pub fn on_odometry(&mut self, odometry: Odometry)
        ensures
            *final(self) == (SafetyIsland {
                has_odometry: true,
                input: FollowerInput {
                    current_pose_x: odometry.x,
                    current_pose_y: odometry.y,
                    current_pose_z: odometry.z,
                    current_pose_yaw: odometry.yaw,
                    current_pose_pitch: odometry.pitch,
                    current_velocity: odometry.velocity,
                    ..old(self).input
                },
                ..*old(self)
            }),
    {
        self.input.current_pose_x = odometry.x;
        self.input.current_pose_y = odometry.y;
        self.input.current_pose_z = odometry.z;
        self.input.current_pose_yaw = odometry.yaw;
        self.input.current_pose_pitch = odometry.pitch;
        self.input.current_velocity = odometry.velocity;
        self.has_odometry = true;
    }

    /// Takes in the angle of the steered wheels.
    pub fn on_steering(&mut self, steering_tire_angle: Real)
        ensures
            *final(self) == (SafetyIsland {
                has_steering: true,
                input: FollowerInput { current_steer: steering_tire_angle, ..old(self).input },
                ..*old(self)
            }),
    {
        self.input.current_steer = steering_tire_angle;
        self.has_steering = true;
    }

    /// Takes in the acceleration of the vehicle in its direction.
    pub fn on_acceleration(&mut self, acceleration: Real)
        ensures
            *final(self) == (SafetyIsland {
                input: FollowerInput { current_accel: acceleration, ..old(self).input },
                ..*old(self)
            }),
    {
        self.input.current_accel = acceleration;
    }

    // -- Commands and states from outside -----------------------------------

    /// Takes in a control command from outside. From then on the trajectory follower is
    /// not asked any more.
    pub fn on_external_control(&mut self, control: Control, now_ms: u64)
        ensures
            *final(self) == (SafetyIsland {
                auto_control: control,
                has_external_control: true,
                last_external_control_ms: now_ms,
                ..*old(self)
            }),
    {
        self.auto_control = control;
        self.has_external_control = true;
        self.last_external_control_ms = now_ms;
    }

    /// Takes in the state of the driving stack.
    pub fn on_autoware_state(&mut self, state: AutowareState)
        ensures
            *final(self) == (SafetyIsland { autoware_state: state, ..*old(self) }),
    {
        self.autoware_state = state;
    }

    /// Takes in the gear of the vehicle.
    pub fn on_gear_report(&mut self, report: GearReport)
        ensures
            *final(self) == (SafetyIsland { gear_report: report, ..*old(self) }),
    {
        self.gear_report = report;
    }

    /// Engages or disengages autonomous driving.
    pub fn set_engaged(&mut self, engaged: bool)
        ensures
            *final(self) == (SafetyIsland { autonomous_engaged: engaged, ..*old(self) }),
    {
        self.autonomous_engaged = engaged;
    }

    /// Asserts or clears an emergency stop from outside.
    pub fn set_external_emergency(&mut self, emergency: bool)
        ensures
            *final(self) == (SafetyIsland { external_emergency_stop: emergency, ..*old(self) }),
    {
        self.external_emergency_stop = emergency;
    }
}

/// Puts a new island with these settings in place of the one that was there, if any, and
/// says how its algorithms are to be set up. Nothing can be handled before.
pub fn init_island(
    island: &mut Option<SafetyIsland>,
    p: SentinelParams,
    trajectory_capacity: usize,
) -> (r: AlgorithmSetup)
    ensures
        r == algorithm_setup(p),
        *final(island) matches Some(made) && made.wf() && made.is_initial() && made.controller == (
        p.controller is Some) && made.trajectory_capacity == trajectory_capacity,
{
    let (made, setup) = SafetyIsland::new(p, trajectory_capacity);
    *island = Some(made);
    setup
}

/// Each algorithm is set up with the settings that are meant for it, and the watchdog is told
/// of a heartbeat at time 0. The trajectory follower is set up exactly if there are settings
/// for it.
pub proof fn law_algorithms_get_their_settings(p: SentinelParams)
    ensures
        ({
            let setup = algorithm_setup(p);
            &&& setup.velocity_speed_scale == p.velocity_converter_speed_scale
            &&& setup.velocity_stddev_vx == p.velocity_converter_stddev_vx
            &&& setup.velocity_stddev_wz == p.velocity_converter_stddev_wz
            &&& setup.stop_vx_threshold == p.stop_filter_vx_threshold
            &&& setup.stop_wz_threshold == p.stop_filter_wz_threshold
            &&& setup.accel_lowpass_gain == p.twist2accel_lpf_gain
            &&& setup.watchdog_timeout_ms == p.watchdog_timeout_ms
            &&& setup.first_heartbeat_ms == 0
            &&& setup.mrm_handler.stopped_velocity_threshold
                == p.mrm_handler.stopped_velocity_threshold
            &&& setup.emergency_stop.target_acceleration == p.emergency_stop.target_acceleration
            &&& setup.emergency_stop.target_jerk == p.emergency_stop.target_jerk
            &&& setup.comfortable_stop.min_acceleration == p.comfortable_stop.min_acceleration
            &&& setup.comfortable_stop.min_jerk == p.comfortable_stop.min_jerk
            &&& setup.gate == p.gate
            &&& setup.park_on_goal == p.shift_decider_park_on_goal
            &&& setup.control_validator == p.control_validator
            &&& setup.op_mode_mgr == p.op_mode_mgr
            &&& setup.controller == p.controller
        }),
{
}

/// The time since the last report is the difference of the two stamps, in seconds and in
/// nanoseconds, each with its sign; before the first report it is 0, whatever the stamp.
pub proof fn law_interval_is_the_difference_of_stamps(island: SafetyIsland, stamp: Time)
    requires
        island.measurable(stamp),
    ensures
        ({
            let interval = island.interval(stamp);
            &&& island.prev_stamp is None ==> interval.seconds == 0 && interval.nanoseconds == 0
            &&& island.prev_stamp matches Some(prev) ==> {
                &&& interval.seconds == stamp.sec - prev.sec
                &&& interval.nanoseconds == stamp.nanosec - prev.nanosec
            }
        }),
{
}

/// The first report can always be measured, and a later one exactly if the seconds between the
/// stamps fit 32 bits; so all reports within 68 years of each other can.
pub proof fn law_near_reports_are_measurable(island: SafetyIsland, stamp: Time)
    ensures
        island.prev_stamp is None ==> island.measurable(stamp),
        island.prev_stamp matches Some(prev) ==> (island.measurable(stamp) <==> -0x8000_0000
            <= stamp.sec - prev.sec <= 0x7fff_ffff),
{
}

/// What a new island knows: nothing has arrived, the vehicle stands, the driving stack is taken
/// to be driving, nothing is engaged and no emergency is asserted.
pub proof fn law_new_island_knows_nothing(island: SafetyIsland)
    requires
        island.is_initial(),
    ensures
        island.phase is Idle,
        island.sensing is Idle,
        island.is_stopped,
        !island.autonomous_engaged,
        !island.external_emergency_stop,
        !island.has_external_control,
        !island.has_trajectory && !island.has_odometry && !island.has_steering,
        island.trajectory@.len() == 0,
        island.autoware_state.state == 5,
        island.prev_stamp is None,
        island.current_velocity == (Real::Decimal { negative: false, units: 0, places: 0 }),
        island.accel.linear.x == (Real::Decimal { negative: false, units: 0, places: 0 }),
        island.gear_report.report == 0,
{
}

} // verus!
