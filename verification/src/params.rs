//! Where the parameters are kept, and the settings that the algorithms get from them.

use vstd::prelude::*;

use crate::number::Real;
use crate::param_table::{
    all_params, law_param_is_found_by_name, lemma_listed_params, lemma_params_are_listed,
    lemma_read_params_are_listed, param_named, read_order, Param, ParamValue, ISLAND_PARAM_COUNT,
    PARAM_COUNT,
};

verus! {

// ---------------------------------------------------------------------------
// The parameter server
// ---------------------------------------------------------------------------

/// A parameter was to be set that may only be read.
#[derive(Clone, Copy, Debug, PartialEq, Eq, Structural)]
pub struct ReadOnly;

/// Keeps the values of the parameters. Those that were declared may only be read.
pub struct ParameterServer {
    values: Vec<Option<ParamValue>>,
    read_only: Vec<bool>,
}

impl ParameterServer {
    /// There is a place for each parameter, and what may only be read has a value.
    pub closed spec fn wf(&self) -> bool {
        &&& self.values@.len() == PARAM_COUNT
        &&& self.read_only@.len() == PARAM_COUNT
        &&& forall|k: int| 0 <= k < PARAM_COUNT && self.read_only@[k] ==> (
        #[trigger] self.values@[k]) is Some
    }

    /// The value of a parameter, if it has one.
    pub closed spec fn value(&self, p: Param) -> Option<ParamValue> {
        self.values@[p.index() as int]
    }

    /// The parameter may only be read.
    pub closed spec fn is_read_only(&self, p: Param) -> bool {
        self.read_only@[p.index() as int]
    }

    /// A server without parameters.
    pub fn new() -> (r: ParameterServer)
        ensures
            r.wf(),
            forall|p: Param| (#[trigger] r.value(p)) is None,
            forall|p: Param| !(#[trigger] r.is_read_only(p)),
    {
        let mut values: Vec<Option<ParamValue>> = Vec::new();
        let mut read_only: Vec<bool> = Vec::new();
        while values.len() < PARAM_COUNT
            invariant
                values.len() == read_only.len() <= PARAM_COUNT,
                forall|k: int| 0 <= k < values.len() ==> values@[k] is None,
                forall|k: int| 0 <= k < values.len() ==> !read_only@[k],
            decreases PARAM_COUNT - values.len(),
        {
            values.push(None);
            read_only.push(false);
        }
        proof {
            assert forall|p: Param| (#[trigger] p.index()) < PARAM_COUNT by {
                lemma_params_are_listed(p);
            }
        }
        ParameterServer { values, read_only }
    }

    /// Declares a parameter: gives it its value, which from then on may only be read.
    pub fn declare(&mut self, p: Param, value: ParamValue)
        requires
            old(self).wf(),
            old(self).value(p) is None,
        ensures
            final(self).wf(),
            final(self).value(p) == Some(value),
            final(self).is_read_only(p),
            forall|q: Param| q != p ==> #[trigger] final(self).value(q) == old(self).value(q),
            forall|q: Param|
                q != p ==> #[trigger] final(self).is_read_only(q) == old(self).is_read_only(q),
    {
        proof {
            lemma_params_are_listed(p);
            assert forall|q: Param| q != p implies (#[trigger] q.index()) != p.index() by {
                lemma_params_are_listed(q);
            }
        }
        self.values.set(p.index(), Some(value));
        self.read_only.set(p.index(), true);
    }

    /// `after` is what an attempt to set a parameter leaves of this server: the same server
    /// if the parameter may only be read, else one that differs in the value of the
    /// parameter alone.
    pub open spec fn attempt(&self, p: Param, value: ParamValue, after: &ParameterServer) -> bool {
        if self.is_read_only(p) {
            *after == *self
        } else {
            &&& after.value(p) == Some(value)
            &&& forall|q: Param| q != p ==> #[trigger] after.value(q) == self.value(q)
            &&& forall|q: Param| #[trigger] after.is_read_only(q) == self.is_read_only(q)
        }
    }

    /// Sets the value of a parameter, unless it may only be read.
    pub fn set(&mut self, p: Param, value: ParamValue) -> (r: Result<(), ReadOnly>)
        requires
            old(self).wf(),
        ensures
            final(self).wf(),
            r is Err <==> old(self).is_read_only(p),
            r is Err ==> *final(self) == *old(self),
            old(self).attempt(p, value, final(self)),
    {
        proof {
            lemma_params_are_listed(p);
            assert forall|q: Param| q != p implies (#[trigger] q.index()) != p.index() by {
                lemma_params_are_listed(q);
            }
        }
        if self.read_only[p.index()] {
            return Err(ReadOnly);
        }
        self.values.set(p.index(), Some(value));
        Ok(())
    }

    /// The value of a parameter, if it has one.
    pub fn get(&self, p: Param) -> (r: Option<ParamValue>)
        requires
            self.wf(),
        ensures
            r == self.value(p),
    {
        proof {
            lemma_params_are_listed(p);
        }
        self.values[p.index()]
    }

    /// The value of a parameter that holds a real number.
    pub fn get_double(&self, p: Param) -> (r: Option<Real>)
        requires
            self.wf(),
        ensures
            r == (match self.value(p) {
                Some(ParamValue::Double(x)) => Some(x),
                _ => None,
            }),
    {
        match self.get(p) {
            Some(ParamValue::Double(x)) => Some(x),
            _ => None,
        }
    }

    /// The value of a parameter that holds an integer.
    pub fn get_integer(&self, p: Param) -> (r: Option<i64>)
        requires
            self.wf(),
        ensures
            r == (match self.value(p) {
                Some(ParamValue::Integer(x)) => Some(x),
                _ => None,
            }),
    {
        match self.get(p) {
            Some(ParamValue::Integer(x)) => Some(x),
            _ => None,
        }
    }

    /// The value of a parameter that holds a flag.
    pub fn get_bool(&self, p: Param) -> (r: Option<bool>)
        requires
            self.wf(),
        ensures
            r == (match self.value(p) {
                Some(ParamValue::Bool(x)) => Some(x),
                _ => None,
            }),
    {
        match self.get(p) {
            Some(ParamValue::Bool(x)) => Some(x),
            _ => None,
        }
    }

    /// How many of the first `n` parameters have a value.
    pub open spec fn declared_among(&self, n: nat) -> nat
        decreases n,
    {
        if n == 0 {
            0
        } else {
            self.declared_among((n - 1) as nat) + if self.value(all_params()[n - 1]) is Some {
                1nat
            } else {
                0nat
            }
        }
    }

    /// How many parameters have a value.
    pub fn len(&self) -> (r: usize)
        requires
            self.wf(),
        ensures
            r == self.declared_among(PARAM_COUNT as nat),
    {
        let mut n: usize = 0;
        let mut i: usize = 0;
        while i < self.values.len()
            invariant
                self.wf(),
                n <= i <= self.values@.len() == PARAM_COUNT,
                n == self.declared_among(i as nat),
            decreases self.values.len() - i,
        {
            proof {
                lemma_listed_params(i as int);
            }
            if self.values[i].is_some() {
                n += 1;
            }
            i += 1;
        }
        n
    }

    /// The parameter has a value of the right type.
    pub open spec fn holds(&self, p: Param) -> bool {
        self.value(p) matches Some(value) && value.same_type(p.default_value())
    }

    /// The server holds every parameter that the settings depend on.
    pub open spec fn complete(&self, controller: bool) -> bool {
        forall|p: Param|
            #![trigger self.value(p)]
            #![trigger self.holds(p)]
            p.is_read(controller) ==> self.holds(p)
    }

    /// The first parameter, in the order of reading, that the settings depend on and that
    /// has no value or one of another type.
    pub fn missing(&self, controller: bool) -> (r: Option<Param>)
        requires
            self.wf(),
        ensures
            r is None <==> self.complete(controller),
            r matches Some(p) ==> exists|k: int|
                {
                    &&& 0 <= k < read_order(controller).len()
                    &&& #[trigger] read_order(controller)[k] == p
                    &&& !self.holds(p)
                    &&& forall|j: int|
                        0 <= j < k ==> self.holds(#[trigger] read_order(controller)[j])
                },
    {
        let order = Param::read(controller);
        let mut i: usize = 0;
        while i < order.len()
            invariant
                i <= order.len(),
                order@ == read_order(controller),
                self.wf(),
                forall|j: int| 0 <= j < i ==> self.holds(#[trigger] read_order(controller)[j]),
            decreases order.len() - i,
        {
            let p = order[i];
            let present = match self.get(p) {
                Some(value) => value.is_same_type(&p.default_value()),
                None => false,
            };
            if !present {
                proof {
                    assert(read_order(controller)[i as int] == p);
                    assert(read_order(controller).contains(p));
                    lemma_read_params_are_listed(p, controller);
                    assert(!self.holds(p));
                }
                return Some(p);
            }
            i += 1;
        }
        proof {
            assert forall|p: Param| p.is_read(controller) implies #[trigger] self.holds(p) by {
                lemma_read_params_are_listed(p, controller);
            }
        }
        None
    }
}

/// Declaring the parameters turns the server `before` into `after`.
pub open spec fn declares(
    before: ParameterServer,
    controller: bool,
    after: ParameterServer,
) -> bool {
    &&& forall|p: Param| #[trigger]
        after.value(p) == (if p.is_declared(controller) {
            Some(p.default_value())
        } else {
            before.value(p)
        })
    &&& forall|p: Param| #[trigger]
        after.is_read_only(p) == (p.is_declared(controller) || before.is_read_only(p))
}

/// Declares all parameters with their defaults, to be read only. None of them may have a
/// value before. Those of the trajectory follower are left out unless it is part of the build.
pub fn declare_parameters(server: &mut ParameterServer, controller: bool)
    requires
        old(server).wf(),
        forall|p: Param| p.is_declared(controller) ==> (#[trigger] old(server).value(p)) is None,
    ensures
        final(server).wf(),
        forall|p: Param| #[trigger]
            final(server).value(p) == (if p.is_declared(controller) {
                Some(p.default_value())
            } else {
                old(server).value(p)
            }),
        forall|p: Param| #[trigger]
            final(server).is_read_only(p) == (p.is_declared(controller) || old(server).is_read_only(
                p,
            )),
        declares(*old(server), controller, *final(server)),
{
    let declared = Param::declared(controller);
    let mut i: usize = 0;
    while i < declared.len()
        invariant
            i <= declared.len(),
            declared.len() == (if controller {
                PARAM_COUNT
            } else {
                ISLAND_PARAM_COUNT
            }),
            forall|k: int| 0 <= k < declared.len() ==> declared@[k] == #[trigger] all_params()[k],
            server.wf(),
            forall|p: Param| #[trigger]
                server.value(p) == (if p.index() < i {
                    Some(p.default_value())
                } else {
                    old(server).value(p)
                }),
            forall|p: Param| #[trigger]
                server.is_read_only(p) == (p.index() < i || old(server).is_read_only(p)),
            forall|p: Param|
                p.is_declared(controller) ==> (#[trigger] old(server).value(p)) is None,
        decreases declared.len() - i,
    {
        let p = declared[i];
        proof {
            lemma_listed_params(i as int);
            assert(p == all_params()[i as int]);
            assert forall|q: Param| q.index() == i implies q == p by {
                lemma_params_are_listed(q);
            }
        }
        assert(server.value(p) == old(server).value(p));
        server.declare(p, p.default_value());
        i += 1;
    }
    proof {
        assert forall|p: Param| #[trigger] p.index() < PARAM_COUNT by {
            lemma_params_are_listed(p);
        }
    }
}

// ---------------------------------------------------------------------------
// Settings of the algorithms
// ---------------------------------------------------------------------------

/// Settings of the minimum-risk manoeuvre handler.
#[derive(Clone, Copy, Debug, PartialEq, Eq, Structural)]
pub struct MrmHandlerParams {
    pub stopped_velocity_threshold: Real,
}

/// Settings of the emergency stop.
#[derive(Clone, Copy, Debug, PartialEq, Eq, Structural)]
pub struct EmergencyStopParams {
    pub target_acceleration: Real,
    pub target_jerk: Real,
}

/// Settings of the comfortable stop.
#[derive(Clone, Copy, Debug, PartialEq, Eq, Structural)]
pub struct ComfortableStopParams {
    pub min_acceleration: Real,
    pub min_jerk: Real,
}

/// Limits of the command filter. Those that are not here keep the values of the
/// gate itself.
#[derive(Clone, Copy, Debug, PartialEq, Eq, Structural)]
pub struct FilterParams {
    pub vel_lim: Real,
    pub wheel_base: Real,
}

/// Decelerations of the command gate.
#[derive(Clone, Copy, Debug, PartialEq, Eq, Structural)]
pub struct ArbiterParams {
    pub stop_hold_accel: Real,
    pub emergency_accel: Real,
}

/// Settings of the command gate.
#[derive(Clone, Copy, Debug, PartialEq, Eq, Structural)]
pub struct GateParams {
    pub filter: FilterParams,
    pub arbiter: ArbiterParams,
    pub heartbeat_timeout_ms: u64,
}

/// Settings of the acceleration check.
#[derive(Clone, Copy, Debug, PartialEq, Eq, Structural)]
pub struct AccelValidatorParams {
    pub e_offset: Real,
    pub e_scale: Real,
    pub lpf_gain: Real,
}

/// Settings of the velocity check.
#[derive(Clone, Copy, Debug, PartialEq, Eq, Structural)]
pub struct VelocityValidatorParams {
    pub rolling_back_velocity_th: Real,
    pub over_velocity_ratio_th: Real,
    pub over_velocity_offset_th: Real,
    pub lpf_gain: Real,
}

/// Settings of the lateral jerk check.
#[derive(Clone, Copy, Debug, PartialEq, Eq, Structural)]
pub struct LateralJerkValidatorParams {
    pub lateral_jerk_threshold: Real,
    pub wheel_base: Real,
    pub lpf_gain: Real,
}

/// Settings of the control validator.
#[derive(Clone, Copy, Debug, PartialEq, Eq, Structural)]
pub struct ValidatorParams {
    pub accel: AccelValidatorParams,
    pub velocity: VelocityValidatorParams,
    pub jerk: LateralJerkValidatorParams,
}

/// Settings of the operation mode transitions.
#[derive(Clone, Copy, Debug, PartialEq, Eq, Structural)]
pub struct OperationModeParams {
    pub allow_autonomous_in_stopped: bool,
    pub stopped_velocity_threshold: Real,
    pub enable_engage_on_driving: bool,
    pub acc_threshold: Real,
    pub speed_upper_threshold: Real,
    pub speed_lower_threshold: Real,
    pub stable_check_duration: Real,
}

/// Settings of the longitudinal controller. Those that are not here keep the values
/// of the controller itself.
#[derive(Clone, Copy, Debug, PartialEq, Eq, Structural)]
pub struct PidParams {
    pub kp: Real,
    pub ki: Real,
    pub kd: Real,
    pub max_acc: Real,
    pub min_acc: Real,
    pub max_jerk: Real,
    pub min_jerk: Real,
    pub delay_compensation_time: Real,
    pub stopped_acc: Real,
    pub emergency_acc: Real,
}

/// Settings of the lateral controller. Those that are not here keep the values of
/// the controller itself.
#[derive(Clone, Copy, Debug, PartialEq, Eq, Structural)]
pub struct MpcParams {
    pub ctrl_period: Real,
    pub steering_lpf_gain: Real,
    pub prediction_horizon: usize,
    pub prediction_dt: Real,
    pub steer_tau: Real,
    pub input_delay: Real,
    pub steer_rate_lim: Real,
}

/// Settings of the trajectory follower. Without `lateral` or `longitudinal` that
/// controller keeps all of its own values.
#[derive(Clone, Copy, Debug, PartialEq, Eq, Structural)]
pub struct ControllerNodeParams {
    pub ctrl_period: Real,
    pub lateral: Option<MpcParams>,
    pub longitudinal: Option<PidParams>,
    pub ego_nearest_dist_threshold: Real,
    pub ego_nearest_yaw_threshold: Real,
}

/// Dimensions of the vehicle.
#[derive(Clone, Copy, Debug, PartialEq, Eq, Structural)]
pub struct VehicleInfo {
    pub wheel_radius: Real,
    pub wheel_width: Real,
    pub wheel_base: Real,
    pub wheel_tread: Real,
    pub front_overhang: Real,
    pub rear_overhang: Real,
    pub left_overhang: Real,
    pub right_overhang: Real,
    pub vehicle_height: Real,
    pub max_steer_angle: Real,
}

/// What the trajectory follower is made with.
#[derive(Clone, Copy, Debug, PartialEq, Eq, Structural)]
pub struct ControllerParams {
    pub node: ControllerNodeParams,
    pub vehicle_info: VehicleInfo,
}

/// The settings of all algorithms.
#[derive(Clone, Copy, Debug, PartialEq, Eq, Structural)]
pub struct SentinelParams {
    pub stop_filter_vx_threshold: Real,
    pub stop_filter_wz_threshold: Real,
    pub velocity_converter_speed_scale: Real,
    pub velocity_converter_stddev_vx: Real,
    pub velocity_converter_stddev_wz: Real,
    pub twist2accel_lpf_gain: Real,
    pub watchdog_timeout_ms: u64,
    pub mrm_handler: MrmHandlerParams,
    pub emergency_stop: EmergencyStopParams,
    pub comfortable_stop: ComfortableStopParams,
    pub gate: GateParams,
    pub shift_decider_park_on_goal: bool,
    pub control_validator: ValidatorParams,
    pub op_mode_mgr: OperationModeParams,
    /// Present when the trajectory follower is part of the build.
    pub controller: Option<ControllerParams>,
}

/// An integer as an unsigned number: negative ones count down from 2^64.
pub open spec fn unsigned(v: i64) -> u64 {
    if v >= 0 {
        v as u64
    } else {
        (v + 0x1_0000_0000_0000_0000) as u64
    }
}

impl ParameterServer {
    /// The real number that a parameter holds.
    pub open spec fn double(&self, p: Param) -> Real {
        self.value(p)->0->Double_0
    }

    /// The integer that a parameter holds.
    pub open spec fn integer(&self, p: Param) -> i64 {
        self.value(p)->0->Integer_0
    }

    /// The flag that a parameter holds.
    pub open spec fn flag(&self, p: Param) -> bool {
        self.value(p)->0->Bool_0
    }
}

/// The settings that the parameters of a server ask for.
pub open spec fn settings(server: ParameterServer, controller: bool) -> SentinelParams {
    SentinelParams {
        stop_filter_vx_threshold: server.double(Param::StopFilterVxThreshold),
        stop_filter_wz_threshold: server.double(Param::StopFilterWzThreshold),
        velocity_converter_speed_scale: server.double(Param::VelocityConverterSpeedScaleFactor),
        velocity_converter_stddev_vx: server.double(Param::VelocityConverterStddevVx),
        velocity_converter_stddev_wz: server.double(Param::VelocityConverterStddevWz),
        twist2accel_lpf_gain: server.double(Param::Twist2accelAccelLowpassGain),
        watchdog_timeout_ms: unsigned(server.integer(Param::HeartbeatTimeoutMs)),
        mrm_handler: MrmHandlerParams {
            stopped_velocity_threshold: server.double(Param::MrmHandlerStoppedVelocityThreshold),
        },
        emergency_stop: EmergencyStopParams {
            target_acceleration: server.double(Param::MrmEmergencyStopTargetAcceleration),
            target_jerk: server.double(Param::MrmEmergencyStopTargetJerk),
        },
        comfortable_stop: ComfortableStopParams {
            min_acceleration: server.double(Param::MrmComfortableStopMinAcceleration),
            min_jerk: server.double(Param::MrmComfortableStopMinJerk),
        },
        gate: GateParams {
            filter: FilterParams {
                vel_lim: server.double(Param::VehicleCmdGateVelLim),
                wheel_base: server.double(Param::VehicleInfoWheelBase),
            },
            arbiter: ArbiterParams {
                stop_hold_accel: server.double(Param::VehicleCmdGateStopHoldAccel),
                emergency_accel: server.double(Param::VehicleCmdGateEmergencyAccel),
            },
            heartbeat_timeout_ms: unsigned(server.integer(Param::VehicleCmdGateHeartbeatTimeoutMs)),
        },
        shift_decider_park_on_goal: server.flag(Param::ShiftDeciderParkOnGoal),
        control_validator: ValidatorParams {
            accel: AccelValidatorParams {
                e_offset: server.double(Param::ControlValidatorAccErrorOffset),
                e_scale: server.double(Param::ControlValidatorAccErrorScale),
                lpf_gain: server.double(Param::ControlValidatorAccLpfGain),
            },
            velocity: VelocityValidatorParams {
                rolling_back_velocity_th: server.double(Param::ControlValidatorRollingBackVelocity),
                over_velocity_ratio_th: server.double(Param::ControlValidatorOverVelocityRatio),
                over_velocity_offset_th: server.double(Param::ControlValidatorOverVelocityOffset),
                lpf_gain: server.double(Param::ControlValidatorVelLpfGain),
            },
            jerk: LateralJerkValidatorParams {
                lateral_jerk_threshold: server.double(Param::ControlValidatorLateralJerkThreshold),
                wheel_base: server.double(Param::VehicleInfoWheelBase),
                lpf_gain: server.double(Param::ControlValidatorJerkLpfGain),
            },
        },
        op_mode_mgr: OperationModeParams {
            allow_autonomous_in_stopped: server.flag(Param::OpModeAllowAutonomousInStopped),
            stopped_velocity_threshold: server.double(Param::OpModeStoppedVelocityThreshold),
            enable_engage_on_driving: server.flag(Param::OpModeEnableEngageOnDriving),
            acc_threshold: server.double(Param::OpModeAccThreshold),
            speed_upper_threshold: server.double(Param::OpModeSpeedUpperThreshold),
            speed_lower_threshold: server.double(Param::OpModeSpeedLowerThreshold),
            stable_check_duration: server.double(Param::OpModeStableCheckDuration),
        },
        controller: if controller {
            Some(ControllerParams {
                node: ControllerNodeParams {
                    ctrl_period: server.double(Param::ControllerCtrlPeriod),
                    lateral: Some(MpcParams {
                        ctrl_period: server.double(Param::ControllerCtrlPeriod),
                        steering_lpf_gain: server.double(Param::MpcSteeringLpfGain),
                        prediction_horizon: server.integer(Param::MpcPredictionHorizon) as usize,
                        prediction_dt: server.double(Param::MpcPredictionDt),
                        steer_tau: server.double(Param::MpcSteerTau),
                        input_delay: server.double(Param::MpcInputDelay),
                        steer_rate_lim: server.double(Param::MpcSteerRateLim),
                    }),
                    longitudinal: Some(PidParams {
                        kp: server.double(Param::PidKp),
                        ki: server.double(Param::PidKi),
                        kd: server.double(Param::PidKd),
                        max_acc: server.double(Param::PidMaxAcc),
                        min_acc: server.double(Param::PidMinAcc),
                        max_jerk: server.double(Param::PidMaxJerk),
                        min_jerk: server.double(Param::PidMinJerk),
                        delay_compensation_time: server.double(Param::PidDelayCompensationTime),
                        stopped_acc: server.double(Param::PidStoppedAcc),
                        emergency_acc: server.double(Param::PidEmergencyAcc),
                    }),
                    ego_nearest_dist_threshold: server.double(
                        Param::ControllerEgoNearestDistThreshold,
                    ),
                    ego_nearest_yaw_threshold: server.double(
                        Param::ControllerEgoNearestYawThreshold,
                    ),
                },
                vehicle_info: VehicleInfo {
                    wheel_radius: server.double(Param::VehicleInfoWheelRadius),
                    wheel_width: server.double(Param::VehicleInfoWheelWidth),
                    wheel_base: server.double(Param::VehicleInfoWheelBase),
                    wheel_tread: server.double(Param::VehicleInfoWheelTread),
                    front_overhang: server.double(Param::VehicleInfoFrontOverhang),
                    rear_overhang: server.double(Param::VehicleInfoRearOverhang),
                    left_overhang: server.double(Param::VehicleInfoLeftOverhang),
                    right_overhang: server.double(Param::VehicleInfoRightOverhang),
                    vehicle_height: server.double(Param::VehicleInfoVehicleHeight),
                    max_steer_angle: server.double(Param::VehicleInfoMaxSteerAngle),
                },
            })
        } else {
            None
        },
    }
}

/// The settings that hold where no parameter server is at hand.
pub open spec fn default_settings(controller: bool) -> SentinelParams {
    SentinelParams {
        stop_filter_vx_threshold: Real::plus(1, 1),
        stop_filter_wz_threshold: Real::plus(2, 2),
        velocity_converter_speed_scale: Real::plus(1, 0),
        velocity_converter_stddev_vx: Real::plus(2, 1),
        velocity_converter_stddev_wz: Real::plus(1, 1),
        twist2accel_lpf_gain: Real::plus(9, 1),
        watchdog_timeout_ms: 60000,
        mrm_handler: MrmHandlerParams {
            stopped_velocity_threshold: Real::plus(1, 3),
        },
        emergency_stop: EmergencyStopParams {
            target_acceleration: Real::minus(25, 1),
            target_jerk: Real::minus(15, 1),
        },
        comfortable_stop: ComfortableStopParams {
            min_acceleration: Real::minus(1, 0),
            min_jerk: Real::minus(3, 1),
        },
        gate: GateParams {
            filter: FilterParams {
                vel_lim: Real::plus(25, 0),
                wheel_base: Real::plus(279, 2),
            },
            arbiter: ArbiterParams {
                stop_hold_accel: Real::minus(15, 1),
                emergency_accel: Real::minus(24, 1),
            },
            heartbeat_timeout_ms: 5000,
        },
        shift_decider_park_on_goal: true,
        control_validator: ValidatorParams {
            accel: AccelValidatorParams {
                e_offset: Real::plus(8, 1),
                e_scale: Real::plus(2, 1),
                lpf_gain: Real::plus(97, 2),
            },
            velocity: VelocityValidatorParams {
                rolling_back_velocity_th: Real::plus(5, 1),
                over_velocity_ratio_th: Real::plus(2, 1),
                over_velocity_offset_th: Real::plus(2, 0),
                lpf_gain: Real::plus(9, 1),
            },
            jerk: LateralJerkValidatorParams {
                lateral_jerk_threshold: Real::plus(10, 0),
                wheel_base: Real::plus(279, 2),
                lpf_gain: Real::plus(8, 1),
            },
        },
        op_mode_mgr: OperationModeParams {
            allow_autonomous_in_stopped: true,
            stopped_velocity_threshold: Real::plus(1, 2),
            enable_engage_on_driving: false,
            acc_threshold: Real::plus(15, 1),
            speed_upper_threshold: Real::plus(10, 0),
            speed_lower_threshold: Real::minus(10, 0),
            stable_check_duration: Real::plus(1, 1),
        },
        controller: if controller {
            Some(ControllerParams {
                node: ControllerNodeParams {
                    ctrl_period: Real::plus(33, 3),
                    lateral: None,
                    longitudinal: None,
                    ego_nearest_dist_threshold: Real::plus(3, 0),
                    ego_nearest_yaw_threshold: Real::plus(157, 2),
                },
                vehicle_info: VehicleInfo {
                    wheel_radius: Real::plus(383, 3),
                    wheel_width: Real::plus(235, 3),
                    wheel_base: Real::plus(279, 2),
                    wheel_tread: Real::plus(164, 2),
                    front_overhang: Real::plus(1, 0),
                    rear_overhang: Real::plus(11, 1),
                    left_overhang: Real::plus(128, 3),
                    right_overhang: Real::plus(128, 3),
                    vehicle_height: Real::plus(25, 1),
                    max_steer_angle: Real::plus(7, 1),
                },
            })
        } else {
            None
        },
    }
}

fn read_real(server: &ParameterServer, p: Param) -> (r: Real)
    requires
        server.wf(),
        server.value(p) is Some,
        server.value(p)->0 is Double,
    ensures
        r == server.double(p),
{
    server.get_double(p).unwrap()
}

fn read_unsigned(server: &ParameterServer, p: Param) -> (r: u64)
    requires
        server.wf(),
        server.value(p) is Some,
        server.value(p)->0 is Integer,
    ensures
        r == unsigned(server.integer(p)),
{
    let v: i64 = server.get_integer(p).unwrap();
    assert(v < 0 ==> (v as u64) == v + 0x1_0000_0000_0000_0000) by (bit_vector);
    v as u64
}

fn read_steps(server: &ParameterServer, p: Param) -> (r: usize)
    requires
        server.wf(),
        server.value(p) is Some,
        server.value(p)->0 is Integer,
    ensures
        r == server.integer(p) as usize,
{
    server.get_integer(p).unwrap() as usize
}

fn read_flag(server: &ParameterServer, p: Param) -> (r: bool)
    requires
        server.wf(),
        server.value(p) is Some,
        server.value(p)->0 is Bool,
    ensures
        r == server.flag(p),
{
    server.get_bool(p).unwrap()
}

/// Reads the settings of all algorithms from the parameter server.
pub fn read_params(server: &ParameterServer, controller: bool) -> (r: SentinelParams)
    requires
        server.wf(),
        server.complete(controller),
    ensures
        r == settings(*server, controller),
{
    SentinelParams {
        stop_filter_vx_threshold: read_real(server, Param::StopFilterVxThreshold),
        stop_filter_wz_threshold: read_real(server, Param::StopFilterWzThreshold),
        velocity_converter_speed_scale: read_real(server, Param::VelocityConverterSpeedScaleFactor),
        velocity_converter_stddev_vx: read_real(server, Param::VelocityConverterStddevVx),
        velocity_converter_stddev_wz: read_real(server, Param::VelocityConverterStddevWz),
        twist2accel_lpf_gain: read_real(server, Param::Twist2accelAccelLowpassGain),
        watchdog_timeout_ms: read_unsigned(server, Param::HeartbeatTimeoutMs),
        mrm_handler: MrmHandlerParams {
            stopped_velocity_threshold: read_real(
                server,
                Param::MrmHandlerStoppedVelocityThreshold,
            ),
        },
        emergency_stop: EmergencyStopParams {
            target_acceleration: read_real(server, Param::MrmEmergencyStopTargetAcceleration),
            target_jerk: read_real(server, Param::MrmEmergencyStopTargetJerk),
        },
        comfortable_stop: ComfortableStopParams {
            min_acceleration: read_real(server, Param::MrmComfortableStopMinAcceleration),
            min_jerk: read_real(server, Param::MrmComfortableStopMinJerk),
        },
        gate: GateParams {
            filter: FilterParams {
                vel_lim: read_real(server, Param::VehicleCmdGateVelLim),
                wheel_base: read_real(server, Param::VehicleInfoWheelBase),
            },
            arbiter: ArbiterParams {
                stop_hold_accel: read_real(server, Param::VehicleCmdGateStopHoldAccel),
                emergency_accel: read_real(server, Param::VehicleCmdGateEmergencyAccel),
            },
            heartbeat_timeout_ms: read_unsigned(server, Param::VehicleCmdGateHeartbeatTimeoutMs),
        },
        shift_decider_park_on_goal: read_flag(server, Param::ShiftDeciderParkOnGoal),
        control_validator: ValidatorParams {
            accel: AccelValidatorParams {
                e_offset: read_real(server, Param::ControlValidatorAccErrorOffset),
                e_scale: read_real(server, Param::ControlValidatorAccErrorScale),
                lpf_gain: read_real(server, Param::ControlValidatorAccLpfGain),
            },
            velocity: VelocityValidatorParams {
                rolling_back_velocity_th: read_real(
                    server,
                    Param::ControlValidatorRollingBackVelocity,
                ),
                over_velocity_ratio_th: read_real(server, Param::ControlValidatorOverVelocityRatio),
                over_velocity_offset_th: read_real(
                    server,
                    Param::ControlValidatorOverVelocityOffset,
                ),
                lpf_gain: read_real(server, Param::ControlValidatorVelLpfGain),
            },
            jerk: LateralJerkValidatorParams {
                lateral_jerk_threshold: read_real(
                    server,
                    Param::ControlValidatorLateralJerkThreshold,
                ),
                wheel_base: read_real(server, Param::VehicleInfoWheelBase),
                lpf_gain: read_real(server, Param::ControlValidatorJerkLpfGain),
            },
        },
        op_mode_mgr: OperationModeParams {
            allow_autonomous_in_stopped: read_flag(server, Param::OpModeAllowAutonomousInStopped),
            stopped_velocity_threshold: read_real(server, Param::OpModeStoppedVelocityThreshold),
            enable_engage_on_driving: read_flag(server, Param::OpModeEnableEngageOnDriving),
            acc_threshold: read_real(server, Param::OpModeAccThreshold),
            speed_upper_threshold: read_real(server, Param::OpModeSpeedUpperThreshold),
            speed_lower_threshold: read_real(server, Param::OpModeSpeedLowerThreshold),
            stable_check_duration: read_real(server, Param::OpModeStableCheckDuration),
        },
        controller: if controller {
            Some(ControllerParams {
                node: ControllerNodeParams {
                    ctrl_period: read_real(server, Param::ControllerCtrlPeriod),
                    lateral: Some(MpcParams {
                        ctrl_period: read_real(server, Param::ControllerCtrlPeriod),
                        steering_lpf_gain: read_real(server, Param::MpcSteeringLpfGain),
                        prediction_horizon: read_steps(server, Param::MpcPredictionHorizon),
                        prediction_dt: read_real(server, Param::MpcPredictionDt),
                        steer_tau: read_real(server, Param::MpcSteerTau),
                        input_delay: read_real(server, Param::MpcInputDelay),
                        steer_rate_lim: read_real(server, Param::MpcSteerRateLim),
                    }),
                    longitudinal: Some(PidParams {
                        kp: read_real(server, Param::PidKp),
                        ki: read_real(server, Param::PidKi),
                        kd: read_real(server, Param::PidKd),
                        max_acc: read_real(server, Param::PidMaxAcc),
                        min_acc: read_real(server, Param::PidMinAcc),
                        max_jerk: read_real(server, Param::PidMaxJerk),
                        min_jerk: read_real(server, Param::PidMinJerk),
                        delay_compensation_time: read_real(server, Param::PidDelayCompensationTime),
                        stopped_acc: read_real(server, Param::PidStoppedAcc),
                        emergency_acc: read_real(server, Param::PidEmergencyAcc),
                    }),
                    ego_nearest_dist_threshold: read_real(
                        server,
                        Param::ControllerEgoNearestDistThreshold,
                    ),
                    ego_nearest_yaw_threshold: read_real(
                        server,
                        Param::ControllerEgoNearestYawThreshold,
                    ),
                },
                vehicle_info: VehicleInfo {
                    wheel_radius: read_real(server, Param::VehicleInfoWheelRadius),
                    wheel_width: read_real(server, Param::VehicleInfoWheelWidth),
                    wheel_base: read_real(server, Param::VehicleInfoWheelBase),
                    wheel_tread: read_real(server, Param::VehicleInfoWheelTread),
                    front_overhang: read_real(server, Param::VehicleInfoFrontOverhang),
                    rear_overhang: read_real(server, Param::VehicleInfoRearOverhang),
                    left_overhang: read_real(server, Param::VehicleInfoLeftOverhang),
                    right_overhang: read_real(server, Param::VehicleInfoRightOverhang),
                    vehicle_height: read_real(server, Param::VehicleInfoVehicleHeight),
                    max_steer_angle: read_real(server, Param::VehicleInfoMaxSteerAngle),
                },
            })
        } else {
            None
        },
    }
}

/// The settings for builds without a parameter server.
pub fn default_params(controller: bool) -> (r: SentinelParams)
    ensures
        r == default_settings(controller),
{
    SentinelParams {
        stop_filter_vx_threshold: Real::plus(1, 1),
        stop_filter_wz_threshold: Real::plus(2, 2),
        velocity_converter_speed_scale: Real::plus(1, 0),
        velocity_converter_stddev_vx: Real::plus(2, 1),
        velocity_converter_stddev_wz: Real::plus(1, 1),
        twist2accel_lpf_gain: Real::plus(9, 1),
        watchdog_timeout_ms: 60000,
        mrm_handler: MrmHandlerParams {
            stopped_velocity_threshold: Real::plus(1, 3),
        },
        emergency_stop: EmergencyStopParams {
            target_acceleration: Real::minus(25, 1),
            target_jerk: Real::minus(15, 1),
        },
        comfortable_stop: ComfortableStopParams {
            min_acceleration: Real::minus(1, 0),
            min_jerk: Real::minus(3, 1),
        },
        gate: GateParams {
            filter: FilterParams {
                vel_lim: Real::plus(25, 0),
                wheel_base: Real::plus(279, 2),
            },
            arbiter: ArbiterParams {
                stop_hold_accel: Real::minus(15, 1),
                emergency_accel: Real::minus(24, 1),
            },
            heartbeat_timeout_ms: 5000,
        },
        shift_decider_park_on_goal: true,
        control_validator: ValidatorParams {
            accel: AccelValidatorParams {
                e_offset: Real::plus(8, 1),
                e_scale: Real::plus(2, 1),
                lpf_gain: Real::plus(97, 2),
            },
            velocity: VelocityValidatorParams {
                rolling_back_velocity_th: Real::plus(5, 1),
                over_velocity_ratio_th: Real::plus(2, 1),
                over_velocity_offset_th: Real::plus(2, 0),
                lpf_gain: Real::plus(9, 1),
            },
            jerk: LateralJerkValidatorParams {
                lateral_jerk_threshold: Real::plus(10, 0),
                wheel_base: Real::plus(279, 2),
                lpf_gain: Real::plus(8, 1),
            },
        },
        op_mode_mgr: OperationModeParams {
            allow_autonomous_in_stopped: true,
            stopped_velocity_threshold: Real::plus(1, 2),
            enable_engage_on_driving: false,
            acc_threshold: Real::plus(15, 1),
            speed_upper_threshold: Real::plus(10, 0),
            speed_lower_threshold: Real::minus(10, 0),
            stable_check_duration: Real::plus(1, 1),
        },
        controller: if controller {
            Some(ControllerParams {
                node: ControllerNodeParams {
                    ctrl_period: Real::plus(33, 3),
                    lateral: None,
                    longitudinal: None,
                    ego_nearest_dist_threshold: Real::plus(3, 0),
                    ego_nearest_yaw_threshold: Real::plus(157, 2),
                },
                vehicle_info: VehicleInfo {
                    wheel_radius: Real::plus(383, 3),
                    wheel_width: Real::plus(235, 3),
                    wheel_base: Real::plus(279, 2),
                    wheel_tread: Real::plus(164, 2),
                    front_overhang: Real::plus(1, 0),
                    rear_overhang: Real::plus(11, 1),
                    left_overhang: Real::plus(128, 3),
                    right_overhang: Real::plus(128, 3),
                    vehicle_height: Real::plus(25, 1),
                    max_steer_angle: Real::plus(7, 1),
                },
            })
        } else {
            None
        },
    }
}

/// The settings with both controllers of the trajectory follower left to themselves.
pub open spec fn without_controller_tuning(settings: SentinelParams) -> SentinelParams {
    SentinelParams {
        controller: match settings.controller {
            Some(controller) => Some(
                ControllerParams {
                    node: ControllerNodeParams {
                        lateral: None,
                        longitudinal: None,
                        ..controller.node
                    },
                    ..controller
                },
            ),
            None => None,
        },
        ..settings
    }
}

#[verifier::spinoff_prover]
proof fn lemma_defaults_without_controller(server: ParameterServer)
    requires
        forall|p: Param|
            p.is_declared(false) ==> #[trigger] server.value(p) == Some(p.default_value()),
    ensures
        server.complete(false),
        settings(server, false) == default_settings(false),
{
}

#[verifier::spinoff_prover]
#[verifier::rlimit(40)]
proof fn lemma_defaults_with_controller(server: ParameterServer)
    requires
        forall|p: Param|
            p.is_declared(true) ==> #[trigger] server.value(p) == Some(p.default_value()),
    ensures
        server.complete(true),
        without_controller_tuning(settings(server, true)) == default_settings(true),
{
}

/// A server on which the parameters have just been declared gives the settings of a build
/// without one. Only the tuning of the two controllers of the trajectory follower, which
/// the latter leaves to them, may differ.
pub proof fn law_declared_defaults_are_the_default_params(server: ParameterServer, controller: bool)
    requires
        forall|p: Param|
            p.is_declared(controller) ==> #[trigger] server.value(p) == Some(p.default_value()),
    ensures
        server.complete(controller),
        without_controller_tuning(settings(server, controller)) == default_settings(controller),
        !controller ==> settings(server, controller) == default_settings(controller),
{
    if controller {
        lemma_defaults_with_controller(server);
    } else {
        lemma_defaults_without_controller(server);
    }
}

/// The settings depend on nothing but the parameters that are read: servers that agree on
/// those give the same settings.
pub proof fn law_settings_depend_on_read_parameters(
    a: ParameterServer,
    b: ParameterServer,
    controller: bool,
)
    requires
        forall|p: Param| p.is_read(controller) ==> #[trigger] a.value(p) == b.value(p),
    ensures
        settings(a, controller) == settings(b, controller),
{
    assert forall|p: Param| p.is_read(controller) implies #[trigger] b.value(p) == a.value(p) by {}
}

/// No attempt to set anything changes a parameter that may only be read, nor lets it be set.
pub proof fn law_read_only_parameters_do_not_change(
    before: ParameterServer,
    p: Param,
    value: ParamValue,
    after: ParameterServer,
    q: Param,
)
    requires
        before.is_read_only(q),
        before.attempt(p, value, &after),
    ensures
        after.value(q) == before.value(q),
        after.is_read_only(q),
{
}

/// After the parameters have been declared, whatever is tried to be set, however often, each
/// of them keeps its default, and the settings are the same as before.
pub proof fn law_declared_parameters_keep_their_defaults(
    servers: Seq<ParameterServer>,
    tried: Seq<(Param, ParamValue)>,
    controller: bool,
    p: Param,
)
    requires
        servers.len() == tried.len() + 1,
        forall|q: Param|
            q.is_declared(controller) ==> #[trigger] servers[0].value(q) == Some(q.default_value()),
        forall|q: Param| q.is_declared(controller) ==> #[trigger] servers[0].is_read_only(q),
        forall|k: int|
            0 <= k < tried.len() ==> #[trigger] servers[k].attempt(
                tried[k].0,
                tried[k].1,
                &servers[k + 1],
            ),
        p.is_declared(controller),
    ensures
        servers.last().value(p) == Some(p.default_value()),
        servers.last().is_read_only(p),
        settings(servers.last(), controller) == settings(servers[0], controller),
{
    assert forall|q: Param| q.is_declared(controller) implies #[trigger] servers.last().value(q)
        == servers[0].value(q) && servers.last().is_read_only(q) by {
        lemma_tried_parameter_keeps_its_value(servers, tried, tried.len() as int, q);
    }
    assert(servers.last().value(p) == servers[0].value(p));
    law_settings_depend_on_read_parameters(servers.last(), servers[0], controller);
}

proof fn lemma_tried_parameter_keeps_its_value(
    servers: Seq<ParameterServer>,
    tried: Seq<(Param, ParamValue)>,
    n: int,
    q: Param,
)
    requires
        servers.len() == tried.len() + 1,
        0 <= n <= tried.len(),
        servers[0].is_read_only(q),
        forall|k: int|
            0 <= k < tried.len() ==> #[trigger] servers[k].attempt(
                tried[k].0,
                tried[k].1,
                &servers[k + 1],
            ),
    ensures
        servers[n].value(q) == servers[0].value(q),
        servers[n].is_read_only(q),
    decreases n,
{
    if n > 0 {
        lemma_tried_parameter_keeps_its_value(servers, tried, n - 1, q);
        let k = n - 1;
        assert(servers[k].attempt(tried[k].0, tried[k].1, &servers[k + 1]));
        law_read_only_parameters_do_not_change(
            servers[k],
            tried[k].0,
            tried[k].1,
            servers[k + 1],
            q,
        );
    }
}

// ---------------------------------------------------------------------------
// Parameters by their names
// ---------------------------------------------------------------------------

impl ParameterServer {
    /// The value of the parameter of this name, if there is such a parameter and it has one.
    pub open spec fn named(&self, name: Seq<char>) -> Option<ParamValue> {
        match param_named(name) {
            Some(p) => self.value(p),
            None => None,
        }
    }
}

/// The settings of the sensing algorithms and of the watchdog are each the value of the
/// parameter of their own name.
#[verifier::spinoff_prover]
#[verifier::rlimit(30)]
pub proof fn law_sensing_settings_follow_their_parameters(
    server: ParameterServer,
    controller: bool,
)
    requires
        server.complete(controller),
    ensures
        ({
            let s = settings(server, controller);
            &&& server.named("stop_filter.vx_threshold"@) == Some(
                ParamValue::Double(s.stop_filter_vx_threshold),
            )
            &&& server.named("stop_filter.wz_threshold"@) == Some(
                ParamValue::Double(s.stop_filter_wz_threshold),
            )
            &&& server.named("velocity_converter.speed_scale_factor"@) == Some(
                ParamValue::Double(s.velocity_converter_speed_scale),
            )
            &&& server.named("velocity_converter.stddev_vx"@) == Some(
                ParamValue::Double(s.velocity_converter_stddev_vx),
            )
            &&& server.named("velocity_converter.stddev_wz"@) == Some(
                ParamValue::Double(s.velocity_converter_stddev_wz),
            )
            &&& server.named("twist2accel.accel_lowpass_gain"@) == Some(
                ParamValue::Double(s.twist2accel_lpf_gain),
            )
            &&& server.named("heartbeat.timeout_ms"@) matches Some(ParamValue::Integer(v)) && s.watchdog_timeout_ms == (
            if v >= 0 {
                v as int
            } else {
                v + 0x1_0000_0000_0000_0000
            })
        }),
{
    law_param_is_found_by_name(Param::StopFilterVxThreshold);
    law_param_is_found_by_name(Param::StopFilterWzThreshold);
    law_param_is_found_by_name(Param::VelocityConverterSpeedScaleFactor);
    law_param_is_found_by_name(Param::VelocityConverterStddevVx);
    law_param_is_found_by_name(Param::VelocityConverterStddevWz);
    law_param_is_found_by_name(Param::Twist2accelAccelLowpassGain);
    law_param_is_found_by_name(Param::HeartbeatTimeoutMs);
}

/// The settings of the minimum-risk manoeuvre and of its two stops are each the value of the
/// parameter of their own name.
#[verifier::spinoff_prover]
#[verifier::rlimit(30)]
pub proof fn law_manoeuvre_settings_follow_their_parameters(
    server: ParameterServer,
    controller: bool,
)
    requires
        server.complete(controller),
    ensures
        ({
            let s = settings(server, controller);
            &&& server.named("mrm_handler.stopped_velocity_threshold"@) == Some(
                ParamValue::Double(s.mrm_handler.stopped_velocity_threshold),
            )
            &&& server.named("mrm_emergency_stop.target_acceleration"@) == Some(
                ParamValue::Double(s.emergency_stop.target_acceleration),
            )
            &&& server.named("mrm_emergency_stop.target_jerk"@) == Some(
                ParamValue::Double(s.emergency_stop.target_jerk),
            )
            &&& server.named("mrm_comfortable_stop.min_acceleration"@) == Some(
                ParamValue::Double(s.comfortable_stop.min_acceleration),
            )
            &&& server.named("mrm_comfortable_stop.min_jerk"@) == Some(
                ParamValue::Double(s.comfortable_stop.min_jerk),
            )
        }),
{
    law_param_is_found_by_name(Param::MrmHandlerStoppedVelocityThreshold);
    law_param_is_found_by_name(Param::MrmEmergencyStopTargetAcceleration);
    law_param_is_found_by_name(Param::MrmEmergencyStopTargetJerk);
    law_param_is_found_by_name(Param::MrmComfortableStopMinAcceleration);
    law_param_is_found_by_name(Param::MrmComfortableStopMinJerk);
}

/// The settings of the command gate, of the choice of the gear and of the operation mode
/// transitions are each the value of the parameter of their own name.
#[verifier::spinoff_prover]
#[verifier::rlimit(30)]
pub proof fn law_gate_settings_follow_their_parameters(
    server: ParameterServer,
    controller: bool,
)
    requires
        server.complete(controller),
    ensures
        ({
            let s = settings(server, controller);
            &&& server.named("vehicle_cmd_gate.vel_lim"@) == Some(
                ParamValue::Double(s.gate.filter.vel_lim),
            )
            &&& server.named("vehicle_info.wheel_base"@) == Some(
                ParamValue::Double(s.gate.filter.wheel_base),
            )
            &&& server.named("vehicle_cmd_gate.stop_hold_accel"@) == Some(
                ParamValue::Double(s.gate.arbiter.stop_hold_accel),
            )
            &&& server.named("vehicle_cmd_gate.emergency_accel"@) == Some(
                ParamValue::Double(s.gate.arbiter.emergency_accel),
            )
            &&& server.named("vehicle_cmd_gate.heartbeat_timeout_ms"@) matches Some(ParamValue::Integer(v)) && s.gate.heartbeat_timeout_ms == (
            if v >= 0 {
                v as int
            } else {
                v + 0x1_0000_0000_0000_0000
            })
            &&& server.named("shift_decider.park_on_goal"@) == Some(
                ParamValue::Bool(s.shift_decider_park_on_goal),
            )
            &&& server.named("op_mode.allow_autonomous_in_stopped"@) == Some(
                ParamValue::Bool(s.op_mode_mgr.allow_autonomous_in_stopped),
            )
            &&& server.named("op_mode.stopped_velocity_threshold"@) == Some(
                ParamValue::Double(s.op_mode_mgr.stopped_velocity_threshold),
            )
            &&& server.named("op_mode.enable_engage_on_driving"@) == Some(
                ParamValue::Bool(s.op_mode_mgr.enable_engage_on_driving),
            )
            &&& server.named("op_mode.acc_threshold"@) == Some(
                ParamValue::Double(s.op_mode_mgr.acc_threshold),
            )
            &&& server.named("op_mode.speed_upper_threshold"@) == Some(
                ParamValue::Double(s.op_mode_mgr.speed_upper_threshold),
            )
            &&& server.named("op_mode.speed_lower_threshold"@) == Some(
                ParamValue::Double(s.op_mode_mgr.speed_lower_threshold),
            )
            &&& server.named("op_mode.stable_check_duration"@) == Some(
                ParamValue::Double(s.op_mode_mgr.stable_check_duration),
            )
        }),
{
    law_param_is_found_by_name(Param::VehicleCmdGateVelLim);
    law_param_is_found_by_name(Param::VehicleInfoWheelBase);
    law_param_is_found_by_name(Param::VehicleCmdGateStopHoldAccel);
    law_param_is_found_by_name(Param::VehicleCmdGateEmergencyAccel);
    law_param_is_found_by_name(Param::VehicleCmdGateHeartbeatTimeoutMs);
    law_param_is_found_by_name(Param::ShiftDeciderParkOnGoal);
    law_param_is_found_by_name(Param::OpModeAllowAutonomousInStopped);
    law_param_is_found_by_name(Param::OpModeStoppedVelocityThreshold);
    law_param_is_found_by_name(Param::OpModeEnableEngageOnDriving);
    law_param_is_found_by_name(Param::OpModeAccThreshold);
    law_param_is_found_by_name(Param::OpModeSpeedUpperThreshold);
    law_param_is_found_by_name(Param::OpModeSpeedLowerThreshold);
    law_param_is_found_by_name(Param::OpModeStableCheckDuration);
}

/// The settings of the validator are each the value of the
/// parameter of their own name.
#[verifier::spinoff_prover]
#[verifier::rlimit(30)]
pub proof fn law_validator_settings_follow_their_parameters(
    server: ParameterServer,
    controller: bool,
)
    requires
        server.complete(controller),
    ensures
        ({
            let s = settings(server, controller);
            &&& server.named("control_validator.acc_error_offset"@) == Some(
                ParamValue::Double(s.control_validator.accel.e_offset),
            )
            &&& server.named("control_validator.acc_error_scale"@) == Some(
                ParamValue::Double(s.control_validator.accel.e_scale),
            )
            &&& server.named("control_validator.acc_lpf_gain"@) == Some(
                ParamValue::Double(s.control_validator.accel.lpf_gain),
            )
            &&& server.named("control_validator.rolling_back_velocity"@) == Some(
                ParamValue::Double(s.control_validator.velocity.rolling_back_velocity_th),
            )
            &&& server.named("control_validator.over_velocity_ratio"@) == Some(
                ParamValue::Double(s.control_validator.velocity.over_velocity_ratio_th),
            )
            &&& server.named("control_validator.over_velocity_offset"@) == Some(
                ParamValue::Double(s.control_validator.velocity.over_velocity_offset_th),
            )
            &&& server.named("control_validator.vel_lpf_gain"@) == Some(
                ParamValue::Double(s.control_validator.velocity.lpf_gain),
            )
            &&& server.named("control_validator.lateral_jerk_threshold"@) == Some(
                ParamValue::Double(s.control_validator.jerk.lateral_jerk_threshold),
            )
            &&& server.named("vehicle_info.wheel_base"@) == Some(
                ParamValue::Double(s.control_validator.jerk.wheel_base),
            )
            &&& server.named("control_validator.jerk_lpf_gain"@) == Some(
                ParamValue::Double(s.control_validator.jerk.lpf_gain),
            )
        }),
{
    law_param_is_found_by_name(Param::ControlValidatorAccErrorOffset);
    law_param_is_found_by_name(Param::ControlValidatorAccErrorScale);
    law_param_is_found_by_name(Param::ControlValidatorAccLpfGain);
    law_param_is_found_by_name(Param::ControlValidatorRollingBackVelocity);
    law_param_is_found_by_name(Param::ControlValidatorOverVelocityRatio);
    law_param_is_found_by_name(Param::ControlValidatorOverVelocityOffset);
    law_param_is_found_by_name(Param::ControlValidatorVelLpfGain);
    law_param_is_found_by_name(Param::ControlValidatorLateralJerkThreshold);
    law_param_is_found_by_name(Param::VehicleInfoWheelBase);
    law_param_is_found_by_name(Param::ControlValidatorJerkLpfGain);
}

/// The settings of the lateral and of the longitudinal controller are each the value of the
/// parameter of their own name.
#[verifier::spinoff_prover]
#[verifier::rlimit(30)]
pub proof fn law_tuning_follows_its_parameters(
    server: ParameterServer,
)
    requires
        server.complete(true),
    ensures
        ({
            let s = settings(server, true);
            let mpc = s.controller->0.node.lateral->0;
            let pid = s.controller->0.node.longitudinal->0;
            &&& s.controller is Some
            &&& s.controller->0.node.lateral is Some
            &&& s.controller->0.node.longitudinal is Some
            &&& server.named("controller.ctrl_period"@) == Some(ParamValue::Double(mpc.ctrl_period))
            &&& server.named("mpc.steering_lpf_gain"@) == Some(
                ParamValue::Double(mpc.steering_lpf_gain),
            )
            &&& server.named("mpc.prediction_horizon"@) matches Some(ParamValue::Integer(v)) && (0 <= v
                <= usize::MAX ==> mpc.prediction_horizon == v)
            &&& server.named("mpc.prediction_dt"@) == Some(ParamValue::Double(mpc.prediction_dt))
            &&& server.named("mpc.steer_tau"@) == Some(ParamValue::Double(mpc.steer_tau))
            &&& server.named("mpc.input_delay"@) == Some(ParamValue::Double(mpc.input_delay))
            &&& server.named("mpc.steer_rate_lim"@) == Some(ParamValue::Double(mpc.steer_rate_lim))
            &&& server.named("pid.kp"@) == Some(ParamValue::Double(pid.kp))
            &&& server.named("pid.ki"@) == Some(ParamValue::Double(pid.ki))
            &&& server.named("pid.kd"@) == Some(ParamValue::Double(pid.kd))
            &&& server.named("pid.max_acc"@) == Some(ParamValue::Double(pid.max_acc))
            &&& server.named("pid.min_acc"@) == Some(ParamValue::Double(pid.min_acc))
            &&& server.named("pid.max_jerk"@) == Some(ParamValue::Double(pid.max_jerk))
            &&& server.named("pid.min_jerk"@) == Some(ParamValue::Double(pid.min_jerk))
            &&& server.named("pid.delay_compensation_time"@) == Some(
                ParamValue::Double(pid.delay_compensation_time),
            )
            &&& server.named("pid.stopped_acc"@) == Some(ParamValue::Double(pid.stopped_acc))
            &&& server.named("pid.emergency_acc"@) == Some(ParamValue::Double(pid.emergency_acc))
        }),
{
    law_param_is_found_by_name(Param::ControllerCtrlPeriod);
    law_param_is_found_by_name(Param::MpcSteeringLpfGain);
    law_param_is_found_by_name(Param::MpcPredictionHorizon);
    law_param_is_found_by_name(Param::MpcPredictionDt);
    law_param_is_found_by_name(Param::MpcSteerTau);
    law_param_is_found_by_name(Param::MpcInputDelay);
    law_param_is_found_by_name(Param::MpcSteerRateLim);
    law_param_is_found_by_name(Param::PidKp);
    law_param_is_found_by_name(Param::PidKi);
    law_param_is_found_by_name(Param::PidKd);
    law_param_is_found_by_name(Param::PidMaxAcc);
    law_param_is_found_by_name(Param::PidMinAcc);
    law_param_is_found_by_name(Param::PidMaxJerk);
    law_param_is_found_by_name(Param::PidMinJerk);
    law_param_is_found_by_name(Param::PidDelayCompensationTime);
    law_param_is_found_by_name(Param::PidStoppedAcc);
    law_param_is_found_by_name(Param::PidEmergencyAcc);
}

/// The settings of the trajectory follower and of the dimensions of the vehicle that it goes by
/// are each the value of the parameter of their own name.
#[verifier::spinoff_prover]
#[verifier::rlimit(30)]
pub proof fn law_vehicle_settings_follow_their_parameters(
    server: ParameterServer,
)
    requires
        server.complete(true),
    ensures
        ({
            let s = settings(server, true);
            let vehicle = s.controller->0.vehicle_info;
            let node = s.controller->0.node;
            &&& s.controller is Some
            &&& server.named("controller.ctrl_period"@) == Some(
                ParamValue::Double(node.ctrl_period),
            )
            &&& server.named("controller.ego_nearest_dist_threshold"@) == Some(
                ParamValue::Double(node.ego_nearest_dist_threshold),
            )
            &&& server.named("controller.ego_nearest_yaw_threshold"@) == Some(
                ParamValue::Double(node.ego_nearest_yaw_threshold),
            )
            &&& server.named("vehicle_info.wheel_radius"@) == Some(
                ParamValue::Double(vehicle.wheel_radius),
            )
            &&& server.named("vehicle_info.wheel_width"@) == Some(
                ParamValue::Double(vehicle.wheel_width),
            )
            &&& server.named("vehicle_info.wheel_base"@) == Some(
                ParamValue::Double(vehicle.wheel_base),
            )
            &&& server.named("vehicle_info.wheel_tread"@) == Some(
                ParamValue::Double(vehicle.wheel_tread),
            )
            &&& server.named("vehicle_info.front_overhang"@) == Some(
                ParamValue::Double(vehicle.front_overhang),
            )
            &&& server.named("vehicle_info.rear_overhang"@) == Some(
                ParamValue::Double(vehicle.rear_overhang),
            )
            &&& server.named("vehicle_info.left_overhang"@) == Some(
                ParamValue::Double(vehicle.left_overhang),
            )
            &&& server.named("vehicle_info.right_overhang"@) == Some(
                ParamValue::Double(vehicle.right_overhang),
            )
            &&& server.named("vehicle_info.vehicle_height"@) == Some(
                ParamValue::Double(vehicle.vehicle_height),
            )
            &&& server.named("vehicle_info.max_steer_angle"@) == Some(
                ParamValue::Double(vehicle.max_steer_angle),
            )
        }),
{
    law_param_is_found_by_name(Param::ControllerCtrlPeriod);
    law_param_is_found_by_name(Param::ControllerEgoNearestDistThreshold);
    law_param_is_found_by_name(Param::ControllerEgoNearestYawThreshold);
    law_param_is_found_by_name(Param::VehicleInfoWheelRadius);
    law_param_is_found_by_name(Param::VehicleInfoWheelWidth);
    law_param_is_found_by_name(Param::VehicleInfoWheelBase);
    law_param_is_found_by_name(Param::VehicleInfoWheelTread);
    law_param_is_found_by_name(Param::VehicleInfoFrontOverhang);
    law_param_is_found_by_name(Param::VehicleInfoRearOverhang);
    law_param_is_found_by_name(Param::VehicleInfoLeftOverhang);
    law_param_is_found_by_name(Param::VehicleInfoRightOverhang);
    law_param_is_found_by_name(Param::VehicleInfoVehicleHeight);
    law_param_is_found_by_name(Param::VehicleInfoMaxSteerAngle);
}

/// Without the trajectory follower there are no settings for it.
pub proof fn law_no_follower_no_settings_for_it(server: ParameterServer)
    ensures
        settings(server, false).controller is None,
{
}

/// A parameter that is set to another value changes no settings of
/// the sensing algorithms and of the watchdog but those that bear its name.
#[verifier::spinoff_prover]
#[verifier::rlimit(30)]
pub proof fn law_sensing_settings_change_with_their_parameters(
    a: ParameterServer,
    b: ParameterServer,
    p: Param,
    controller: bool,
)
    requires
        forall|q: Param| q != p ==> #[trigger] a.value(q) == b.value(q),
    ensures
        ({
            let s = settings(a, controller);
            let t = settings(b, controller);
            &&& s.stop_filter_vx_threshold != t.stop_filter_vx_threshold
                ==> p.name()@ == "stop_filter.vx_threshold"@
            &&& s.stop_filter_wz_threshold != t.stop_filter_wz_threshold
                ==> p.name()@ == "stop_filter.wz_threshold"@
            &&& s.velocity_converter_speed_scale != t.velocity_converter_speed_scale
                ==> p.name()@ == "velocity_converter.speed_scale_factor"@
            &&& s.velocity_converter_stddev_vx != t.velocity_converter_stddev_vx
                ==> p.name()@ == "velocity_converter.stddev_vx"@
            &&& s.velocity_converter_stddev_wz != t.velocity_converter_stddev_wz
                ==> p.name()@ == "velocity_converter.stddev_wz"@
            &&& s.twist2accel_lpf_gain != t.twist2accel_lpf_gain
                ==> p.name()@ == "twist2accel.accel_lowpass_gain"@
            &&& s.watchdog_timeout_ms != t.watchdog_timeout_ms
                ==> p.name()@ == "heartbeat.timeout_ms"@
        }),
{
    assert(p != Param::StopFilterVxThreshold
        ==> a.value(Param::StopFilterVxThreshold)
        == b.value(Param::StopFilterVxThreshold));
    assert(p != Param::StopFilterWzThreshold
        ==> a.value(Param::StopFilterWzThreshold)
        == b.value(Param::StopFilterWzThreshold));
    assert(p != Param::VelocityConverterSpeedScaleFactor
        ==> a.value(Param::VelocityConverterSpeedScaleFactor)
        == b.value(Param::VelocityConverterSpeedScaleFactor));
    assert(p != Param::VelocityConverterStddevVx
        ==> a.value(Param::VelocityConverterStddevVx)
        == b.value(Param::VelocityConverterStddevVx));
    assert(p != Param::VelocityConverterStddevWz
        ==> a.value(Param::VelocityConverterStddevWz)
        == b.value(Param::VelocityConverterStddevWz));
    assert(p != Param::Twist2accelAccelLowpassGain
        ==> a.value(Param::Twist2accelAccelLowpassGain)
        == b.value(Param::Twist2accelAccelLowpassGain));
    assert(p != Param::HeartbeatTimeoutMs
        ==> a.value(Param::HeartbeatTimeoutMs)
        == b.value(Param::HeartbeatTimeoutMs));
}

/// A parameter that is set to another value changes no settings of
/// the minimum-risk manoeuvre and of its two stops but those that bear its name.
#[verifier::spinoff_prover]
#[verifier::rlimit(30)]
pub proof fn law_manoeuvre_settings_change_with_their_parameters(
    a: ParameterServer,
    b: ParameterServer,
    p: Param,
    controller: bool,
)
    requires
        forall|q: Param| q != p ==> #[trigger] a.value(q) == b.value(q),
    ensures
        ({
            let s = settings(a, controller);
            let t = settings(b, controller);
            &&& s.mrm_handler.stopped_velocity_threshold != t.mrm_handler.stopped_velocity_threshold
                ==> p.name()@ == "mrm_handler.stopped_velocity_threshold"@
            &&& s.emergency_stop.target_acceleration != t.emergency_stop.target_acceleration
                ==> p.name()@ == "mrm_emergency_stop.target_acceleration"@
            &&& s.emergency_stop.target_jerk != t.emergency_stop.target_jerk
                ==> p.name()@ == "mrm_emergency_stop.target_jerk"@
            &&& s.comfortable_stop.min_acceleration != t.comfortable_stop.min_acceleration
                ==> p.name()@ == "mrm_comfortable_stop.min_acceleration"@
            &&& s.comfortable_stop.min_jerk != t.comfortable_stop.min_jerk
                ==> p.name()@ == "mrm_comfortable_stop.min_jerk"@
        }),
{
    assert(p != Param::MrmHandlerStoppedVelocityThreshold
        ==> a.value(Param::MrmHandlerStoppedVelocityThreshold)
        == b.value(Param::MrmHandlerStoppedVelocityThreshold));
    assert(p != Param::MrmEmergencyStopTargetAcceleration
        ==> a.value(Param::MrmEmergencyStopTargetAcceleration)
        == b.value(Param::MrmEmergencyStopTargetAcceleration));
    assert(p != Param::MrmEmergencyStopTargetJerk
        ==> a.value(Param::MrmEmergencyStopTargetJerk)
        == b.value(Param::MrmEmergencyStopTargetJerk));
    assert(p != Param::MrmComfortableStopMinAcceleration
        ==> a.value(Param::MrmComfortableStopMinAcceleration)
        == b.value(Param::MrmComfortableStopMinAcceleration));
    assert(p != Param::MrmComfortableStopMinJerk
        ==> a.value(Param::MrmComfortableStopMinJerk)
        == b.value(Param::MrmComfortableStopMinJerk));
}

/// A parameter that is set to another value changes no settings of
/// the command gate, of the choice of the gear and of the operation mode transitions but those
/// that bear its name.
#[verifier::spinoff_prover]
#[verifier::rlimit(30)]
pub proof fn law_gate_settings_change_with_their_parameters(
    a: ParameterServer,
    b: ParameterServer,
    p: Param,
    controller: bool,
)
    requires
        forall|q: Param| q != p ==> #[trigger] a.value(q) == b.value(q),
    ensures
        ({
            let s = settings(a, controller);
            let t = settings(b, controller);
            &&& s.gate.filter.vel_lim != t.gate.filter.vel_lim
                ==> p.name()@ == "vehicle_cmd_gate.vel_lim"@
            &&& s.gate.filter.wheel_base != t.gate.filter.wheel_base
                ==> p.name()@ == "vehicle_info.wheel_base"@
            &&& s.gate.arbiter.stop_hold_accel != t.gate.arbiter.stop_hold_accel
                ==> p.name()@ == "vehicle_cmd_gate.stop_hold_accel"@
            &&& s.gate.arbiter.emergency_accel != t.gate.arbiter.emergency_accel
                ==> p.name()@ == "vehicle_cmd_gate.emergency_accel"@
            &&& s.gate.heartbeat_timeout_ms != t.gate.heartbeat_timeout_ms
                ==> p.name()@ == "vehicle_cmd_gate.heartbeat_timeout_ms"@
            &&& s.shift_decider_park_on_goal != t.shift_decider_park_on_goal
                ==> p.name()@ == "shift_decider.park_on_goal"@
            &&& s.op_mode_mgr.allow_autonomous_in_stopped != t.op_mode_mgr.allow_autonomous_in_stopped
                ==> p.name()@ == "op_mode.allow_autonomous_in_stopped"@
            &&& s.op_mode_mgr.stopped_velocity_threshold != t.op_mode_mgr.stopped_velocity_threshold
                ==> p.name()@ == "op_mode.stopped_velocity_threshold"@
            &&& s.op_mode_mgr.enable_engage_on_driving != t.op_mode_mgr.enable_engage_on_driving
                ==> p.name()@ == "op_mode.enable_engage_on_driving"@
            &&& s.op_mode_mgr.acc_threshold != t.op_mode_mgr.acc_threshold
                ==> p.name()@ == "op_mode.acc_threshold"@
            &&& s.op_mode_mgr.speed_upper_threshold != t.op_mode_mgr.speed_upper_threshold
                ==> p.name()@ == "op_mode.speed_upper_threshold"@
            &&& s.op_mode_mgr.speed_lower_threshold != t.op_mode_mgr.speed_lower_threshold
                ==> p.name()@ == "op_mode.speed_lower_threshold"@
            &&& s.op_mode_mgr.stable_check_duration != t.op_mode_mgr.stable_check_duration
                ==> p.name()@ == "op_mode.stable_check_duration"@
        }),
{
    assert(p != Param::VehicleCmdGateVelLim
        ==> a.value(Param::VehicleCmdGateVelLim)
        == b.value(Param::VehicleCmdGateVelLim));
    assert(p != Param::VehicleInfoWheelBase
        ==> a.value(Param::VehicleInfoWheelBase)
        == b.value(Param::VehicleInfoWheelBase));
    assert(p != Param::VehicleCmdGateStopHoldAccel
        ==> a.value(Param::VehicleCmdGateStopHoldAccel)
        == b.value(Param::VehicleCmdGateStopHoldAccel));
    assert(p != Param::VehicleCmdGateEmergencyAccel
        ==> a.value(Param::VehicleCmdGateEmergencyAccel)
        == b.value(Param::VehicleCmdGateEmergencyAccel));
    assert(p != Param::VehicleCmdGateHeartbeatTimeoutMs
        ==> a.value(Param::VehicleCmdGateHeartbeatTimeoutMs)
        == b.value(Param::VehicleCmdGateHeartbeatTimeoutMs));
    assert(p != Param::ShiftDeciderParkOnGoal
        ==> a.value(Param::ShiftDeciderParkOnGoal)
        == b.value(Param::ShiftDeciderParkOnGoal));
    assert(p != Param::OpModeAllowAutonomousInStopped
        ==> a.value(Param::OpModeAllowAutonomousInStopped)
        == b.value(Param::OpModeAllowAutonomousInStopped));
    assert(p != Param::OpModeStoppedVelocityThreshold
        ==> a.value(Param::OpModeStoppedVelocityThreshold)
        == b.value(Param::OpModeStoppedVelocityThreshold));
    assert(p != Param::OpModeEnableEngageOnDriving
        ==> a.value(Param::OpModeEnableEngageOnDriving)
        == b.value(Param::OpModeEnableEngageOnDriving));
    assert(p != Param::OpModeAccThreshold
        ==> a.value(Param::OpModeAccThreshold)
        == b.value(Param::OpModeAccThreshold));
    assert(p != Param::OpModeSpeedUpperThreshold
        ==> a.value(Param::OpModeSpeedUpperThreshold)
        == b.value(Param::OpModeSpeedUpperThreshold));
    assert(p != Param::OpModeSpeedLowerThreshold
        ==> a.value(Param::OpModeSpeedLowerThreshold)
        == b.value(Param::OpModeSpeedLowerThreshold));
    assert(p != Param::OpModeStableCheckDuration
        ==> a.value(Param::OpModeStableCheckDuration)
        == b.value(Param::OpModeStableCheckDuration));
}

/// A parameter that is set to another value changes no settings of
/// the validator but those that bear its name.
#[verifier::spinoff_prover]
#[verifier::rlimit(30)]
pub proof fn law_validator_settings_change_with_their_parameters(
    a: ParameterServer,
    b: ParameterServer,
    p: Param,
    controller: bool,
)
    requires
        forall|q: Param| q != p ==> #[trigger] a.value(q) == b.value(q),
    ensures
        ({
            let s = settings(a, controller);
            let t = settings(b, controller);
            &&& s.control_validator.accel.e_offset != t.control_validator.accel.e_offset
                ==> p.name()@ == "control_validator.acc_error_offset"@
            &&& s.control_validator.accel.e_scale != t.control_validator.accel.e_scale
                ==> p.name()@ == "control_validator.acc_error_scale"@
            &&& s.control_validator.accel.lpf_gain != t.control_validator.accel.lpf_gain
                ==> p.name()@ == "control_validator.acc_lpf_gain"@
            &&& s.control_validator.velocity.rolling_back_velocity_th != t.control_validator.velocity.rolling_back_velocity_th
                ==> p.name()@ == "control_validator.rolling_back_velocity"@
            &&& s.control_validator.velocity.over_velocity_ratio_th != t.control_validator.velocity.over_velocity_ratio_th
                ==> p.name()@ == "control_validator.over_velocity_ratio"@
            &&& s.control_validator.velocity.over_velocity_offset_th != t.control_validator.velocity.over_velocity_offset_th
                ==> p.name()@ == "control_validator.over_velocity_offset"@
            &&& s.control_validator.velocity.lpf_gain != t.control_validator.velocity.lpf_gain
                ==> p.name()@ == "control_validator.vel_lpf_gain"@
            &&& s.control_validator.jerk.lateral_jerk_threshold != t.control_validator.jerk.lateral_jerk_threshold
                ==> p.name()@ == "control_validator.lateral_jerk_threshold"@
            &&& s.control_validator.jerk.wheel_base != t.control_validator.jerk.wheel_base
                ==> p.name()@ == "vehicle_info.wheel_base"@
            &&& s.control_validator.jerk.lpf_gain != t.control_validator.jerk.lpf_gain
                ==> p.name()@ == "control_validator.jerk_lpf_gain"@
        }),
{
    assert(p != Param::ControlValidatorAccErrorOffset
        ==> a.value(Param::ControlValidatorAccErrorOffset)
        == b.value(Param::ControlValidatorAccErrorOffset));
    assert(p != Param::ControlValidatorAccErrorScale
        ==> a.value(Param::ControlValidatorAccErrorScale)
        == b.value(Param::ControlValidatorAccErrorScale));
    assert(p != Param::ControlValidatorAccLpfGain
        ==> a.value(Param::ControlValidatorAccLpfGain)
        == b.value(Param::ControlValidatorAccLpfGain));
    assert(p != Param::ControlValidatorRollingBackVelocity
        ==> a.value(Param::ControlValidatorRollingBackVelocity)
        == b.value(Param::ControlValidatorRollingBackVelocity));
    assert(p != Param::ControlValidatorOverVelocityRatio
        ==> a.value(Param::ControlValidatorOverVelocityRatio)
        == b.value(Param::ControlValidatorOverVelocityRatio));
    assert(p != Param::ControlValidatorOverVelocityOffset
        ==> a.value(Param::ControlValidatorOverVelocityOffset)
        == b.value(Param::ControlValidatorOverVelocityOffset));
    assert(p != Param::ControlValidatorVelLpfGain
        ==> a.value(Param::ControlValidatorVelLpfGain)
        == b.value(Param::ControlValidatorVelLpfGain));
    assert(p != Param::ControlValidatorLateralJerkThreshold
        ==> a.value(Param::ControlValidatorLateralJerkThreshold)
        == b.value(Param::ControlValidatorLateralJerkThreshold));
    assert(p != Param::VehicleInfoWheelBase
        ==> a.value(Param::VehicleInfoWheelBase)
        == b.value(Param::VehicleInfoWheelBase));
    assert(p != Param::ControlValidatorJerkLpfGain
        ==> a.value(Param::ControlValidatorJerkLpfGain)
        == b.value(Param::ControlValidatorJerkLpfGain));
}

/// A parameter that is set to another value changes no settings of
/// the lateral and of the longitudinal controller but those that bear its name.
#[verifier::spinoff_prover]
#[verifier::rlimit(30)]
pub proof fn law_tuning_changes_with_its_parameters(
    a: ParameterServer,
    b: ParameterServer,
    p: Param,
)
    requires
        forall|q: Param| q != p ==> #[trigger] a.value(q) == b.value(q),
    ensures
        ({
            let s = settings(a, true);
            let t = settings(b, true);
            let mpc = s.controller->0.node.lateral->0;
            let pid = s.controller->0.node.longitudinal->0;
            let other_mpc = t.controller->0.node.lateral->0;
            let other_pid = t.controller->0.node.longitudinal->0;
            &&& mpc.ctrl_period != other_mpc.ctrl_period ==> p.name()@ == "controller.ctrl_period"@
            &&& mpc.steering_lpf_gain != other_mpc.steering_lpf_gain
                ==> p.name()@ == "mpc.steering_lpf_gain"@
            &&& mpc.prediction_horizon != other_mpc.prediction_horizon
                ==> p.name()@ == "mpc.prediction_horizon"@
            &&& mpc.prediction_dt != other_mpc.prediction_dt ==> p.name()@ == "mpc.prediction_dt"@
            &&& mpc.steer_tau != other_mpc.steer_tau ==> p.name()@ == "mpc.steer_tau"@
            &&& mpc.input_delay != other_mpc.input_delay ==> p.name()@ == "mpc.input_delay"@
            &&& mpc.steer_rate_lim != other_mpc.steer_rate_lim
                ==> p.name()@ == "mpc.steer_rate_lim"@
            &&& pid.kp != other_pid.kp ==> p.name()@ == "pid.kp"@
            &&& pid.ki != other_pid.ki ==> p.name()@ == "pid.ki"@
            &&& pid.kd != other_pid.kd ==> p.name()@ == "pid.kd"@
            &&& pid.max_acc != other_pid.max_acc ==> p.name()@ == "pid.max_acc"@
            &&& pid.min_acc != other_pid.min_acc ==> p.name()@ == "pid.min_acc"@
            &&& pid.max_jerk != other_pid.max_jerk ==> p.name()@ == "pid.max_jerk"@
            &&& pid.min_jerk != other_pid.min_jerk ==> p.name()@ == "pid.min_jerk"@
            &&& pid.delay_compensation_time != other_pid.delay_compensation_time
                ==> p.name()@ == "pid.delay_compensation_time"@
            &&& pid.stopped_acc != other_pid.stopped_acc ==> p.name()@ == "pid.stopped_acc"@
            &&& pid.emergency_acc != other_pid.emergency_acc ==> p.name()@ == "pid.emergency_acc"@
        }),
{
    assert(p != Param::ControllerCtrlPeriod
        ==> a.value(Param::ControllerCtrlPeriod)
        == b.value(Param::ControllerCtrlPeriod));
    assert(p != Param::MpcSteeringLpfGain
        ==> a.value(Param::MpcSteeringLpfGain)
        == b.value(Param::MpcSteeringLpfGain));
    assert(p != Param::MpcPredictionHorizon
        ==> a.value(Param::MpcPredictionHorizon)
        == b.value(Param::MpcPredictionHorizon));
    assert(p != Param::MpcPredictionDt
        ==> a.value(Param::MpcPredictionDt)
        == b.value(Param::MpcPredictionDt));
    assert(p != Param::MpcSteerTau ==> a.value(Param::MpcSteerTau) == b.value(Param::MpcSteerTau));
    assert(p != Param::MpcInputDelay
        ==> a.value(Param::MpcInputDelay)
        == b.value(Param::MpcInputDelay));
    assert(p != Param::MpcSteerRateLim
        ==> a.value(Param::MpcSteerRateLim)
        == b.value(Param::MpcSteerRateLim));
    assert(p != Param::PidKp ==> a.value(Param::PidKp) == b.value(Param::PidKp));
    assert(p != Param::PidKi ==> a.value(Param::PidKi) == b.value(Param::PidKi));
    assert(p != Param::PidKd ==> a.value(Param::PidKd) == b.value(Param::PidKd));
    assert(p != Param::PidMaxAcc ==> a.value(Param::PidMaxAcc) == b.value(Param::PidMaxAcc));
    assert(p != Param::PidMinAcc ==> a.value(Param::PidMinAcc) == b.value(Param::PidMinAcc));
    assert(p != Param::PidMaxJerk ==> a.value(Param::PidMaxJerk) == b.value(Param::PidMaxJerk));
    assert(p != Param::PidMinJerk ==> a.value(Param::PidMinJerk) == b.value(Param::PidMinJerk));
    assert(p != Param::PidDelayCompensationTime
        ==> a.value(Param::PidDelayCompensationTime)
        == b.value(Param::PidDelayCompensationTime));
    assert(p != Param::PidStoppedAcc
        ==> a.value(Param::PidStoppedAcc)
        == b.value(Param::PidStoppedAcc));
    assert(p != Param::PidEmergencyAcc
        ==> a.value(Param::PidEmergencyAcc)
        == b.value(Param::PidEmergencyAcc));
}

/// A parameter that is set to another value changes no settings of
/// the trajectory follower and of the dimensions of the vehicle that it goes by but those that
/// bear its name.
#[verifier::spinoff_prover]
#[verifier::rlimit(30)]
pub proof fn law_vehicle_settings_change_with_their_parameters(
    a: ParameterServer,
    b: ParameterServer,
    p: Param,
)
    requires
        forall|q: Param| q != p ==> #[trigger] a.value(q) == b.value(q),
    ensures
        ({
            let s = settings(a, true);
            let t = settings(b, true);
            let vehicle = s.controller->0.vehicle_info;
            let node = s.controller->0.node;
            let other_vehicle = t.controller->0.vehicle_info;
            let other_node = t.controller->0.node;
            &&& node.ctrl_period != other_node.ctrl_period
                ==> p.name()@ == "controller.ctrl_period"@
            &&& node.ego_nearest_dist_threshold != other_node.ego_nearest_dist_threshold
                ==> p.name()@ == "controller.ego_nearest_dist_threshold"@
            &&& node.ego_nearest_yaw_threshold != other_node.ego_nearest_yaw_threshold
                ==> p.name()@ == "controller.ego_nearest_yaw_threshold"@
            &&& vehicle.wheel_radius != other_vehicle.wheel_radius
                ==> p.name()@ == "vehicle_info.wheel_radius"@
            &&& vehicle.wheel_width != other_vehicle.wheel_width
                ==> p.name()@ == "vehicle_info.wheel_width"@
            &&& vehicle.wheel_base != other_vehicle.wheel_base
                ==> p.name()@ == "vehicle_info.wheel_base"@
            &&& vehicle.wheel_tread != other_vehicle.wheel_tread
                ==> p.name()@ == "vehicle_info.wheel_tread"@
            &&& vehicle.front_overhang != other_vehicle.front_overhang
                ==> p.name()@ == "vehicle_info.front_overhang"@
            &&& vehicle.rear_overhang != other_vehicle.rear_overhang
                ==> p.name()@ == "vehicle_info.rear_overhang"@
            &&& vehicle.left_overhang != other_vehicle.left_overhang
                ==> p.name()@ == "vehicle_info.left_overhang"@
            &&& vehicle.right_overhang != other_vehicle.right_overhang
                ==> p.name()@ == "vehicle_info.right_overhang"@
            &&& vehicle.vehicle_height != other_vehicle.vehicle_height
                ==> p.name()@ == "vehicle_info.vehicle_height"@
            &&& vehicle.max_steer_angle != other_vehicle.max_steer_angle
                ==> p.name()@ == "vehicle_info.max_steer_angle"@
        }),
{
    assert(p != Param::ControllerCtrlPeriod
        ==> a.value(Param::ControllerCtrlPeriod)
        == b.value(Param::ControllerCtrlPeriod));
    assert(p != Param::ControllerEgoNearestDistThreshold
        ==> a.value(Param::ControllerEgoNearestDistThreshold)
        == b.value(Param::ControllerEgoNearestDistThreshold));
    assert(p != Param::ControllerEgoNearestYawThreshold
        ==> a.value(Param::ControllerEgoNearestYawThreshold)
        == b.value(Param::ControllerEgoNearestYawThreshold));
    assert(p != Param::VehicleInfoWheelRadius
        ==> a.value(Param::VehicleInfoWheelRadius)
        == b.value(Param::VehicleInfoWheelRadius));
    assert(p != Param::VehicleInfoWheelWidth
        ==> a.value(Param::VehicleInfoWheelWidth)
        == b.value(Param::VehicleInfoWheelWidth));
    assert(p != Param::VehicleInfoWheelBase
        ==> a.value(Param::VehicleInfoWheelBase)
        == b.value(Param::VehicleInfoWheelBase));
    assert(p != Param::VehicleInfoWheelTread
        ==> a.value(Param::VehicleInfoWheelTread)
        == b.value(Param::VehicleInfoWheelTread));
    assert(p != Param::VehicleInfoFrontOverhang
        ==> a.value(Param::VehicleInfoFrontOverhang)
        == b.value(Param::VehicleInfoFrontOverhang));
    assert(p != Param::VehicleInfoRearOverhang
        ==> a.value(Param::VehicleInfoRearOverhang)
        == b.value(Param::VehicleInfoRearOverhang));
    assert(p != Param::VehicleInfoLeftOverhang
        ==> a.value(Param::VehicleInfoLeftOverhang)
        == b.value(Param::VehicleInfoLeftOverhang));
    assert(p != Param::VehicleInfoRightOverhang
        ==> a.value(Param::VehicleInfoRightOverhang)
        == b.value(Param::VehicleInfoRightOverhang));
    assert(p != Param::VehicleInfoVehicleHeight
        ==> a.value(Param::VehicleInfoVehicleHeight)
        == b.value(Param::VehicleInfoVehicleHeight));
    assert(p != Param::VehicleInfoMaxSteerAngle
        ==> a.value(Param::VehicleInfoMaxSteerAngle)
        == b.value(Param::VehicleInfoMaxSteerAngle));
}

/// Declaring the parameters on a server without any gives each its default, under its own
/// name. Those of the trajectory follower are left out unless it is part of the build.
#[verifier::spinoff_prover]
#[verifier::rlimit(60)]
pub proof fn law_declared_parameters_have_their_defaults(server: ParameterServer, controller: bool)
    requires
        forall|p: Param| #[trigger]
            server.value(p) == (if p.is_declared(controller) {
                Some(p.default_value())
            } else {
                None
            }),
    ensures
        server.named("stop_filter.vx_threshold"@) == Some(ParamValue::Double(Real::plus(1, 1))),
        server.named("stop_filter.wz_threshold"@) == Some(ParamValue::Double(Real::plus(2, 2))),
        server.named("velocity_converter.speed_scale_factor"@) == Some(ParamValue::Double(Real::plus(1, 0))),
        server.named("velocity_converter.stddev_vx"@) == Some(ParamValue::Double(Real::plus(2, 1))),
        server.named("velocity_converter.stddev_wz"@) == Some(ParamValue::Double(Real::plus(1, 1))),
        server.named("twist2accel.accel_lowpass_gain"@) == Some(ParamValue::Double(Real::plus(9, 1))),
        server.named("heartbeat.timeout_ms"@) == Some(ParamValue::Integer(60000)),
        server.named("mrm_emergency_stop.target_acceleration"@) == Some(ParamValue::Double(Real::minus(25, 1))),
        server.named("mrm_emergency_stop.target_jerk"@) == Some(ParamValue::Double(Real::minus(15, 1))),
        server.named("mrm_comfortable_stop.min_acceleration"@) == Some(ParamValue::Double(Real::minus(1, 0))),
        server.named("mrm_comfortable_stop.min_jerk"@) == Some(ParamValue::Double(Real::minus(3, 1))),
        server.named("mrm_handler.stopped_velocity_threshold"@) == Some(ParamValue::Double(Real::plus(1, 3))),
        server.named("shift_decider.park_on_goal"@) == Some(ParamValue::Bool(true)),
        server.named("vehicle_cmd_gate.heartbeat_timeout_ms"@) == Some(ParamValue::Integer(5000)),
        server.named("vehicle_cmd_gate.stop_hold_accel"@) == Some(ParamValue::Double(Real::minus(15, 1))),
        server.named("vehicle_cmd_gate.emergency_accel"@) == Some(ParamValue::Double(Real::minus(24, 1))),
        server.named("vehicle_cmd_gate.vel_lim"@) == Some(ParamValue::Double(Real::plus(25, 0))),
        server.named("control_validator.acc_error_offset"@) == Some(ParamValue::Double(Real::plus(8, 1))),
        server.named("control_validator.acc_error_scale"@) == Some(ParamValue::Double(Real::plus(2, 1))),
        server.named("control_validator.acc_lpf_gain"@) == Some(ParamValue::Double(Real::plus(97, 2))),
        server.named("control_validator.rolling_back_velocity"@) == Some(ParamValue::Double(Real::plus(5, 1))),
        server.named("control_validator.over_velocity_ratio"@) == Some(ParamValue::Double(Real::plus(2, 1))),
        server.named("control_validator.over_velocity_offset"@) == Some(ParamValue::Double(Real::plus(2, 0))),
        server.named("control_validator.vel_lpf_gain"@) == Some(ParamValue::Double(Real::plus(9, 1))),
        server.named("control_validator.lateral_jerk_threshold"@) == Some(ParamValue::Double(Real::plus(10, 0))),
        server.named("control_validator.jerk_lpf_gain"@) == Some(ParamValue::Double(Real::plus(8, 1))),
        server.named("op_mode.allow_autonomous_in_stopped"@) == Some(ParamValue::Bool(true)),
        server.named("op_mode.stopped_velocity_threshold"@) == Some(ParamValue::Double(Real::plus(1, 2))),
        server.named("op_mode.enable_engage_on_driving"@) == Some(ParamValue::Bool(false)),
        server.named("op_mode.acc_threshold"@) == Some(ParamValue::Double(Real::plus(15, 1))),
        server.named("op_mode.speed_upper_threshold"@) == Some(ParamValue::Double(Real::plus(10, 0))),
        server.named("op_mode.speed_lower_threshold"@) == Some(ParamValue::Double(Real::minus(10, 0))),
        server.named("op_mode.stable_check_duration"@) == Some(ParamValue::Double(Real::plus(1, 1))),
        server.named("vehicle_info.wheel_base"@) == Some(ParamValue::Double(Real::plus(279, 2))),
        server.named("vehicle_info.max_steer_angle"@) == Some(ParamValue::Double(Real::plus(7, 1))),
        server.named("vehicle_info.wheel_radius"@) == Some(ParamValue::Double(Real::plus(383, 3))),
        server.named("vehicle_info.wheel_width"@) == Some(ParamValue::Double(Real::plus(235, 3))),
        server.named("vehicle_info.wheel_tread"@) == Some(ParamValue::Double(Real::plus(164, 2))),
        server.named("vehicle_info.front_overhang"@) == Some(ParamValue::Double(Real::plus(1, 0))),
        server.named("vehicle_info.rear_overhang"@) == Some(ParamValue::Double(Real::plus(11, 1))),
        server.named("vehicle_info.left_overhang"@) == Some(ParamValue::Double(Real::plus(128, 3))),
        server.named("vehicle_info.right_overhang"@) == Some(ParamValue::Double(Real::plus(128, 3))),
        server.named("vehicle_info.vehicle_height"@) == Some(ParamValue::Double(Real::plus(25, 1))),
        server.named("controller.ctrl_period"@) == (if controller {
            Some(ParamValue::Double(Real::plus(33, 3)))
        } else {
            None
        }),
        server.named("controller.ego_nearest_dist_threshold"@) == (if controller {
            Some(ParamValue::Double(Real::plus(3, 0)))
        } else {
            None
        }),
        server.named("controller.ego_nearest_yaw_threshold"@) == (if controller {
            Some(ParamValue::Double(Real::plus(157, 2)))
        } else {
            None
        }),
        server.named("pid.kp"@) == (if controller {
            Some(ParamValue::Double(Real::plus(1, 0)))
        } else {
            None
        }),
        server.named("pid.ki"@) == (if controller {
            Some(ParamValue::Double(Real::plus(1, 1)))
        } else {
            None
        }),
        server.named("pid.kd"@) == (if controller {
            Some(ParamValue::Double(Real::plus(0, 0)))
        } else {
            None
        }),
        server.named("pid.max_acc"@) == (if controller {
            Some(ParamValue::Double(Real::plus(3, 0)))
        } else {
            None
        }),
        server.named("pid.min_acc"@) == (if controller {
            Some(ParamValue::Double(Real::minus(5, 0)))
        } else {
            None
        }),
        server.named("pid.max_jerk"@) == (if controller {
            Some(ParamValue::Double(Real::plus(2, 0)))
        } else {
            None
        }),
        server.named("pid.min_jerk"@) == (if controller {
            Some(ParamValue::Double(Real::minus(5, 0)))
        } else {
            None
        }),
        server.named("pid.delay_compensation_time"@) == (if controller {
            Some(ParamValue::Double(Real::plus(17, 2)))
        } else {
            None
        }),
        server.named("pid.stopped_acc"@) == (if controller {
            Some(ParamValue::Double(Real::minus(34, 1)))
        } else {
            None
        }),
        server.named("pid.emergency_acc"@) == (if controller {
            Some(ParamValue::Double(Real::minus(5, 0)))
        } else {
            None
        }),
        server.named("mpc.prediction_horizon"@) == (if controller {
            Some(ParamValue::Integer(50))
        } else {
            None
        }),
        server.named("mpc.prediction_dt"@) == (if controller {
            Some(ParamValue::Double(Real::plus(1, 1)))
        } else {
            None
        }),
        server.named("mpc.steer_tau"@) == (if controller {
            Some(ParamValue::Double(Real::plus(27, 2)))
        } else {
            None
        }),
        server.named("mpc.steering_lpf_gain"@) == (if controller {
            Some(ParamValue::Double(Real::plus(8, 1)))
        } else {
            None
        }),
        server.named("mpc.input_delay"@) == (if controller {
            Some(ParamValue::Double(Real::plus(0, 0)))
        } else {
            None
        }),
        server.named("mpc.steer_rate_lim"@) == (if controller {
            Some(ParamValue::Double(Real::plus(17321, 4)))
        } else {
            None
        }),
{
    law_param_is_found_by_name(Param::StopFilterVxThreshold);
    law_param_is_found_by_name(Param::StopFilterWzThreshold);
    law_param_is_found_by_name(Param::VelocityConverterSpeedScaleFactor);
    law_param_is_found_by_name(Param::VelocityConverterStddevVx);
    law_param_is_found_by_name(Param::VelocityConverterStddevWz);
    law_param_is_found_by_name(Param::Twist2accelAccelLowpassGain);
    law_param_is_found_by_name(Param::HeartbeatTimeoutMs);
    law_param_is_found_by_name(Param::MrmEmergencyStopTargetAcceleration);
    law_param_is_found_by_name(Param::MrmEmergencyStopTargetJerk);
    law_param_is_found_by_name(Param::MrmComfortableStopMinAcceleration);
    law_param_is_found_by_name(Param::MrmComfortableStopMinJerk);
    law_param_is_found_by_name(Param::MrmHandlerStoppedVelocityThreshold);
    law_param_is_found_by_name(Param::ShiftDeciderParkOnGoal);
    law_param_is_found_by_name(Param::VehicleCmdGateHeartbeatTimeoutMs);
    law_param_is_found_by_name(Param::VehicleCmdGateStopHoldAccel);
    law_param_is_found_by_name(Param::VehicleCmdGateEmergencyAccel);
    law_param_is_found_by_name(Param::VehicleCmdGateVelLim);
    law_param_is_found_by_name(Param::ControlValidatorAccErrorOffset);
    law_param_is_found_by_name(Param::ControlValidatorAccErrorScale);
    law_param_is_found_by_name(Param::ControlValidatorAccLpfGain);
    law_param_is_found_by_name(Param::ControlValidatorRollingBackVelocity);
    law_param_is_found_by_name(Param::ControlValidatorOverVelocityRatio);
    law_param_is_found_by_name(Param::ControlValidatorOverVelocityOffset);
    law_param_is_found_by_name(Param::ControlValidatorVelLpfGain);
    law_param_is_found_by_name(Param::ControlValidatorLateralJerkThreshold);
    law_param_is_found_by_name(Param::ControlValidatorJerkLpfGain);
    law_param_is_found_by_name(Param::OpModeAllowAutonomousInStopped);
    law_param_is_found_by_name(Param::OpModeStoppedVelocityThreshold);
    law_param_is_found_by_name(Param::OpModeEnableEngageOnDriving);
    law_param_is_found_by_name(Param::OpModeAccThreshold);
    law_param_is_found_by_name(Param::OpModeSpeedUpperThreshold);
    law_param_is_found_by_name(Param::OpModeSpeedLowerThreshold);
    law_param_is_found_by_name(Param::OpModeStableCheckDuration);
    law_param_is_found_by_name(Param::VehicleInfoWheelBase);
    law_param_is_found_by_name(Param::VehicleInfoMaxSteerAngle);
    law_param_is_found_by_name(Param::VehicleInfoWheelRadius);
    law_param_is_found_by_name(Param::VehicleInfoWheelWidth);
    law_param_is_found_by_name(Param::VehicleInfoWheelTread);
    law_param_is_found_by_name(Param::VehicleInfoFrontOverhang);
    law_param_is_found_by_name(Param::VehicleInfoRearOverhang);
    law_param_is_found_by_name(Param::VehicleInfoLeftOverhang);
    law_param_is_found_by_name(Param::VehicleInfoRightOverhang);
    law_param_is_found_by_name(Param::VehicleInfoVehicleHeight);
    law_param_is_found_by_name(Param::ControllerCtrlPeriod);
    law_param_is_found_by_name(Param::ControllerEgoNearestDistThreshold);
    law_param_is_found_by_name(Param::ControllerEgoNearestYawThreshold);
    law_param_is_found_by_name(Param::PidKp);
    law_param_is_found_by_name(Param::PidKi);
    law_param_is_found_by_name(Param::PidKd);
    law_param_is_found_by_name(Param::PidMaxAcc);
    law_param_is_found_by_name(Param::PidMinAcc);
    law_param_is_found_by_name(Param::PidMaxJerk);
    law_param_is_found_by_name(Param::PidMinJerk);
    law_param_is_found_by_name(Param::PidDelayCompensationTime);
    law_param_is_found_by_name(Param::PidStoppedAcc);
    law_param_is_found_by_name(Param::PidEmergencyAcc);
    law_param_is_found_by_name(Param::MpcPredictionHorizon);
    law_param_is_found_by_name(Param::MpcPredictionDt);
    law_param_is_found_by_name(Param::MpcSteerTau);
    law_param_is_found_by_name(Param::MpcSteeringLpfGain);
    law_param_is_found_by_name(Param::MpcInputDelay);
    law_param_is_found_by_name(Param::MpcSteerRateLim);
}

/// Setting a parameter that is not bound to be read only gives it that value; whatever is set,
/// no other parameter changes, and none becomes bound or free by it.
pub proof fn law_set_parameter_holds_its_value(
    before: ParameterServer,
    p: Param,
    value: ParamValue,
    after: ParameterServer,
    q: Param,
)
    requires
        before.attempt(p, value, &after),
    ensures
        !before.is_read_only(p) ==> after.value(p) == Some(value),
        before.is_read_only(p) ==> after.value(p) == before.value(p),
        q != p ==> after.value(q) == before.value(q),
        after.is_read_only(q) == before.is_read_only(q),
{
}

/// A server suffices for the settings as soon as every declared parameter has a value of the
/// type of its default, whatever the value.
pub proof fn law_declared_parameters_suffice(server: ParameterServer, controller: bool)
    requires
        forall|p: Param|
            p.is_declared(controller) ==> ((#[trigger] server.value(p)) matches Some(value) && (
            value is Double <==> p.default_value() is Double) && (value is Integer
                <==> p.default_value() is Integer)),
    ensures
        server.complete(controller),
{
}

/// A server that lacks a parameter on which the settings depend, or holds a value of another
/// type for it, does not suffice.
pub proof fn law_missing_parameter_is_missed(server: ParameterServer, controller: bool, p: Param)
    requires
        server.value(p) is None || server.value(p)->0 is Double != p.default_value() is Double
            || server.value(p)->0 is Integer != p.default_value() is Integer,
        controller || p.index() < 34,
    ensures
        !server.complete(controller),
{
    assert(!server.holds(p));
}

/// Once the parameters have been declared on a server without any, it has 62 of them with the
/// trajectory follower and 43 without; before it has none.
pub proof fn law_number_of_parameters(server: ParameterServer, controller: bool)
    ensures
        (forall|p: Param| (#[trigger] server.value(p)) is Some <==> p.is_declared(controller))
            ==> server.declared_among(62) == if controller {
            62nat
        } else {
            43nat
        },
        (forall|p: Param| (#[trigger] server.value(p)) is None) ==> server.declared_among(62) == 0,
{
    if forall|p: Param| (#[trigger] server.value(p)) is Some <==> p.is_declared(controller) {
        lemma_declared_among(
            server,
            if controller {
                62
            } else {
                43
            },
            62,
        );
    }
    if forall|p: Param| (#[trigger] server.value(p)) is None {
        lemma_declared_among(server, 0, 62);
    }
}

proof fn lemma_declared_among(server: ParameterServer, first: nat, n: nat)
    requires
        n <= PARAM_COUNT,
        forall|p: Param| (#[trigger] server.value(p)) is Some <==> p.index() < first,
    ensures
        server.declared_among(n) == if n <= first {
            n
        } else {
            first
        },
    decreases n,
{
    if n > 0 {
        lemma_declared_among(server, first, (n - 1) as nat);
        lemma_listed_params(n - 1);
    }
}

/// Declaring binds every parameter of the build to be read only, under its default, and no
/// other; parameters that are not of the build stay as they were. The settings that follow are
/// those of a build without a parameter server, but for the tuning of the two controllers of
/// the trajectory follower.
pub proof fn law_declaring_gives_the_defaults(
    before: ParameterServer,
    after: ParameterServer,
    controller: bool,
    p: Param,
)
    requires
        declares(before, controller, after),
    ensures
        p.index() < 43 || controller ==> after.value(p) == Some(p.default_value())
            && after.is_read_only(p),
        p.index() >= 43 && !controller ==> after.value(p) == before.value(p)
            && after.is_read_only(p) == before.is_read_only(p),
        after.complete(controller),
        without_controller_tuning(settings(after, controller)) == default_settings(controller),
{
    law_declared_defaults_are_the_default_params(after, controller);
}

} // verus!
