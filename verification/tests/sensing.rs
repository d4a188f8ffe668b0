use autoware_sentinel::island::{Interval, SafetyIsland, SensedAcceleration};
use autoware_sentinel::messages::{Motion, Time, Vector3};
use autoware_sentinel::number::Real;
use autoware_sentinel::params::default_params;
use autoware_sentinel::sensing::{FilteredMotion, SensingAction, SensingEvent, SensingPhase};

fn num(x: f64) -> Real {
    Real::Double(x.to_bits())
}

fn island() -> SafetyIsland {
    SafetyIsland::new(default_params(false), 3).0
}

fn motion(x: f64, wz: f64) -> Motion {
    Motion {
        linear: Vector3 { x: num(x), ..Vector3::unset() },
        angular: Vector3 { z: num(wz), ..Vector3::unset() },
    }
}

fn estimate(x: f64) -> SensedAcceleration {
    SensedAcceleration { accel: motion(x, 0.0), covariance: [num(x); 36] }
}

/// Takes a report through all algorithms and gives what was done.
fn report(
    i: &mut SafetyIsland,
    stamp: Time,
    converted: Motion,
    filtered: FilteredMotion,
    accel: Option<SensedAcceleration>,
) -> Vec<SensingAction> {
    vec![
        i.sense(SensingEvent::Reported { stamp }),
        i.sense(SensingEvent::Converted(converted)),
        i.sense(SensingEvent::Filtered(filtered)),
        i.sense(SensingEvent::Differentiated(accel)),
    ]
}

#[test]
fn each_algorithm_gets_what_the_one_before_gave() {
    let mut i = island();
    let converted = motion(2.0, 0.5);
    let filtered = FilteredMotion { twist: motion(1.5, 0.25), was_stopped: false };
    let done = report(
        &mut i,
        Time { sec: 10, nanosec: 900_000_000 },
        converted,
        filtered,
        Some(estimate(0.75)),
    );
    assert_eq!(
        done,
        vec![
            SensingAction::Convert,
            SensingAction::Filter { linear: converted.linear, angular: converted.angular },
            SensingAction::Differentiate {
                twist: filtered.twist,
                interval: Interval { seconds: 0, nanoseconds: 0 },
            },
            SensingAction::Done,
        ]
    );
    assert_eq!(i.twist, filtered.twist);
    assert_eq!(i.current_velocity, num(1.5));
    assert!(!i.is_stopped);
    assert_eq!(i.accel, motion(0.75, 0.0));
    assert_eq!(i.accel_covariance, [num(0.75); 36]);
    assert_eq!(i.prev_stamp, Some(Time { sec: 10, nanosec: 900_000_000 }));
    assert_eq!(i.sensing, SensingPhase::Idle);
}

#[test]
fn acceleration_is_derived_over_the_time_between_two_reports() {
    let mut i = island();
    let moving = FilteredMotion { twist: motion(1.5, 0.0), was_stopped: false };
    let standing = FilteredMotion { twist: motion(0.0, 0.0), was_stopped: true };
    let first = Time { sec: 10, nanosec: 900_000_000 };
    let second = Time { sec: 11, nanosec: 100_000_000 };
    report(&mut i, first, motion(1.5, 0.0), moving, Some(estimate(0.75)));
    let done = report(&mut i, second, motion(0.01, 0.0), standing, None);
    // A fifth of a second.
    assert_eq!(
        done[2],
        SensingAction::Differentiate {
            twist: standing.twist,
            interval: Interval { seconds: 1, nanoseconds: -800_000_000 },
        }
    );
    assert!(i.is_stopped);
    assert_eq!(i.current_velocity, num(0.0));
    assert_eq!(i.accel, motion(0.75, 0.0));
    assert_eq!(i.accel_covariance, [num(0.75); 36]);
}

#[test]
fn sensing_ignores_events_that_it_does_not_wait_for() {
    let mut i = island();
    assert_eq!(i.sensing, SensingPhase::Idle);
    assert_eq!(i.sense(SensingEvent::Converted(motion(9.0, 0.0))), SensingAction::Nothing);
    assert_eq!(i.sense(SensingEvent::Differentiated(None)), SensingAction::Nothing);
    assert_eq!(i.sensing, SensingPhase::Idle);
    let stamp = Time { sec: 1, nanosec: 2 };
    assert_eq!(i.sense(SensingEvent::Reported { stamp }), SensingAction::Convert);
    assert_eq!(
        i.sense(SensingEvent::Reported { stamp: Time { sec: 5, nanosec: 0 } }),
        SensingAction::Nothing
    );
    let interval = Interval { seconds: 0, nanoseconds: 0 };
    assert_eq!(i.sensing, SensingPhase::Conversion { stamp, interval });
    assert_eq!(i.prev_stamp, None);
    assert_eq!(i.current_velocity, Real::zero());
}
