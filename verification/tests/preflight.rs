use autoware_sentinel::preflight::{
    enforce, external_paths_self_contained, planning_simulator, report_skips,
    rmw_zenoh_overlay_ok, skips_allowed, transport, transport_strict, Check, Clearance, Resolution,
    SimulatorProbes, TransportProbes,
};

const PRESENT: TransportProbes = TransportProbes {
    ros2: true,
    overlay: true,
    self_contained: true,
    autoware_msgs: true,
    router: true,
};

/// The overlay check must reject a path that exists but is empty.
#[test]
fn overlay_check_rejects_hollow_install() {
    for setup in [false, true] {
        for library in [false, true] {
            for answers in [false, true] {
                let (ok, why) = rmw_zenoh_overlay_ok(setup, library, answers);
                assert_eq!(ok, setup && library && answers);
                if !ok {
                    assert!(why.is_some(), "a failing overlay check must say why");
                }
            }
        }
    }
    assert_eq!(
        rmw_zenoh_overlay_ok(true, false, true),
        (false, Some("librmw_zenoh_cpp.so missing from overlay"))
    );
}

#[test]
fn overlay_check_gives_the_first_reason() {
    assert_eq!(rmw_zenoh_overlay_ok(false, false, false), (false, Some("overlay not built")));
    assert_eq!(
        rmw_zenoh_overlay_ok(true, true, false),
        (false, Some("overlay present but `ros2 pkg list` does not see rmw_zenoh_cpp"))
    );
    assert_eq!(rmw_zenoh_overlay_ok(true, true, true), (true, None));
}

#[test]
fn transport_prerequisites_present() {
    assert_eq!(transport(PRESENT, false), Clearance::Granted);
}

#[test]
fn planning_simulator_prerequisites_present() {
    let simulator = SimulatorProbes { play_launch: true, map: true };
    assert_eq!(planning_simulator(PRESENT, simulator, false), Clearance::Granted);
}

#[test]
fn skipping_has_to_be_asked_for() {
    assert!(!skips_allowed(None));
    assert!(!skips_allowed(Some("")));
    assert!(!skips_allowed(Some("0")));
    assert!(skips_allowed(Some("1")));
    assert!(skips_allowed(Some("00")));
    assert!(skips_allowed(Some("no")));
}

#[test]
fn missing_prerequisite_fails_with_its_remedy() {
    let found = TransportProbes { ros2: false, router: false, ..PRESENT };
    let text = "preflight: missing prerequisites\n  - ROS 2 (humble)\n      fix: install ROS 2 \
                humble at /opt/ros/humble\n  - zenoh router binary\n      fix: build zenohd, or \
                set SENTINEL_ZENOHD to a working binary (the overlay's rmw_zenohd also works)\n";
    assert_eq!(
        transport(found, false),
        Clearance::Refused(format!(
            "{text}\n  This is an ERROR, not a skip: a test that cannot reach its\n  subject must \
             not report success (phase 15.1).\n  Set SENTINEL_ALLOW_SKIP=1 to skip instead — CI \
             never does."
        ))
    );
    assert_eq!(
        transport(found, true),
        Clearance::Skipped(format!(
            "{text}  (SENTINEL_ALLOW_SKIP set — skipping this test)"
        ))
    );
}

#[test]
fn fixtures_are_never_skipped() {
    let found = TransportProbes { overlay: false, ..PRESENT };
    assert!(matches!(transport_strict(found), Clearance::Refused(_)));
    assert_eq!(transport_strict(PRESENT), Clearance::Granted);
}

#[test]
fn simulator_tests_need_transport_first() {
    let bare = SimulatorProbes { play_launch: false, map: false };
    let found = TransportProbes { autoware_msgs: false, ..PRESENT };
    assert_eq!(planning_simulator(found, bare, true), transport(found, true));
    let Clearance::Skipped(notice) = planning_simulator(PRESENT, bare, true) else {
        panic!("expected a skip");
    };
    assert_eq!(
        notice,
        "preflight: missing prerequisites\n  - play_launch\n      fix: pip install --user \
         play_launch, or set $PLAY_LAUNCH (the `resolve` verb needs the source build)\n  - \
         Autoware map data\n      fix: set $MAP_PATH, or install autoware_test_utils\n  \
         (SENTINEL_ALLOW_SKIP set — skipping this test)"
    );
}

#[test]
fn no_checks_means_nothing_is_missing() {
    assert_eq!(enforce(&[], false), Clearance::Granted);
    let ok = Check { name: "a", ok: true, remedy: "b" };
    assert_eq!(enforce(&[ok, ok], true), Clearance::Granted);
}

#[test]
fn skips_are_reported() {
    assert_eq!(report_skips(0), None);
    assert_eq!(
        report_skips(12),
        Some("preflight: 12 test(s) SKIPPED for missing prerequisites — not passes".to_string())
    );
}

#[test]
fn artifacts_outside_the_repository_are_found() {
    assert!(external_paths_self_contained(None));
    assert!(external_paths_self_contained(Some(&[])));
    assert!(external_paths_self_contained(Some(&[Resolution::Inside, Resolution::Unknown])));
    assert!(!external_paths_self_contained(Some(&[Resolution::Inside, Resolution::Outside])));
}
