use autoware_sentinel::capacity::{Level, LogLine, NodeError};
use autoware_sentinel::chain::ChainOutputs;
use autoware_sentinel::endpoints::{Component, Features, Service, Source, Topic};
use autoware_sentinel::publish::publications;
use autoware_sentinel::wiring::{
    services, sources, topics, wire_executor, wiring_census, SENTINEL_NODE,
};

fn bare() -> Features {
    Features::core_only()
}

#[test]
fn publishers_of_each_component() {
    assert_eq!(topics(&bare()).len(), 6);
    assert_eq!(topics(&Features { mrm: true, ..bare() }).len(), 13);
    assert_eq!(topics(&Features { command_gate: true, ..bare() }).len(), 19);
    assert_eq!(topics(&Features { validator: true, ..bare() }).len(), 10);
    assert_eq!(topics(&Features { operation_mode: true, ..bare() }).len(), 9);
    assert_eq!(topics(&Features { engagement: true, ..bare() }).len(), 10);
    assert_eq!(topics(&Features { stubs: true, ..bare() }).len(), 6);
    assert_eq!(topics(&Features { controller: true, ..bare() }).len(), 6);
    assert_eq!(topics(&Features::embedded()).len(), 37);
    assert_eq!(topics(&Features::full()).len(), 51);
}

#[test]
fn core_declares_three_subscriptions_and_one_service() {
    assert_eq!(
        sources(&bare()),
        vec![Source::VelocityStatus, Source::Heartbeat, Source::FollowerControl]
    );
    assert_eq!(services(&bare()), vec![Service::ChangeToAutonomous]);
    assert_eq!(
        topics(&bare()),
        vec![
            Topic::MrmState,
            Topic::HazardLightsCmd,
            Topic::GearCmd,
            Topic::ControlCmd,
            Topic::TurnIndicatorsCmd,
            Topic::ApiOperationMode,
        ]
    );
}

#[test]
fn embedded_build_needs_twenty_eight_slots() {
    let f = Features::embedded();
    assert_eq!(sources(&f).len(), 5);
    assert_eq!(services(&f).len(), 22);
    let census = wiring_census(&f, 1);
    assert_eq!(census.callbacks(), 28);
    assert_eq!(census.liveliness_tokens(), 65);
    assert!(census.is_countable());
}

#[test]
fn full_build_has_eighty_three_entities() {
    let f = Features::full();
    assert_eq!(sources(&f).len(), 9);
    assert_eq!(services(&f).len(), 22);
    assert_eq!(topics(&f).len() + sources(&f).len() + services(&f).len() + 1, 83);
}

#[test]
fn wiring_declares_what_the_build_has() {
    let mut log: Vec<LogLine> = Vec::new();
    let f = Features::embedded();
    let w = wire_executor(&f, &[SENTINEL_NODE], 32, &mut log).unwrap();
    assert_eq!(w.nodes, vec!["sentinel"]);
    assert_eq!(w.publishers, topics(&f));
    assert_eq!(w.subscriptions, sources(&f));
    assert_eq!(w.services, services(&f));
    assert_eq!(w.timer_period_ms, 33);
    assert_eq!(log.len(), 5);
    assert!(log.iter().all(|line| line.level == Level::Warn));
}

#[test]
fn nothing_is_wired_on_a_too_small_executor() {
    let mut log: Vec<LogLine> = Vec::new();
    let r = wire_executor(&Features::embedded(), &[SENTINEL_NODE], 22, &mut log);
    assert!(matches!(r, Err(NodeError::ExecutorFull)));
    assert_eq!(log.len(), 7);
    assert_eq!(
        log[0].text,
        "capacity: NROS_EXECUTOR_MAX_CBS needs 28 but this binary compiled 22 — set \
         NROS_EXECUTOR_MAX_CBS=28 and REBUILD (a stale arena also SEGVs; clean build after \
         resizing)"
    );
    assert_eq!(
        log[6].text,
        "capacity: refusing to wire 1 nodes / 28 callbacks / 37 publishers against a too-small \
         executor — phase 15.3 pre-wiring check"
    );
}

#[test]
fn nodes_share_what_the_build_declares() {
    let names: [&'static str; 13] =
        ["a", "b", "c", "d", "e", "f", "g", "h", "i", "j", "k", "l", "m"];
    let mut log: Vec<LogLine> = Vec::new();
    let f = Features::full();
    let w = wire_executor(&f, &names, 38, &mut log).unwrap();
    assert_eq!(w.nodes, names.to_vec());
    assert_eq!(w.publishers.len(), 51);
    assert!(log[0].text.contains("NROS_EXECUTOR_MAX_NODES must be >= 13 "));
    assert!(log[4].text.contains("CONFIG_NROS_MAX_LIVELINESS must be >= 101 "));
}

#[test]
fn each_declared_topic_is_published_once() {
    for f in [
        bare(),
        Features { monitoring: true, ..bare() },
        Features::embedded(),
        Features::full(),
    ] {
        let published: Vec<Topic> =
            publications(&f, &ChainOutputs::unset()).iter().map(|p| p.topic).collect();
        let declared = topics(&f);
        assert_eq!(published.len(), declared.len());
        for t in declared {
            assert_eq!(published.iter().filter(|p| **p == t).count(), 1);
            assert!(f.has(t.component()));
        }
    }
}

#[test]
fn topic_names_are_unique() {
    let all = topics(&Features::full());
    for (i, a) in all.iter().enumerate() {
        for b in &all[i + 1..] {
            assert_ne!(a.name(), b.name());
        }
    }
}

#[test]
fn names_of_endpoints() {
    assert_eq!(Topic::ControlCmd.name(), "/control/command/control_cmd");
    assert_eq!(Source::FollowerControl.name(), "/control/trajectory_follower/control_cmd");
    assert_eq!(Source::AutowareState.name(), Topic::AutowareState.name());
    assert_eq!(Topic::AutowareState.component(), Component::Engagement);
    assert_eq!(Source::GearStatus.component(), Component::CommandGate);
}
