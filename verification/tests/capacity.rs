use autoware_sentinel::capacity::{check, Census, Level, LogLine, NodeError};
use autoware_sentinel::endpoints::Features;
use autoware_sentinel::wiring::wiring_census;

#[test]
fn callbacks_sum_the_slot_consumers() {
    let c = Census {
        nodes: 13,
        subscriptions: 9,
        services: 21,
        timers: 1,
        publishers: 37,
    };
    assert_eq!(c.callbacks(), 31);
    // One token per node and one per entity.
    assert_eq!(c.liveliness_tokens(), 13 + 37 + 9 + 21);
}

#[test]
fn publishers_do_not_consume_callback_slots() {
    let c = Census {
        publishers: 100,
        ..Default::default()
    };
    assert_eq!(c.callbacks(), 0);
}

#[test]
fn default_census_counts_nothing() {
    let c = Census::default();
    assert_eq!(
        c,
        Census {
            nodes: 0,
            subscriptions: 0,
            services: 0,
            timers: 0,
            publishers: 0
        }
    );
    assert!(c.is_countable());
    assert_eq!(c.liveliness_tokens(), 0);
}

#[test]
fn counts_that_do_not_fit_are_told() {
    let many = Census {
        subscriptions: usize::MAX,
        services: 1,
        ..Default::default()
    };
    assert!(!many.is_countable());
    let nodes = Census {
        nodes: usize::MAX,
        publishers: 1,
        ..Default::default()
    };
    assert!(!nodes.is_countable());
    let just = Census {
        subscriptions: usize::MAX,
        ..Default::default()
    };
    assert!(just.is_countable());
    assert_eq!(just.callbacks(), usize::MAX);
}

fn full_census() -> Census {
    Census {
        nodes: 13,
        subscriptions: 9,
        services: 28,
        timers: 1,
        publishers: 51,
    }
}

fn requirements() -> Vec<String> {
    let tail = " for this topology (not readable here; exceeding it HANGS instead of erroring)";
    vec![
        format!("capacity: NROS_EXECUTOR_MAX_NODES must be >= 13{tail}"),
        format!("capacity: ZPICO_MAX_PUBLISHERS / CONFIG_NROS_MAX_PUBLISHERS must be >= 51{tail}"),
        format!("capacity: ZPICO_MAX_SUBSCRIBERS / CONFIG_NROS_MAX_SUBSCRIBERS must be >= 9{tail}"),
        format!("capacity: ZPICO_MAX_QUERYABLES / CONFIG_NROS_MAX_QUERYABLES must be >= 28{tail}"),
        format!("capacity: ZPICO_MAX_LIVELINESS / CONFIG_NROS_MAX_LIVELINESS must be >= 101{tail}"),
    ]
}

#[test]
fn too_small_executor_is_refused_with_both_numbers() {
    let mut log: Vec<LogLine> = Vec::new();
    let r = check(&full_census(), 4, &mut log);
    assert_eq!(r, Err(NodeError::ExecutorFull));
    assert_eq!(log.len(), 7);
    assert_eq!(log[0].level, Level::Error);
    assert_eq!(
        log[0].text,
        "capacity: NROS_EXECUTOR_MAX_CBS needs 38 but this binary compiled 4 — set \
         NROS_EXECUTOR_MAX_CBS=38 and REBUILD (a stale arena also SEGVs; clean build after \
         resizing)"
    );
    for (line, text) in log[1..6].iter().zip(requirements()) {
        assert_eq!(line.level, Level::Warn);
        assert_eq!(line.text, text);
    }
    assert_eq!(log[6].level, Level::Error);
    assert_eq!(
        log[6].text,
        "capacity: refusing to wire 13 nodes / 38 callbacks / 51 publishers against a too-small \
         executor — phase 15.3 pre-wiring check"
    );
}

#[test]
fn large_enough_executor_only_warns() {
    let mut log: Vec<LogLine> = vec![LogLine {
        level: Level::Warn,
        text: "earlier".to_string(),
    }];
    assert_eq!(check(&full_census(), 38, &mut log), Ok(()));
    assert_eq!(log.len(), 6);
    assert_eq!(log[0].text, "earlier");
    for (line, text) in log[1..].iter().zip(requirements()) {
        assert_eq!(line.level, Level::Warn);
        assert_eq!(line.text, text);
    }
    let mut none: Vec<LogLine> = Vec::new();
    assert_eq!(check(&full_census(), 37, &mut none), Err(NodeError::ExecutorFull));
}

#[test]
fn full_build_needs_thirty_eight_slots_on_however_many_nodes() {
    let spread = wiring_census(&Features::full(), 13);
    assert_eq!(spread, full_census());
    assert_eq!(spread.callbacks(), 38);
    assert_eq!(spread.publishers, 51);
    assert_eq!(spread.liveliness_tokens(), 101);
    let single = wiring_census(&Features::full(), 1);
    assert_eq!(single.callbacks(), 38);
    assert_eq!(single.publishers, 51);
    assert_eq!(single.nodes, 1);
    assert_eq!(single.liveliness_tokens(), 1 + 51 + 9 + 28);
}
