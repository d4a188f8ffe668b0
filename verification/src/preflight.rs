//! Prerequisites of the integration tests, and what a missing one means.
//!
//! A test that cannot reach its subject must not report success. A missing prerequisite is
//! an error that says how to fix it. Skipping has to be asked for, and is told from passing.

use vstd::prelude::*;

use crate::text::{decimal, decimal_text, lemma_says_one_more, same, says};

verus! {

/// One prerequisite: what it is, whether it was shown to work, and how to fix it.
#[derive(Clone, Copy, Debug, PartialEq, Eq)]
pub struct Check {
    pub name: &'static str,
    pub ok: bool,
    pub remedy: &'static str,
}

/// Whether a test may go on.
#[derive(Debug, PartialEq, Eq)]
pub enum Clearance {
    /// It may.
    Granted,
    /// It is skipped, with this notice.
    Skipped(String),
    /// It fails, with this message.
    Refused(String),
}

/// Whether a test may go on, as plain values.
pub enum ClearanceView {
    Granted,
    Skipped(Seq<char>),
    Refused(Seq<char>),
}

impl View for Clearance {
    type V = ClearanceView;

    open spec fn view(&self) -> ClearanceView {
        match *self {
            Clearance::Granted => ClearanceView::Granted,
            Clearance::Skipped(notice) => ClearanceView::Skipped(notice@),
            Clearance::Refused(message) => ClearanceView::Refused(message@),
        }
    }
}

/// Skipping was asked for by the value of the variable that asks for it.
pub open spec fn skipping_asked(value: Option<Seq<char>>) -> bool {
    match value {
        Some(text) => text.len() > 0 && text != "0"@,
        None => false,
    }
}

/// Whether skipping was asked for, given the value of the variable that asks for it: it is
/// set, not empty and not `0`.
pub fn skips_allowed(value: Option<&str>) -> (r: bool)
    ensures
        r == (match value {
            Some(text) => text@ != "0"@ && text@.len() > 0,
            None => false,
        }),
        r == skipping_asked(
            match value {
                Some(text) => Some(text@),
                None => None,
            },
        ),
{
    proof {
        reveal_strlit("");
        assert forall|s: Seq<char>| s.len() == 0 implies s == ""@ by {
            assert(s =~= ""@);
        }
    }
    match value {
        Some(text) => !same(text, "0") && !same(text, ""),
        None => false,
    }
}

/// All prerequisites were shown to work.
pub open spec fn all_ok(checks: Seq<Check>) -> bool {
    forall|i: int| 0 <= i < checks.len() ==> (#[trigger] checks[i]).ok
}

/// The prerequisites that are missing, each with its remedy, in their order.
pub open spec fn failures(checks: Seq<Check>) -> Seq<char>
    decreases checks.len(),
{
    if checks.len() == 0 {
        "preflight: missing prerequisites\n"@
    } else if checks.last().ok {
        failures(checks.drop_last())
    } else {
        failures(checks.drop_last()) + "  - "@ + checks.last().name@ + "\n      fix: "@
            + checks.last().remedy@ + "\n"@
    }
}

/// What the prerequisites mean for a test.
pub open spec fn clearance(checks: Seq<Check>, skips: bool) -> ClearanceView {
    if all_ok(checks) {
        ClearanceView::Granted
    } else if skips {
        ClearanceView::Skipped(
            failures(checks) + "  (SENTINEL_ALLOW_SKIP set — skipping this test)"@,
        )
    } else {
        ClearanceView::Refused(
            failures(checks)
                + "\n  This is an ERROR, not a skip: a test that cannot reach its\n  subject must not report success (phase 15.1).\n  Set SENTINEL_ALLOW_SKIP=1 to skip instead — CI never does."@,
        )
    }
}

/// Lets a test go on if all prerequisites are there. Otherwise it fails or, where skipping
/// was asked for, is skipped.
pub fn enforce(checks: &[Check], skips: bool) -> (r: Clearance)
    ensures
        r@ == clearance(checks@, skips),
{
    let mut text = "preflight: missing prerequisites\n".to_owned();
    let mut complete = true;
    let mut i: usize = 0;
    assert(checks@.take(0) =~= seq![]);
    while i < checks.len()
        invariant
            i <= checks.len(),
            complete == all_ok(checks@.take(i as int)),
            text@ == failures(checks@.take(i as int)),
        decreases checks.len() - i,
    {
        let c = checks[i];
        proof {
            assert(checks@.take(i + 1).drop_last() =~= checks@.take(i as int));
            assert(checks@.take(i + 1).last() == c);
            assert(all_ok(checks@.take(i + 1)) == (all_ok(checks@.take(i as int)) && c.ok)) by {
                if all_ok(checks@.take(i + 1)) {
                    assert(checks@.take(i + 1)[i as int].ok);
                    assert forall|k: int| 0 <= k < i implies (
                    #[trigger] checks@.take(i as int)[k]).ok by {
                        assert(checks@.take(i + 1)[k].ok);
                    }
                }
                if all_ok(checks@.take(i as int)) && c.ok {
                    assert forall|k: int| 0 <= k < i + 1 implies (
                    #[trigger] checks@.take(i + 1)[k]).ok by {
                        if k < i {
                            assert(checks@.take(i as int)[k].ok);
                        }
                    }
                }
            }
        }
        if !c.ok {
            text.append("  - ");
            text.append(c.name);
            text.append("\n      fix: ");
            text.append(c.remedy);
            text.append("\n");
            complete = false;
        }
        i += 1;
    }
    assert(checks@.take(i as int) =~= checks@);
    if complete {
        Clearance::Granted
    } else if skips {
        text.append("  (SENTINEL_ALLOW_SKIP set — skipping this test)");
        Clearance::Skipped(text)
    } else {
        text.append(
            "\n  This is an ERROR, not a skip: a test that cannot reach its\n  subject must not report success (phase 15.1).\n  Set SENTINEL_ALLOW_SKIP=1 to skip instead — CI never does.",
        );
        Clearance::Refused(text)
    }
}

/// A test goes on exactly if nothing is missing; it is skipped only where skipping was asked
/// for, and fails only where it was not.
pub proof fn law_missing_prerequisites_never_pass(checks: Seq<Check>, skips: bool)
    ensures
        clearance(checks, skips) is Granted <==> all_ok(checks),
        clearance(checks, skips) is Skipped ==> skips,
        clearance(checks, skips) is Refused ==> !skips,
{
}

/// The notice on so many skipped tests.
pub open spec fn skip_notice(skipped: nat) -> Option<Seq<char>> {
    if skipped > 0 {
        Some(
            "preflight: "@ + decimal(skipped)
                + " test(s) SKIPPED for missing prerequisites — not passes"@,
        )
    } else {
        None
    }
}

/// The notice on how many tests were skipped, if any were.
pub fn report_skips(skipped: usize) -> (r: Option<String>)
    ensures
        match r {
            Some(notice) => skipped > 0 && notice@ == "preflight: "@ + decimal(skipped as nat)
                + " test(s) SKIPPED for missing prerequisites — not passes"@,
            None => skipped == 0,
        },
        match r {
            Some(notice) => skip_notice(skipped as nat) == Some(notice@),
            None => skip_notice(skipped as nat) is None,
        },
{
    if skipped > 0 {
        let mut notice = "preflight: ".to_owned();
        notice.append(decimal_text(skipped).as_str());
        notice.append(" test(s) SKIPPED for missing prerequisites — not passes");
        Some(notice)
    } else {
        None
    }
}

// ---------------------------------------------------------------------------
// Integrity
// ---------------------------------------------------------------------------

/// Whether the middleware overlay works, and if not, why: its setup script is there, the
/// shared library is there, and the library answers. A path that exists is not enough.
pub fn rmw_zenoh_overlay_ok(setup: bool, library: bool, answers: bool) -> (r: (
    bool,
    Option<&'static str>,
))
    ensures
        r.0 == (setup && library && answers),
        r.1 == (if !setup {
            Some("overlay not built")
        } else if !library {
            Some("librmw_zenoh_cpp.so missing from overlay")
        } else if !answers {
            Some("overlay present but `ros2 pkg list` does not see rmw_zenoh_cpp")
        } else {
            None
        }),
        r.0 <==> r.1 is None,
{
    if !setup {
        return (false, Some("overlay not built"));
    }
    if !library {
        return (false, Some("librmw_zenoh_cpp.so missing from overlay"));
    }
    if !answers {
        return (
            false,
            Some("overlay present but `ros2 pkg list` does not see rmw_zenoh_cpp"),
        );
    }
    (true, None)
}

/// Where a path among the external artifacts leads.
#[derive(Clone, Copy, Debug, PartialEq, Eq, Structural)]
pub enum Resolution {
    Inside,
    Outside,
    /// It could not be resolved.
    Unknown,
}

/// No artifact leads outside the repository.
pub open spec fn self_contained(paths: Seq<Resolution>) -> bool {
    forall|i: int| 0 <= i < paths.len() ==> #[trigger] paths[i] != Resolution::Outside
}

/// Whether no external artifact lies outside the repository. Paths that cannot be resolved
/// do not count, nor does a missing directory.
pub fn external_paths_self_contained(paths: Option<&[Resolution]>) -> (r: bool)
    ensures
        r == (match paths {
            Some(paths) => forall|i: int|
                0 <= i < paths@.len() ==> #[trigger] paths@[i] != Resolution::Outside,
            None => true,
        }),
        r == (match paths {
            Some(paths) => self_contained(paths@),
            None => true,
        }),
{
    match paths {
        Some(all) => {
            let mut i: usize = 0;
            while i < all.len()
                invariant
                    paths == Some(all),
                    i <= all.len(),
                    forall|k: int| 0 <= k < i ==> #[trigger] all@[k] != Resolution::Outside,
                decreases all.len() - i,
            {
                if all[i] == Resolution::Outside {
                    assert(all@[i as int] == Resolution::Outside);
                    return false;
                }
                i += 1;
            }
            true
        },
        None => true,
    }
}

// ---------------------------------------------------------------------------
// What tests need
// ---------------------------------------------------------------------------

/// What was found of the prerequisites of transport tests.
#[derive(Clone, Copy, Debug, PartialEq, Eq, Structural)]
pub struct TransportProbes {
    pub ros2: bool,
    pub overlay: bool,
    pub self_contained: bool,
    pub autoware_msgs: bool,
    pub router: bool,
}

/// What was found of the further prerequisites of simulator tests.
#[derive(Clone, Copy, Debug, PartialEq, Eq, Structural)]
pub struct SimulatorProbes {
    pub play_launch: bool,
    pub map: bool,
}

/// The prerequisites of transport tests.
pub open spec fn transport_checks(p: TransportProbes) -> Seq<Check> {
    seq![
        Check {
            name: "ROS 2 (humble)",
            ok: p.ros2,
            remedy: "install ROS 2 humble at /opt/ros/humble",
        },
        Check {
            name: "rmw_zenoh_cpp overlay (loadable, in-repo)",
            ok: p.overlay,
            remedy: "scripts/build_rmw_zenoh.sh  (needs `git submodule update --init external/rmw_zenoh_ws/src/rmw_zenoh`)",
        },
        Check {
            name: "external/* self-contained",
            ok: p.self_contained,
            remedy: "rebuild the artifact inside this repo; do not symlink sibling build trees",
        },
        Check {
            name: "Autoware message packages",
            ok: p.autoware_msgs,
            remedy: "source /opt/autoware/1.5.0/setup.bash (or install Autoware 1.5.0)",
        },
        Check {
            name: "zenoh router binary",
            ok: p.router,
            remedy: "build zenohd, or set SENTINEL_ZENOHD to a working binary (the overlay's rmw_zenohd also works)",
        },
    ]
}

/// The further prerequisites of simulator tests.
pub open spec fn simulator_checks(p: SimulatorProbes) -> Seq<Check> {
    seq![
        Check {
            name: "play_launch",
            ok: p.play_launch,
            remedy: "pip install --user play_launch, or set $PLAY_LAUNCH (the `resolve` verb needs the source build)",
        },
        Check {
            name: "Autoware map data",
            ok: p.map,
            remedy: "set $MAP_PATH, or install autoware_test_utils",
        },
    ]
}

/// Whether transport tests may go on.
pub fn transport(p: TransportProbes, skips: bool) -> (r: Clearance)
    ensures
        r@ == clearance(transport_checks(p), skips),
{
    let checks: Vec<Check> = vec![
        Check {
            name: "ROS 2 (humble)",
            ok: p.ros2,
            remedy: "install ROS 2 humble at /opt/ros/humble",
        },
        Check {
            name: "rmw_zenoh_cpp overlay (loadable, in-repo)",
            ok: p.overlay,
            remedy: "scripts/build_rmw_zenoh.sh  (needs `git submodule update --init external/rmw_zenoh_ws/src/rmw_zenoh`)",
        },
        Check {
            name: "external/* self-contained",
            ok: p.self_contained,
            remedy: "rebuild the artifact inside this repo; do not symlink sibling build trees",
        },
        Check {
            name: "Autoware message packages",
            ok: p.autoware_msgs,
            remedy: "source /opt/autoware/1.5.0/setup.bash (or install Autoware 1.5.0)",
        },
        Check {
            name: "zenoh router binary",
            ok: p.router,
            remedy: "build zenohd, or set SENTINEL_ZENOHD to a working binary (the overlay's rmw_zenohd also works)",
        },
    ];
    assert(checks@ =~= transport_checks(p));
    enforce(checks.as_slice(), skips)
}

/// Whether a fixture may go on. By the time it runs its test cannot be skipped any more, so
/// that a missing prerequisite always fails.
pub fn transport_strict(p: TransportProbes) -> (r: Clearance)
    ensures
        r@ == clearance(transport_checks(p), false),
        !(r is Skipped),
{
    transport(p, false)
}

/// What the prerequisites of simulator tests mean for them: those of transport tests are looked
/// at first.
pub open spec fn simulator_clearance(
    p: TransportProbes,
    q: SimulatorProbes,
    skips: bool,
) -> ClearanceView {
    if all_ok(transport_checks(p)) {
        clearance(simulator_checks(q), skips)
    } else {
        clearance(transport_checks(p), skips)
    }
}

/// Whether simulator tests may go on: they need what transport tests need, and more.
pub fn planning_simulator(p: TransportProbes, q: SimulatorProbes, skips: bool) -> (r: Clearance)
    ensures
        r@ == (if all_ok(transport_checks(p)) {
            clearance(simulator_checks(q), skips)
        } else {
            clearance(transport_checks(p), skips)
        }),
        r@ == simulator_clearance(p, q, skips),
{
    match transport(p, skips) {
        Clearance::Granted => {
            let checks: Vec<Check> = vec![
                Check {
                    name: "play_launch",
                    ok: q.play_launch,
                    remedy: "pip install --user play_launch, or set $PLAY_LAUNCH (the `resolve` verb needs the source build)",
                },
                Check {
                    name: "Autoware map data",
                    ok: q.map,
                    remedy: "set $MAP_PATH, or install autoware_test_utils",
                },
            ];
            assert(checks@ =~= simulator_checks(q));
            enforce(checks.as_slice(), skips)
        },
        denied => denied,
    }
}

/// Transport tests go on exactly if all five of their prerequisites were found, and are never
/// skipped unless that was asked for.
pub proof fn law_what_transport_tests_need(p: TransportProbes, skips: bool)
    ensures
        ({
            let complete = p.ros2 && p.overlay && p.self_contained && p.autoware_msgs && p.router;
            let verdict = clearance(transport_checks(p), skips);
            &&& verdict is Granted <==> complete
            &&& verdict is Skipped <==> !complete && skips
            &&& verdict is Refused <==> !complete && !skips
        }),
{
    let checks = transport_checks(p);
    assert(checks[0].ok == p.ros2);
    assert(checks[1].ok == p.overlay);
    assert(checks[2].ok == p.self_contained);
    assert(checks[3].ok == p.autoware_msgs);
    assert(checks[4].ok == p.router);
}

/// Simulator tests need a launcher and a map besides.
pub proof fn law_what_simulator_tests_need(q: SimulatorProbes, skips: bool)
    ensures
        ({
            let complete = q.play_launch && q.map;
            let verdict = clearance(simulator_checks(q), skips);
            &&& verdict is Granted <==> complete
            &&& verdict is Skipped <==> !complete && skips
            &&& verdict is Refused <==> !complete && !skips
        }),
{
    let checks = simulator_checks(q);
    assert(checks[0].ok == q.play_launch);
    assert(checks[1].ok == q.map);
}

/// What is said to a test that may not go on names every prerequisite that is missing, and
/// behind it how to fix it.
pub proof fn law_missing_prerequisites_are_named(checks: Seq<Check>, skips: bool, i: int)
    requires
        0 <= i < checks.len(),
        !checks[i].ok,
    ensures
        ({
            let parts = seq![checks[i].name@, checks[i].remedy@];
            match clearance(checks, skips) {
                ClearanceView::Granted => false,
                ClearanceView::Skipped(notice) => says(notice, parts),
                ClearanceView::Refused(message) => says(message, parts),
            }
        }),
{
    let parts = seq![checks[i].name@, checks[i].remedy@];
    let listed = failures(checks);
    lemma_failure_is_listed(checks, i);
    let skipping = "  (SENTINEL_ALLOW_SKIP set — skipping this test)"@;
    let failing =
        "\n  This is an ERROR, not a skip: a test that cannot reach its\n  subject must not report success (phase 15.1).\n  Set SENTINEL_ALLOW_SKIP=1 to skip instead — CI never does."@;
    lemma_says_with_more_behind(listed, parts, skipping);
    lemma_says_with_more_behind(listed, parts, failing);
}

proof fn lemma_says_with_more_behind(text: Seq<char>, parts: Seq<Seq<char>>, more: Seq<char>)
    requires
        parts.len() > 0,
        says(text, parts),
    ensures
        says(text + more, parts),
{
    let (head, tail) = choose|head: Seq<char>, tail: Seq<char>|
        #[trigger] (head + parts.last() + tail) == text && says(head, parts.drop_last());
    assert(head + parts.last() + (tail + more) =~= text + more);
}

proof fn lemma_failure_is_listed(checks: Seq<Check>, i: int)
    requires
        0 <= i < checks.len(),
        !checks[i].ok,
    ensures
        says(failures(checks), seq![checks[i].name@, checks[i].remedy@]),
    decreases checks.len(),
{
    let rest = checks.drop_last();
    let before = failures(rest);
    let name = checks[i].name@;
    let remedy = checks[i].remedy@;
    let parts = seq![name, remedy];
    if i == checks.len() - 1 {
        let none = Seq::<Seq<char>>::empty();
        let head = before + "  - "@;
        lemma_says_one_more(head + name + "\n      fix: "@, head, none, name, "\n      fix: "@);
        lemma_says_one_more(
            failures(checks),
            head + name + "\n      fix: "@,
            none.push(name),
            remedy,
            "\n"@,
        );
        assert(none.push(name).push(remedy) =~= parts);
    } else {
        assert(rest[i] == checks[i]);
        lemma_failure_is_listed(rest, i);
        if !checks.last().ok {
            let more = "  - "@ + checks.last().name@ + "\n      fix: "@ + checks.last().remedy@
                + "\n"@;
            lemma_says_with_more_behind(before, parts, more);
            assert(before + more =~= failures(checks));
        }
    }
}

/// What works is not mentioned: the message is the same as if only the missing prerequisites
/// had been looked at.
pub proof fn law_only_missing_prerequisites_are_named(checks: Seq<Check>)
    ensures
        failures(checks) == failures(checks.filter(|c: Check| !c.ok)),
    decreases checks.len(),
{
    reveal(Seq::filter);
    if checks.len() > 0 {
        let rest = checks.drop_last();
        law_only_missing_prerequisites_are_named(rest);
        let missing = rest.filter(|c: Check| !c.ok);
        if !checks.last().ok {
            assert(missing.push(checks.last()).drop_last() =~= missing);
        }
    }
}

/// Skipping is asked for by any text but an empty one and `0`; a variable that is not set asks
/// for nothing.
pub proof fn law_when_skipping_is_asked_for(text: Seq<char>)
    ensures
        !skipping_asked(None),
        skipping_asked(Some(text)) <==> text.len() > 0 && text != seq!['0'],
{
    reveal_strlit("0");
    assert("0"@ =~= seq!['0']);
}

/// Skipped tests are always reported, and with their number; without any there is no notice.
pub proof fn law_skipped_tests_are_reported(skipped: nat)
    ensures
        skip_notice(skipped) is None <==> skipped == 0,
        skipped > 0 ==> (skip_notice(skipped) matches Some(notice) && says(
            notice,
            seq![decimal(skipped)],
        )),
{
    let none = Seq::<Seq<char>>::empty();
    let tail = " test(s) SKIPPED for missing prerequisites — not passes"@;
    lemma_says_one_more(
        "preflight: "@ + decimal(skipped) + tail,
        "preflight: "@,
        none,
        decimal(skipped),
        tail,
    );
    assert(none.push(decimal(skipped)) =~= seq![decimal(skipped)]);
}

/// Artifacts that lead outside the repository are found wherever they stand, and nothing else
/// is held against them.
pub proof fn law_one_artifact_outside_is_enough(paths: Seq<Resolution>, i: int)
    ensures
        0 <= i < paths.len() && paths[i] == Resolution::Outside ==> !self_contained(paths),
        (forall|k: int|
            0 <= k < paths.len() ==> #[trigger] paths[k] == Resolution::Inside || paths[k]
                == Resolution::Unknown) ==> self_contained(paths),
{
}

/// Simulator tests go on exactly if all that transport tests need and all that they need
/// themselves was found.
pub proof fn law_simulator_tests_need_everything(
    p: TransportProbes,
    q: SimulatorProbes,
    skips: bool,
)
    ensures
        ({
            let complete = p.ros2 && p.overlay && p.self_contained && p.autoware_msgs && p.router
                && q.play_launch && q.map;
            let verdict = simulator_clearance(p, q, skips);
            &&& verdict is Granted <==> complete
            &&& verdict is Skipped <==> !complete && skips
            &&& verdict is Refused <==> !complete && !skips
        }),
{
    law_what_transport_tests_need(p, skips);
    law_what_simulator_tests_need(q, skips);
}

} // verus!
