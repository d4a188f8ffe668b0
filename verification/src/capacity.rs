//! Counting what a topology needs, before any of it is created.
//!
//! Capacities are compiled in. One that is smaller than the topology shows up late, as
//! a hang or an opaque error. [`check`] turns it into a sentence that names the knob and
//! both numbers, before a single entity exists.

use vstd::prelude::*;

use crate::text::{decimal, decimal_text, lemma_says_one_more, says};

verus! {

/// What a wiring pass is about to declare.
#[derive(Clone, Copy, Debug, PartialEq, Eq, Structural)]
pub struct Census {
    /// Executor nodes.
    pub nodes: usize,
    /// Subscriptions, one executor callback slot each.
    pub subscriptions: usize,
    /// Service servers, one executor callback slot each.
    pub services: usize,
    /// Timers, one executor callback slot each.
    pub timers: usize,
    /// Publishers. They take no callback slot, but a slot of the middleware and a
    /// liveliness token each.
    pub publishers: usize,
}

impl Default for Census {
    /// A census of nothing.
    fn default() -> (r: Census)
        ensures
            r == (Census { nodes: 0, subscriptions: 0, services: 0, timers: 0, publishers: 0 }),
    {
        Census { nodes: 0, subscriptions: 0, services: 0, timers: 0, publishers: 0 }
    }
}

impl Census {
    /// Callback slots that the topology takes.
    pub open spec fn slots(self) -> int {
        self.subscriptions + self.services + self.timers
    }

    /// Liveliness tokens that the topology takes.
    pub open spec fn tokens(self) -> int {
        self.nodes + self.publishers + self.subscriptions + self.services
    }

    /// Both counts fit the machine.
    pub open spec fn countable(self) -> bool {
        self.slots() <= usize::MAX && self.tokens() <= usize::MAX
    }

    /// Whether both counts fit the machine.
    pub fn is_countable(&self) -> (r: bool)
        ensures
            r == self.countable(),
    {
        let slots: Option<usize> = match self.subscriptions.checked_add(self.services) {
            Some(endpoints) => endpoints.checked_add(self.timers),
            None => None,
        };
        let tokens: Option<usize> = match self.nodes.checked_add(self.publishers) {
            Some(silent) => match silent.checked_add(self.subscriptions) {
                Some(most) => most.checked_add(self.services),
                None => None,
            },
            None => None,
        };
        slots.is_some() && tokens.is_some()
    }

    /// Executor callback slots that this topology needs.
    pub fn callbacks(&self) -> (r: usize)
        requires
            self.slots() <= usize::MAX,
        ensures
            r == self.slots(),
    {
        self.subscriptions + self.services + self.timers
    }

    /// Liveliness tokens: one per entity and one per node. Timers need none.
    pub fn liveliness_tokens(&self) -> (r: usize)
        requires
            self.tokens() <= usize::MAX,
        ensures
            r == self.tokens(),
    {
        self.nodes + self.publishers + self.subscriptions + self.services
    }
}

/// Publishers take no callback slot.
pub proof fn law_publishers_take_no_slot(census: Census, publishers: usize)
    ensures
        (Census { publishers, ..census }).slots() == census.slots(),
{
}

/// Why a node could not be set up.
#[derive(Clone, Copy, Debug, PartialEq, Eq, Structural)]
pub enum NodeError {
    /// The executor has fewer callback slots than the topology needs.
    ExecutorFull,
}

/// How much a log line matters.
#[derive(Clone, Copy, Debug, PartialEq, Eq, Structural)]
pub enum Level {
    Error,
    Warn,
}

/// A line for the log.
#[derive(Debug, PartialEq, Eq)]
pub struct LogLine {
    pub level: Level,
    pub text: String,
}

/// A line for the log, as plain text.
pub struct LogEntry {
    pub level: Level,
    pub text: Seq<char>,
}

impl View for LogLine {
    type V = LogEntry;

    open spec fn view(&self) -> LogEntry {
        LogEntry { level: self.level, text: self.text@ }
    }
}

/// The lines of a log.
pub open spec fn entries(log: Seq<LogLine>) -> Seq<LogEntry> {
    log.map_values(|line: LogLine| line@)
}

/// One capacity and what is needed of it.
#[derive(Clone, Copy)]
struct Verdict {
    knob: &'static str,
    needed: usize,
    compiled: usize,
    /// Whether the compiled value can be read here. The others live in C code or in
    /// build configuration; they are reported, for a person to compare.
    enforceable: bool,
}

impl Verdict {
    spec fn fatal(self) -> bool {
        self.enforceable && self.needed > self.compiled
    }

    spec fn lines(self) -> Seq<LogEntry> {
        if self.fatal() {
            seq![shortage_entry(self.knob@, self.needed as nat, self.compiled as nat)]
        } else if self.enforceable {
            seq![]
        } else {
            seq![requirement_entry(self.knob@, self.needed as nat)]
        }
    }
}

/// Says that a capacity is too small.
pub open spec fn shortage_entry(knob: Seq<char>, needed: nat, compiled: nat) -> LogEntry {
    LogEntry {
        level: Level::Error,
        text: "capacity: "@ + knob + " needs "@ + decimal(needed) + " but this binary compiled "@
            + decimal(compiled) + " — set "@ + knob + "="@ + decimal(needed)
            + " and REBUILD (a stale arena also SEGVs; clean build after resizing)"@,
    }
}

/// Says what a capacity has to be that cannot be read here.
pub open spec fn requirement_entry(knob: Seq<char>, needed: nat) -> LogEntry {
    LogEntry {
        level: Level::Warn,
        text: "capacity: "@ + knob + " must be >= "@ + decimal(needed)
            + " for this topology (not readable here; exceeding it HANGS instead of erroring)"@,
    }
}

/// Says that nothing will be wired.
pub open spec fn refusal_entry(census: Census) -> LogEntry {
    LogEntry {
        level: Level::Error,
        text: "capacity: refusing to wire "@ + decimal(census.nodes as nat) + " nodes / "@
            + decimal(census.slots() as nat) + " callbacks / "@ + decimal(
            census.publishers as nat,
        ) + " publishers against a too-small executor — phase 15.3 pre-wiring check"@,
    }
}

/// What a check leaves in the log: the shortage, if there is one, the five capacities
/// that only a person can compare, and the refusal that follows from a shortage.
pub open spec fn check_entries(census: Census, compiled_cbs: int) -> Seq<LogEntry> {
    let requirements = seq![
        requirement_entry("NROS_EXECUTOR_MAX_NODES"@, census.nodes as nat),
        requirement_entry(
            "ZPICO_MAX_PUBLISHERS / CONFIG_NROS_MAX_PUBLISHERS"@,
            census.publishers as nat,
        ),
        requirement_entry(
            "ZPICO_MAX_SUBSCRIBERS / CONFIG_NROS_MAX_SUBSCRIBERS"@,
            census.subscriptions as nat,
        ),
        requirement_entry(
            "ZPICO_MAX_QUERYABLES / CONFIG_NROS_MAX_QUERYABLES"@,
            census.services as nat,
        ),
        requirement_entry(
            "ZPICO_MAX_LIVELINESS / CONFIG_NROS_MAX_LIVELINESS"@,
            census.tokens() as nat,
        ),
    ];
    if census.slots() > compiled_cbs {
        seq![
            shortage_entry("NROS_EXECUTOR_MAX_CBS"@, census.slots() as nat, compiled_cbs as nat),
        ] + requirements + seq![refusal_entry(census)]
    } else {
        requirements
    }
}

fn shortage_line(verdict: &Verdict) -> (r: LogLine)
    ensures
        r@ == shortage_entry(verdict.knob@, verdict.needed as nat, verdict.compiled as nat),
{
    let mut text = "capacity: ".to_owned();
    text.append(verdict.knob);
    text.append(" needs ");
    text.append(decimal_text(verdict.needed).as_str());
    text.append(" but this binary compiled ");
    text.append(decimal_text(verdict.compiled).as_str());
    text.append(" — set ");
    text.append(verdict.knob);
    text.append("=");
    text.append(decimal_text(verdict.needed).as_str());
    text.append(" and REBUILD (a stale arena also SEGVs; clean build after resizing)");
    LogLine { level: Level::Error, text }
}

fn requirement_line(verdict: &Verdict) -> (r: LogLine)
    ensures
        r@ == requirement_entry(verdict.knob@, verdict.needed as nat),
{
    let mut text = "capacity: ".to_owned();
    text.append(verdict.knob);
    text.append(" must be >= ");
    text.append(decimal_text(verdict.needed).as_str());
    text.append(
        " for this topology (not readable here; exceeding it HANGS instead of erroring)",
    );
    LogLine { level: Level::Warn, text }
}

fn refusal_line(census: &Census) -> (r: LogLine)
    requires
        census.slots() <= usize::MAX,
    ensures
        r@ == refusal_entry(*census),
{
    let mut text = "capacity: refusing to wire ".to_owned();
    text.append(decimal_text(census.nodes).as_str());
    text.append(" nodes / ");
    text.append(decimal_text(census.callbacks()).as_str());
    text.append(" callbacks / ");
    text.append(decimal_text(census.publishers).as_str());
    text.append(" publishers against a too-small executor — phase 15.3 pre-wiring check");
    LogLine { level: Level::Error, text }
}

/// The lines of several verdicts, in their order.
spec fn verdict_lines(verdicts: Seq<Verdict>) -> Seq<LogEntry>
    decreases verdicts.len(),
{
    if verdicts.len() == 0 {
        seq![]
    } else {
        verdict_lines(verdicts.drop_last()) + verdicts.last().lines()
    }
}

proof fn lemma_entries_push(log: Seq<LogLine>, line: LogLine)
    ensures
        entries(log.push(line)) == entries(log).push(line@),
{
    assert(entries(log.push(line)) =~= entries(log).push(line@));
}

/// So many callback slots are enough for the census.
pub open spec fn suffices(census: Census, compiled_cbs: int) -> bool {
    census.slots() <= compiled_cbs
}

/// Holds the census against every capacity that can be seen here. `compiled_cbs` is the
/// number of callback slots that the executor was compiled with.
///
/// Appends what it finds to the log and fails when the callback slots do not suffice.
pub fn check(census: &Census, compiled_cbs: usize, log: &mut Vec<LogLine>) -> (r: Result<
    (),
    NodeError,
>)
    requires
        census.countable(),
    ensures
        r == (if census.slots() > compiled_cbs {
            Err(NodeError::ExecutorFull)
        } else {
            Ok::<(), NodeError>(())
        }),
        r is Ok <==> suffices(*census, compiled_cbs as int),
        entries(final(log)@) == entries(old(log)@) + check_entries(*census, compiled_cbs as int),
{
    let verdicts: Vec<Verdict> = vec![
        Verdict {
            knob: "NROS_EXECUTOR_MAX_CBS",
            needed: census.callbacks(),
            compiled: compiled_cbs,
            enforceable: true,
        },
        Verdict {
            knob: "NROS_EXECUTOR_MAX_NODES",
            needed: census.nodes,
            compiled: 0,
            enforceable: false,
        },
        Verdict {
            knob: "ZPICO_MAX_PUBLISHERS / CONFIG_NROS_MAX_PUBLISHERS",
            needed: census.publishers,
            compiled: 0,
            enforceable: false,
        },
        Verdict {
            knob: "ZPICO_MAX_SUBSCRIBERS / CONFIG_NROS_MAX_SUBSCRIBERS",
            needed: census.subscriptions,
            compiled: 0,
            enforceable: false,
        },
        Verdict {
            knob: "ZPICO_MAX_QUERYABLES / CONFIG_NROS_MAX_QUERYABLES",
            needed: census.services,
            compiled: 0,
            enforceable: false,
        },
        Verdict {
            knob: "ZPICO_MAX_LIVELINESS / CONFIG_NROS_MAX_LIVELINESS",
            needed: census.liveliness_tokens(),
            compiled: 0,
            enforceable: false,
        },
    ];
    let mut fatal = false;
    let mut i: usize = 0;
    assert(entries(log@) + verdict_lines(verdicts@.take(0)) =~= entries(log@));
    while i < verdicts.len()
        invariant
            i <= verdicts.len(),
            fatal == exists|k: int| 0 <= k < i && (#[trigger] verdicts@[k]).fatal(),
            entries(log@) == entries(old(log)@) + verdict_lines(verdicts@.take(i as int)),
        decreases verdicts.len() - i,
    {
        let verdict = verdicts[i];
        proof {
            assert(verdicts@.take(i + 1).drop_last() =~= verdicts@.take(i as int));
            assert(verdicts@.take(i + 1).last() == verdict);
        }
        let ghost before = log@;
        if verdict.enforceable {
            if verdict.needed > verdict.compiled {
                let line = shortage_line(&verdict);
                proof {
                    lemma_entries_push(before, line);
                }
                log.push(line);
                fatal = true;
                assert(verdicts@[i as int].fatal());
            }
        } else {
            let line = requirement_line(&verdict);
            proof {
                lemma_entries_push(before, line);
            }
            log.push(line);
        }
        assert(entries(log@) =~= entries(old(log)@) + verdict_lines(verdicts@.take(i + 1)));
        i += 1;
    }
    proof {
        assert(verdicts@.take(i as int) =~= verdicts@);
        assert(verdicts@[0].fatal() == (census.slots() > compiled_cbs));
        lemma_six_verdicts(verdicts@);
    }
    if fatal {
        let line = refusal_line(census);
        proof {
            lemma_entries_push(log@, line);
        }
        log.push(line);
        assert(entries(log@) =~= entries(old(log)@) + check_entries(*census, compiled_cbs as int));
        return Err(NodeError::ExecutorFull);
    }
    assert(entries(log@) =~= entries(old(log)@) + check_entries(*census, compiled_cbs as int));
    Ok(())
}

proof fn lemma_six_verdicts(verdicts: Seq<Verdict>)
    requires
        verdicts.len() == 6,
    ensures
        verdict_lines(verdicts) == verdicts[0].lines() + verdicts[1].lines() + verdicts[2].lines()
            + verdicts[3].lines() + verdicts[4].lines() + verdicts[5].lines(),
{
    reveal_with_fuel(verdict_lines, 7);
    assert(verdict_lines(verdicts) =~= verdicts[0].lines() + verdicts[1].lines()
        + verdicts[2].lines() + verdicts[3].lines() + verdicts[4].lines() + verdicts[5].lines());
}

/// What one entity more costs. A subscription or a service takes a callback slot and a token, a
/// timer a slot alone, a publisher or a node a token alone. Nothing at all takes neither.
pub proof fn law_cost_of_one_more(census: Census, more: Census)
    ensures
        more == (Census { subscriptions: more.subscriptions, ..census }) && more.subscriptions
            == census.subscriptions + 1 ==> more.slots() == census.slots() + 1 && more.tokens()
            == census.tokens() + 1,
        more == (Census { services: more.services, ..census }) && more.services == census.services
            + 1 ==> more.slots() == census.slots() + 1 && more.tokens() == census.tokens() + 1,
        more == (Census { timers: more.timers, ..census }) && more.timers == census.timers + 1
            ==> more.slots() == census.slots() + 1 && more.tokens() == census.tokens(),
        more == (Census { publishers: more.publishers, ..census }) && more.publishers
            == census.publishers + 1 ==> more.slots() == census.slots() && more.tokens()
            == census.tokens() + 1,
        more == (Census { nodes: more.nodes, ..census }) && more.nodes == census.nodes + 1
            ==> more.slots() == census.slots() && more.tokens() == census.tokens() + 1,
        more == (Census { nodes: 0, subscriptions: 0, services: 0, timers: 0, publishers: 0 })
            ==> more.slots() == 0 && more.tokens() == 0,
{
}

/// A check that finds too few callback slots says first which knob is too small, how many slots
/// are needed, how many were compiled, and what to set it to; and last that it refuses to wire
/// so many nodes, callbacks and publishers. Both are errors. What is between is the same as in
/// a check that finds enough: a warning for each of the five capacities that cannot be read,
/// with its own knob and what is needed of it.
pub proof fn law_check_names_knobs_and_numbers(census: Census, compiled_cbs: int)
    requires
        0 <= compiled_cbs,
    ensures
        ({
            let lines = check_entries(census, compiled_cbs);
            let short = census.subscriptions + census.services + census.timers > compiled_cbs;
            let first: int = if short {
                1
            } else {
                0
            };
            let slots = decimal((census.subscriptions + census.services + census.timers) as nat);
            let knob = "NROS_EXECUTOR_MAX_CBS"@;
            &&& lines.len() == if short {
                7
            } else {
                5int
            }
            &&& short ==> {
                &&& lines[0].level is Error
                &&& says(
                    lines[0].text,
                    seq![knob, slots, decimal(compiled_cbs as nat), knob, slots],
                )
                &&& lines[6].level is Error
                &&& says(
                    lines[6].text,
                    seq![
                        decimal(census.nodes as nat),
                        slots,
                        decimal(census.publishers as nat),
                    ],
                )
            }
            &&& forall|k: int| first <= k < first + 5 ==> (#[trigger] lines[k]).level is Warn
            &&& says(
                lines[first].text,
                seq!["NROS_EXECUTOR_MAX_NODES"@, decimal(census.nodes as nat)],
            )
            &&& says(
                lines[first + 1].text,
                seq![
                    "ZPICO_MAX_PUBLISHERS / CONFIG_NROS_MAX_PUBLISHERS"@,
                    decimal(census.publishers as nat),
                ],
            )
            &&& says(
                lines[first + 2].text,
                seq![
                    "ZPICO_MAX_SUBSCRIBERS / CONFIG_NROS_MAX_SUBSCRIBERS"@,
                    decimal(census.subscriptions as nat),
                ],
            )
            &&& says(
                lines[first + 3].text,
                seq![
                    "ZPICO_MAX_QUERYABLES / CONFIG_NROS_MAX_QUERYABLES"@,
                    decimal(census.services as nat),
                ],
            )
            &&& says(
                lines[first + 4].text,
                seq![
                    "ZPICO_MAX_LIVELINESS / CONFIG_NROS_MAX_LIVELINESS"@,
                    decimal(
                        (census.nodes + census.publishers + census.subscriptions
                            + census.services) as nat,
                    ),
                ],
            )
        }),
{
    let lines = check_entries(census, compiled_cbs);
    let slots = census.slots() as nat;
    let knob = "NROS_EXECUTOR_MAX_CBS"@;
    lemma_shortage_says(knob, slots, compiled_cbs as nat);
    lemma_refusal_says(census);
    lemma_requirement_says("NROS_EXECUTOR_MAX_NODES"@, census.nodes as nat);
    lemma_requirement_says(
        "ZPICO_MAX_PUBLISHERS / CONFIG_NROS_MAX_PUBLISHERS"@,
        census.publishers as nat,
    );
    lemma_requirement_says(
        "ZPICO_MAX_SUBSCRIBERS / CONFIG_NROS_MAX_SUBSCRIBERS"@,
        census.subscriptions as nat,
    );
    lemma_requirement_says(
        "ZPICO_MAX_QUERYABLES / CONFIG_NROS_MAX_QUERYABLES"@,
        census.services as nat,
    );
    lemma_requirement_says(
        "ZPICO_MAX_LIVELINESS / CONFIG_NROS_MAX_LIVELINESS"@,
        census.tokens() as nat,
    );
}

proof fn lemma_requirement_says(knob: Seq<char>, needed: nat)
    ensures
        says(requirement_entry(knob, needed).text, seq![knob, decimal(needed)]),
{
    let none = Seq::<Seq<char>>::empty();
    let text = requirement_entry(knob, needed).text;
    let a = "capacity: "@;
    let b = " must be >= "@;
    let c = " for this topology (not readable here; exceeding it HANGS instead of erroring)"@;
    lemma_says_one_more(a + knob + b, a, none, knob, b);
    lemma_says_one_more(text, a + knob + b, none.push(knob), decimal(needed), c);
    assert(none.push(knob).push(decimal(needed)) =~= seq![knob, decimal(needed)]);
}

proof fn lemma_shortage_says(knob: Seq<char>, needed: nat, compiled: nat)
    ensures
        says(
            shortage_entry(knob, needed, compiled).text,
            seq![knob, decimal(needed), decimal(compiled), knob, decimal(needed)],
        ),
{
    let none = Seq::<Seq<char>>::empty();
    let text = shortage_entry(knob, needed, compiled).text;
    let n = decimal(needed);
    let m = decimal(compiled);
    let h1 = "capacity: "@ + knob + " needs "@;
    let h2 = h1 + n + " but this binary compiled "@;
    let h3 = h2 + m + " — set "@;
    let h4 = h3 + knob + "="@;
    let end = " and REBUILD (a stale arena also SEGVs; clean build after resizing)"@;
    lemma_says_one_more(h1, "capacity: "@, none, knob, " needs "@);
    lemma_says_one_more(h2, h1, none.push(knob), n, " but this binary compiled "@);
    lemma_says_one_more(h3, h2, none.push(knob).push(n), m, " — set "@);
    lemma_says_one_more(h4, h3, none.push(knob).push(n).push(m), knob, "="@);
    lemma_says_one_more(text, h4, none.push(knob).push(n).push(m).push(knob), n, end);
    assert(none.push(knob).push(n).push(m).push(knob).push(n) =~= seq![knob, n, m, knob, n]);
}

proof fn lemma_refusal_says(census: Census)
    ensures
        says(
            refusal_entry(census).text,
            seq![
                decimal(census.nodes as nat),
                decimal(census.slots() as nat),
                decimal(census.publishers as nat),
            ],
        ),
{
    let none = Seq::<Seq<char>>::empty();
    let text = refusal_entry(census).text;
    let n = decimal(census.nodes as nat);
    let m = decimal(census.slots() as nat);
    let k = decimal(census.publishers as nat);
    let a = "capacity: refusing to wire "@;
    let h1 = a + n + " nodes / "@;
    let h2 = h1 + m + " callbacks / "@;
    let end = " publishers against a too-small executor — phase 15.3 pre-wiring check"@;
    lemma_says_one_more(h1, a, none, n, " nodes / "@);
    lemma_says_one_more(h2, h1, none.push(n), m, " callbacks / "@);
    lemma_says_one_more(text, h2, none.push(n).push(m), k, end);
    assert(none.push(n).push(m).push(k) =~= seq![n, m, k]);
}

/// A census can be counted exactly if the callback slots and the tokens each fit the machine.
pub proof fn law_when_a_census_can_be_counted(census: Census)
    ensures
        census.countable() <==> {
            &&& census.subscriptions + census.services + census.timers <= usize::MAX
            &&& census.nodes + census.publishers + census.subscriptions + census.services
                <= usize::MAX
        },
{
}

/// An executor is large enough exactly if it has a slot for each subscription, each service and
/// each timer. One that is larger still is never refused where a smaller one was not.
pub proof fn law_when_an_executor_is_large_enough(census: Census, compiled_cbs: int, more: int)
    requires
        more >= compiled_cbs,
    ensures
        suffices(census, compiled_cbs) <==> census.subscriptions + census.services + census.timers
            <= compiled_cbs,
        suffices(census, compiled_cbs) ==> suffices(census, more),
{
}

} // verus!
