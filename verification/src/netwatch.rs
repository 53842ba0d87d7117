//! The SysAdmin employee: while hired, it periodically dispatches free
//! technicians to repair broken servers and switches and to replace
//! end-of-life ones. This module decides what to dispatch; the caller reads
//! the game's counts and performs each dispatch it is told to.

use vstd::prelude::*;

verus! {

/// Dispatches per scan when the configuration gives no limit.
pub const MAX_DISPATCHES_PER_SCAN: u32 = 4;

/// Scans between two logs of the configuration or of an idle scan.
pub const LOG_EVERY_SCANS: u32 = 6;

/// The SysAdmin's persistent state and statistics.
#[derive(Clone, Copy, PartialEq, Eq, Debug, Structural)]
pub struct NetWatchState {
    pub hired: bool,
    pub total_dispatches: u32,
    pub broken_repairs: u32,
    pub eol_replacements: u32,
    pub idle_log_counter: u32,
    pub config_log_counter: u32,
}

impl NetWatchState {
    /// Not hired, nothing dispatched yet.
    pub fn new() -> (s: NetWatchState)
        ensures
            s == (NetWatchState {
                hired: false,
                total_dispatches: 0,
                broken_repairs: 0,
                eol_replacements: 0,
                idle_log_counter: 0,
                config_log_counter: 0,
            }),
    {
        NetWatchState {
            hired: false,
            total_dispatches: 0,
            broken_repairs: 0,
            eol_replacements: 0,
            idle_log_counter: 0,
            config_log_counter: 0,
        }
    }
}

/// The player's settings for the SysAdmin.
#[derive(Clone, Copy, PartialEq, Eq, Debug, Structural)]
pub struct ScanConfig {
    pub repair_broken_servers: bool,
    pub repair_broken_switches: bool,
    pub replace_eol_servers: bool,
    pub replace_eol_switches: bool,
    pub prioritize_switches: bool,
    pub max_dispatches: u32,
}

/// The game's counts of devices needing work.
#[derive(Clone, Copy, PartialEq, Eq, Debug, Structural)]
pub struct DeviceCounts {
    pub broken_servers: u32,
    pub broken_switches: u32,
    pub eol_servers: u32,
    pub eol_switches: u32,
}

/// One kind of technician dispatch.
#[derive(Clone, Copy, PartialEq, Eq, Debug, Structural)]
pub enum DispatchKind {
    RepairServer,
    RepairSwitch,
    ReplaceServer,
    ReplaceSwitch,
}

impl DispatchKind {
    /// Repairs (as opposed to end-of-life replacements).
    pub open spec fn is_repair(self) -> bool {
        self == DispatchKind::RepairServer || self == DispatchKind::RepairSwitch
    }
}

/// The enabled dispatch kinds in the order they are worked through: repairs
/// before replacements, servers before switches unless switches are
/// prioritized.
pub open spec fn dispatch_order(cfg: ScanConfig) -> Seq<DispatchKind> {
    let all = if cfg.prioritize_switches {
        seq![
            (DispatchKind::RepairSwitch, cfg.repair_broken_switches),
            (DispatchKind::RepairServer, cfg.repair_broken_servers),
            (DispatchKind::ReplaceSwitch, cfg.replace_eol_switches),
            (DispatchKind::ReplaceServer, cfg.replace_eol_servers),
        ]
    } else {
        seq![
            (DispatchKind::RepairServer, cfg.repair_broken_servers),
            (DispatchKind::RepairSwitch, cfg.repair_broken_switches),
            (DispatchKind::ReplaceServer, cfg.replace_eol_servers),
            (DispatchKind::ReplaceSwitch, cfg.replace_eol_switches),
        ]
    };
    all.filter(|p: (DispatchKind, bool)| p.1).map_values(|p: (DispatchKind, bool)| p.0)
}

/// The setting that enables dispatches of kind `k`.
pub open spec fn kind_enabled(cfg: ScanConfig, k: DispatchKind) -> bool {
    match k {
        DispatchKind::RepairServer => cfg.repair_broken_servers,
        DispatchKind::RepairSwitch => cfg.repair_broken_switches,
        DispatchKind::ReplaceServer => cfg.replace_eol_servers,
        DispatchKind::ReplaceSwitch => cfg.replace_eol_switches,
    }
}

/// Dispatches to switches (as opposed to servers).
pub open spec fn is_switch(k: DispatchKind) -> bool {
    k == DispatchKind::RepairSwitch || k == DispatchKind::ReplaceSwitch
}

/// `[k]` when `on`, else nothing.
pub open spec fn step_if(k: DispatchKind, on: bool) -> Seq<DispatchKind> {
    if on {
        seq![k]
    } else {
        Seq::empty()
    }
}

proof fn lemma_order_step(s: Seq<(DispatchKind, bool)>, i: int)
    requires
        0 <= i < s.len(),
    ensures
        s.take(i + 1).filter(|p: (DispatchKind, bool)| p.1).map_values(|p: (DispatchKind, bool)| p.0)
            == s.take(i).filter(|p: (DispatchKind, bool)| p.1).map_values(
            |p: (DispatchKind, bool)| p.0,
        ) + step_if(s[i].0, s[i].1),
{
    assert(s.take(i + 1).drop_last() =~= s.take(i));
    assert(s.take(i + 1).last() == s[i]);
    reveal_with_fuel(Seq::<(DispatchKind, bool)>::filter, 1);
    assert(s.take(i + 1).filter(|p: (DispatchKind, bool)| p.1).map_values(|p: (DispatchKind, bool)| p.0)
        =~= s.take(i).filter(|p: (DispatchKind, bool)| p.1).map_values(|p: (DispatchKind, bool)| p.0)
        + step_if(s[i].0, s[i].1));
}

proof fn lemma_order_spelled_out(cfg: ScanConfig)
    ensures
        dispatch_order(cfg) == if cfg.prioritize_switches {
            step_if(DispatchKind::RepairSwitch, cfg.repair_broken_switches) + step_if(
                DispatchKind::RepairServer,
                cfg.repair_broken_servers,
            ) + step_if(DispatchKind::ReplaceSwitch, cfg.replace_eol_switches) + step_if(
                DispatchKind::ReplaceServer,
                cfg.replace_eol_servers,
            )
        } else {
            step_if(DispatchKind::RepairServer, cfg.repair_broken_servers) + step_if(
                DispatchKind::RepairSwitch,
                cfg.repair_broken_switches,
            ) + step_if(DispatchKind::ReplaceServer, cfg.replace_eol_servers) + step_if(
                DispatchKind::ReplaceSwitch,
                cfg.replace_eol_switches,
            )
        },
{
    let all = if cfg.prioritize_switches {
        seq![
            (DispatchKind::RepairSwitch, cfg.repair_broken_switches),
            (DispatchKind::RepairServer, cfg.repair_broken_servers),
            (DispatchKind::ReplaceSwitch, cfg.replace_eol_switches),
            (DispatchKind::ReplaceServer, cfg.replace_eol_servers),
        ]
    } else {
        seq![
            (DispatchKind::RepairServer, cfg.repair_broken_servers),
            (DispatchKind::RepairSwitch, cfg.repair_broken_switches),
            (DispatchKind::ReplaceServer, cfg.replace_eol_servers),
            (DispatchKind::ReplaceSwitch, cfg.replace_eol_switches),
        ]
    };
    reveal_with_fuel(Seq::<(DispatchKind, bool)>::filter, 1);
    assert(all.take(0).filter(|p: (DispatchKind, bool)| p.1).map_values(|p: (DispatchKind, bool)| p.0)
        =~= Seq::<DispatchKind>::empty());
    lemma_order_step(all, 0);
    lemma_order_step(all, 1);
    lemma_order_step(all, 2);
    lemma_order_step(all, 3);
    assert(all.take(4) =~= all);
    assert(Seq::<DispatchKind>::empty() + step_if(all[0].0, all[0].1) =~= step_if(all[0].0, all[0].1));
}

/// Where kind `k` stands in a scan: repairs before replacements and,
/// within each, switches first exactly when they are prioritized.
pub open spec fn dispatch_rank(k: DispatchKind, prioritize_switches: bool) -> int {
    (if k.is_repair() { 0int } else { 2int }) + (if is_switch(k) == prioritize_switches { 0int } else { 1int })
}

/// The kinds of `s` stand in strictly increasing rank.
pub open spec fn rank_increasing(s: Seq<DispatchKind>, prioritize_switches: bool) -> bool {
    forall|i: int, j: int|
        0 <= i < j < s.len() ==> dispatch_rank(#[trigger] s[i], prioritize_switches) < dispatch_rank(
            #[trigger] s[j],
            prioritize_switches,
        )
}

proof fn lemma_append_step(s: Seq<DispatchKind>, k: DispatchKind, on: bool, prio: bool)
    requires
        rank_increasing(s, prio),
        forall|i: int| 0 <= i < s.len() ==> dispatch_rank(#[trigger] s[i], prio) < dispatch_rank(k, prio),
    ensures
        rank_increasing(s + step_if(k, on), prio),
        forall|i: int|
            0 <= i < (s + step_if(k, on)).len() ==> dispatch_rank(#[trigger] (s + step_if(k, on))[i], prio)
                <= dispatch_rank(k, prio),
        forall|x: DispatchKind| #[trigger] (s + step_if(k, on)).contains(x) <==> s.contains(x) || (on && x
            == k),
{
    let t = s + step_if(k, on);
    assert forall|x: DispatchKind| #[trigger] t.contains(x) implies s.contains(x) || (on && x == k) by {
        let i = choose|i: int| 0 <= i < t.len() && t[i] == x;
        if i < s.len() {
            assert(s[i] == x);
        }
    }
    assert forall|x: DispatchKind| s.contains(x) || (on && x == k) implies #[trigger] t.contains(x) by {
        if s.contains(x) {
            let i = choose|i: int| 0 <= i < s.len() && s[i] == x;
            assert(t[i] == x);
        } else {
            assert(t[s.len() as int] == x);
        }
    }
}

/// Which dispatches a scan works through: a kind is among the steps exactly
/// when its own setting is on, whatever `prioritize_switches` says; the
/// steps stand in strictly increasing rank, so no kind comes twice, all
/// repairs come before all replacements, and within each, switches come
/// first exactly when switches are prioritized. So `prioritize_switches`
/// only reorders.
pub proof fn lemma_dispatch_order_kinds(cfg: ScanConfig, k: DispatchKind)
    ensures
        dispatch_order(cfg).contains(k) <==> kind_enabled(cfg, k),
        rank_increasing(dispatch_order(cfg), cfg.prioritize_switches),
        dispatch_order(cfg).no_duplicates(),
{
    lemma_order_spelled_out(cfg);
    let prio = cfg.prioritize_switches;
    let e = Seq::<DispatchKind>::empty();
    let (k0, k1, k2, k3) = if prio {
        (DispatchKind::RepairSwitch, DispatchKind::RepairServer, DispatchKind::ReplaceSwitch, DispatchKind::ReplaceServer)
    } else {
        (DispatchKind::RepairServer, DispatchKind::RepairSwitch, DispatchKind::ReplaceServer, DispatchKind::ReplaceSwitch)
    };
    let s0 = e + step_if(k0, kind_enabled(cfg, k0));
    let s1 = s0 + step_if(k1, kind_enabled(cfg, k1));
    let s2 = s1 + step_if(k2, kind_enabled(cfg, k2));
    let s3 = s2 + step_if(k3, kind_enabled(cfg, k3));
    assert(e + step_if(k0, kind_enabled(cfg, k0)) =~= step_if(k0, kind_enabled(cfg, k0)));
    assert(s3 == dispatch_order(cfg));
    lemma_append_step(e, k0, kind_enabled(cfg, k0), prio);
    lemma_append_step(s0, k1, kind_enabled(cfg, k1), prio);
    lemma_append_step(s1, k2, kind_enabled(cfg, k2), prio);
    lemma_append_step(s2, k3, kind_enabled(cfg, k3), prio);
    let o = dispatch_order(cfg);
    assert forall|i: int, j: int| 0 <= i < o.len() && 0 <= j < o.len() && i != j implies o[i] != o[j] by {
        if i < j {
            assert(dispatch_rank(o[i], prio) < dispatch_rank(o[j], prio));
        } else {
            assert(dispatch_rank(o[j], prio) < dispatch_rank(o[i], prio));
        }
    }
}

/// A counter that logs every `LOG_EVERY_SCANS` scans: advanced by one, and
/// back to 0 when it reaches the period.
pub open spec fn tick_log_counter(c: u32) -> u32 {
    if c + 1 >= LOG_EVERY_SCANS { 0 } else { (c + 1) as u32 }
}

fn advance_log_counter(c: u32) -> (r: u32)
    ensures
        r == tick_log_counter(c),
{
    if c >= LOG_EVERY_SCANS - 1 { 0 } else { c + 1 }
}

/// A scan starts with the given settings. Returns whether any kind of
/// dispatch is enabled; the configuration log counter advances either way.
pub fn begin_scan(state: &mut NetWatchState, cfg: &ScanConfig) -> (go_on: bool)
    ensures
        go_on == (cfg.repair_broken_servers || cfg.repair_broken_switches || cfg.replace_eol_servers
            || cfg.replace_eol_switches),
        *final(state) == (NetWatchState {
            config_log_counter: tick_log_counter(old(state).config_log_counter),
            ..*old(state)
        }),
{
    state.config_log_counter = advance_log_counter(state.config_log_counter);
    cfg.repair_broken_servers || cfg.repair_broken_switches || cfg.replace_eol_servers
        || cfg.replace_eol_switches
}

/// The scan learns how many technicians are free. With none, the scan is
/// idle (the idle log counter advances) and stops.
pub fn check_technicians(state: &mut NetWatchState, free_techs: u32) -> (go_on: bool)
    ensures
        go_on == (free_techs > 0),
        go_on ==> *final(state) == *old(state),
        !go_on ==> *final(state) == (NetWatchState {
            idle_log_counter: tick_log_counter(old(state).idle_log_counter),
            ..*old(state)
        }),
{
    if free_techs == 0 {
        state.idle_log_counter = advance_log_counter(state.idle_log_counter);
        return false;
    }
    true
}

/// The dispatches of one scan: the enabled kinds in order, the one being
/// worked on, and how many dispatches succeeded.
#[derive(Debug)]
pub struct DispatchPlan {
    steps: Vec<DispatchKind>,
    current: usize,
    dispatched: u32,
    max_dispatches: u32,
    stopped: bool,
}

impl DispatchPlan {
    /// The kinds to work through, in order.
    pub closed spec fn steps(&self) -> Seq<DispatchKind> {
        self.steps@
    }

    /// Position of the kind being worked on.
    pub closed spec fn current(&self) -> nat {
        self.current as nat
    }

    /// Successful dispatches so far.
    pub closed spec fn dispatched(&self) -> u32 {
        self.dispatched
    }

    /// The scan's dispatch limit.
    pub closed spec fn max_dispatches(&self) -> u32 {
        self.max_dispatches
    }

    /// Whether the game reported that dispatching must stop.
    pub closed spec fn stopped(&self) -> bool {
        self.stopped
    }

    /// The dispatch count never passes the limit.
    pub closed spec fn wf(&self) -> bool {
        &&& self.dispatched <= self.max_dispatches
        &&& self.current <= self.steps@.len()
    }

    /// The dispatch to perform next, if any.
    pub open spec fn spec_next(&self) -> Option<DispatchKind> {
        if self.stopped() || self.current() >= self.steps().len() || self.dispatched()
            >= self.max_dispatches() {
            None
        } else {
            Some(self.steps()[self.current() as int])
        }
    }

    /// The dispatch to perform next: the current kind, until the limit is
    /// reached, the kinds are exhausted or the game said to stop.
    pub fn next(&self) -> (k: Option<DispatchKind>)
        requires
            self.wf(),
        ensures
            k == self.spec_next(),
    {
        if self.stopped || self.current >= self.steps.len() || self.dispatched >= self.max_dispatches {
            None
        } else {
            Some(self.steps[self.current])
        }
    }

    /// The game answered the dispatch of `kind`: `Some(1)` is a success
    /// (counted in the plan and the statistics), `Some(-1)` stops the scan,
    /// anything else means no more targets of that kind (see [`recorded`]).
    pub fn record(&mut self, state: &mut NetWatchState, kind: DispatchKind, result: Option<i32>)
        requires
            old(self).wf(),
            old(self).spec_next() == Some(kind),
            old(state).total_dispatches < u32::MAX,
            old(state).broken_repairs < u32::MAX,
            old(state).eol_replacements < u32::MAX,
        ensures
            final(self).wf(),
            recorded(*old(self), *old(state), *final(self), *final(state), kind, result),
    {
        match result {
            Some(1) => {
                self.dispatched = self.dispatched + 1;
                state.total_dispatches = state.total_dispatches + 1;
                match kind {
                    DispatchKind::RepairServer | DispatchKind::RepairSwitch => {
                        state.broken_repairs = state.broken_repairs + 1;
                    },
                    _ => {
                        state.eol_replacements = state.eol_replacements + 1;
                    },
                }
            },
            Some(-1) => {
                self.stopped = true;
            },
            _ => {
                assert(self.current < self.steps.len());
                self.current = self.current + 1;
            },
        }
    }
}

/// What recording the game's answer `result` to a dispatch of `kind` does
/// to the plan (`p0` to `p1`) and the statistics (`s0` to `s1`): a success
/// is counted in both; `Some(-1)` stops the plan; any other answer moves the
/// plan on to the next kind. The kinds and the limit stay.
pub open spec fn recorded(
    p0: DispatchPlan,
    s0: NetWatchState,
    p1: DispatchPlan,
    s1: NetWatchState,
    kind: DispatchKind,
    result: Option<i32>,
) -> bool {
    &&& p1.steps() == p0.steps()
    &&& p1.max_dispatches() == p0.max_dispatches()
    &&& result == Some(1i32) ==> p1.dispatched() == p0.dispatched() + 1 && p1.current()
        == p0.current() && !p1.stopped() && s1 == (NetWatchState {
        total_dispatches: (s0.total_dispatches + 1) as u32,
        broken_repairs: if kind.is_repair() {
            (s0.broken_repairs + 1) as u32
        } else {
            s0.broken_repairs
        },
        eol_replacements: if kind.is_repair() {
            s0.eol_replacements
        } else {
            (s0.eol_replacements + 1) as u32
        },
        ..s0
    })
    &&& result == Some(-1i32) ==> p1.stopped() && p1.dispatched() == p0.dispatched()
        && p1.current() == p0.current() && s1 == s0
    &&& result != Some(1i32) && result != Some(-1i32) ==> p1.current() == p0.current() + 1
        && p1.dispatched() == p0.dispatched() && !p1.stopped() && s1 == s0
}

/// How many of `results` are successes (`Some(1)`).
pub open spec fn successes(results: Seq<Option<i32>>) -> nat
    decreases results.len(),
{
    if results.len() == 0 {
        0
    } else {
        successes(results.drop_last()) + if results.last() == Some(1i32) {
            1nat
        } else {
            0nat
        }
    }
}

/// How many of `results` are successful dispatches of a repair.
pub open spec fn repair_successes(kinds: Seq<DispatchKind>, results: Seq<Option<i32>>) -> nat
    decreases results.len(),
{
    if results.len() == 0 {
        0
    } else {
        repair_successes(kinds, results.drop_last()) + if results.last() == Some(1i32)
            && kinds[results.len() - 1].is_repair() {
            1nat
        } else {
            0nat
        }
    }
}

/// One scan, dispatch by dispatch: the plan `plans[j]` (statistics
/// `stats[j]`) asked for `kinds[j]` and the game answered `results[j]`.
pub open spec fn scan_run(
    plans: Seq<DispatchPlan>,
    stats: Seq<NetWatchState>,
    kinds: Seq<DispatchKind>,
    results: Seq<Option<i32>>,
) -> bool {
    &&& plans.len() == kinds.len() + 1
    &&& stats.len() == kinds.len() + 1
    &&& results.len() == kinds.len()
    &&& plans[0].wf()
    &&& forall|j: int|
        #![trigger kinds[j]]
        0 <= j < kinds.len() ==> {
            &&& plans[j].spec_next() == Some(kinds[j])
            &&& recorded(plans[j], stats[j], plans[j + 1], stats[j + 1], kinds[j], results[j])
        }
}

proof fn lemma_scan_prefix(
    plans: Seq<DispatchPlan>,
    stats: Seq<NetWatchState>,
    kinds: Seq<DispatchKind>,
    results: Seq<Option<i32>>,
    k: int,
)
    requires
        scan_run(plans, stats, kinds, results),
        forall|j: int| #![trigger stats[j]] 0 <= j < kinds.len() ==> stats[j].total_dispatches < u32::MAX
            && stats[j].broken_repairs < u32::MAX && stats[j].eol_replacements < u32::MAX,
        0 <= k <= kinds.len(),
    ensures
        plans[k].steps() == plans[0].steps(),
        plans[k].max_dispatches() == plans[0].max_dispatches(),
        plans[k].dispatched() == plans[0].dispatched() + successes(results.take(k)),
        stats[k].total_dispatches == stats[0].total_dispatches + successes(results.take(k)),
        stats[k].broken_repairs == stats[0].broken_repairs + repair_successes(kinds, results.take(k)),
        stats[k].broken_repairs + stats[k].eol_replacements == stats[0].broken_repairs
            + stats[0].eol_replacements + successes(results.take(k)),
        stats[k].hired == stats[0].hired,
    decreases k,
{
    if k > 0 {
        lemma_scan_prefix(plans, stats, kinds, results, k - 1);
        let j = k - 1;
        assert(plans[j].spec_next() == Some(kinds[j]));
        assert(results.take(k).drop_last() =~= results.take(j));
        assert(results.take(k).last() == results[j]);
        assert(results.take(k).len() - 1 == j);
        assert(repair_successes(kinds, results.take(k)) == repair_successes(kinds, results.take(j))
            + if results[j] == Some(1i32) && kinds[j].is_repair() { 1nat } else { 0nat });
    } else {
        assert(results.take(0) =~= Seq::<Option<i32>>::empty());
    }
}

/// A whole scan: working through a fresh plan, every dispatch asked for is
/// the plan's current kind, the kinds are taken in the plan's order (the
/// position only moves forward), nothing is asked after the game said to
/// stop, and at the end the plan and the statistics have counted exactly
/// the successful dispatches (repairs among them as repairs), never more
/// than the limit.
pub proof fn lemma_scan_dispatches(
    plans: Seq<DispatchPlan>,
    stats: Seq<NetWatchState>,
    kinds: Seq<DispatchKind>,
    results: Seq<Option<i32>>,
)
    requires
        scan_run(plans, stats, kinds, results),
        plans[0].current() == 0,
        plans[0].dispatched() == 0,
        !plans[0].stopped(),
        forall|j: int| #![trigger stats[j]] 0 <= j < kinds.len() ==> stats[j].total_dispatches < u32::MAX
            && stats[j].broken_repairs < u32::MAX && stats[j].eol_replacements < u32::MAX,
    ensures
        forall|j: int|
            #![trigger kinds[j]]
            0 <= j < kinds.len() ==> kinds[j] == plans[0].steps()[plans[j].current() as int]
                && plans[j].current() <= plans[j + 1].current(),
        forall|j: int| #![trigger results[j]] 0 <= j < kinds.len() - 1 ==> results[j] != Some(-1i32),
        plans.last().dispatched() == successes(results),
        successes(results) <= plans[0].max_dispatches(),
        stats.last().total_dispatches == stats[0].total_dispatches + successes(results),
        stats.last().broken_repairs == stats[0].broken_repairs + repair_successes(kinds, results),
        stats.last().broken_repairs + stats.last().eol_replacements == stats[0].broken_repairs
            + stats[0].eol_replacements + successes(results),
{
    let n = kinds.len() as int;
    assert forall|j: int|
        #![trigger kinds[j]]
        0 <= j < kinds.len() implies kinds[j] == plans[0].steps()[plans[j].current() as int]
            && plans[j].current() <= plans[j + 1].current() by {
        lemma_scan_prefix(plans, stats, kinds, results, j);
        assert(plans[j].spec_next() == Some(kinds[j]));
    }
    assert forall|j: int| #![trigger results[j]] 0 <= j < kinds.len() - 1 implies results[j] != Some(
        -1i32,
    ) by {
        assert(plans[j].spec_next() == Some(kinds[j]));
        assert(plans[j + 1].spec_next() == Some(kinds[j + 1]));
    }
    lemma_scan_prefix(plans, stats, kinds, results, n);
    assert(results.take(n) =~= results);
    if n > 0 {
        lemma_scan_prefix(plans, stats, kinds, results, n - 1);
        assert(plans[n - 1].spec_next() == Some(kinds[n - 1]));
    }
    assert(plans[n].dispatched() <= plans[n].max_dispatches()) by {
        if n > 0 {
            assert(plans[n - 1].spec_next() == Some(kinds[n - 1]));
        }
    }
}

/// The enabled kinds of `cfg`, in dispatch order.
fn ordered_kinds(cfg: &ScanConfig) -> (v: Vec<DispatchKind>)
    ensures
        v@ == dispatch_order(*cfg),
{
    let all = if cfg.prioritize_switches {
        [
            (DispatchKind::RepairSwitch, cfg.repair_broken_switches),
            (DispatchKind::RepairServer, cfg.repair_broken_servers),
            (DispatchKind::ReplaceSwitch, cfg.replace_eol_switches),
            (DispatchKind::ReplaceServer, cfg.replace_eol_servers),
        ]
    } else {
        [
            (DispatchKind::RepairServer, cfg.repair_broken_servers),
            (DispatchKind::RepairSwitch, cfg.repair_broken_switches),
            (DispatchKind::ReplaceServer, cfg.replace_eol_servers),
            (DispatchKind::ReplaceSwitch, cfg.replace_eol_switches),
        ]
    };
    let ghost all_s = if cfg.prioritize_switches {
        seq![
            (DispatchKind::RepairSwitch, cfg.repair_broken_switches),
            (DispatchKind::RepairServer, cfg.repair_broken_servers),
            (DispatchKind::ReplaceSwitch, cfg.replace_eol_switches),
            (DispatchKind::ReplaceServer, cfg.replace_eol_servers),
        ]
    } else {
        seq![
            (DispatchKind::RepairServer, cfg.repair_broken_servers),
            (DispatchKind::RepairSwitch, cfg.repair_broken_switches),
            (DispatchKind::ReplaceServer, cfg.replace_eol_servers),
            (DispatchKind::ReplaceSwitch, cfg.replace_eol_switches),
        ]
    };
    assert(all@ =~= all_s);
    let mut v: Vec<DispatchKind> = Vec::new();
    let mut i: usize = 0;
    while i < 4
        invariant
            i <= 4,
            all@ == all_s,
            v@ == all_s.take(i as int).filter(|p: (DispatchKind, bool)| p.1).map_values(
                |p: (DispatchKind, bool)| p.0,
            ),
        decreases 4 - i,
    {
        let ghost pre = all_s.take(i as int);
        proof {
            assert(all_s.take(i as int + 1).drop_last() =~= pre);
            reveal_with_fuel(Seq::<(DispatchKind, bool)>::filter, 1);
        }
        if all[i].1 {
            v.push(all[i].0);
            proof {
                assert(v@ =~= all_s.take(i as int + 1).filter(|p: (DispatchKind, bool)| p.1).map_values(
                    |p: (DispatchKind, bool)| p.0,
                ));
            }
        } else {
            proof {
                assert(v@ =~= all_s.take(i as int + 1).filter(|p: (DispatchKind, bool)| p.1).map_values(
                    |p: (DispatchKind, bool)| p.0,
                ));
            }
        }
        i = i + 1;
    }
    proof {
        assert(all_s.take(4) =~= all_s);
    }
    v
}

/// The scan learns the device counts. With nothing to do the scan is idle
/// (the idle log counter advances) and no plan is made; otherwise the idle
/// counter resets and the plan works through the enabled kinds in order, up
/// to `cfg.max_dispatches` successful dispatches.
pub fn plan_dispatches(state: &mut NetWatchState, cfg: &ScanConfig, counts: &DeviceCounts) -> (plan: Option<DispatchPlan>)
    requires
        counts.broken_servers + counts.broken_switches + counts.eol_servers + counts.eol_switches
            <= u32::MAX,
    ensures
        ({
            let total = counts.broken_servers + counts.broken_switches + counts.eol_servers
                + counts.eol_switches;
            &&& total == 0 ==> plan is None && *final(state) == (NetWatchState {
                idle_log_counter: tick_log_counter(old(state).idle_log_counter),
                ..*old(state)
            })
            &&& total != 0 ==> (plan matches Some(p) && p.wf() && p.steps() == dispatch_order(*cfg)
                && p.current() == 0 && p.dispatched() == 0 && p.max_dispatches() == cfg.max_dispatches
                && !p.stopped()) && *final(state) == (NetWatchState { idle_log_counter: 0, ..*old(state) })
        }),
{
    let total = counts.broken_servers + counts.broken_switches + counts.eol_servers + counts.eol_switches;
    if total == 0 {
        state.idle_log_counter = advance_log_counter(state.idle_log_counter);
        return None;
    }
    state.idle_log_counter = 0;
    Some(DispatchPlan {
        steps: ordered_kinds(cfg),
        current: 0,
        dispatched: 0,
        max_dispatches: cfg.max_dispatches,
        stopped: false,
    })
}

/// A scan never makes more successful dispatches than its limit.
pub proof fn lemma_dispatches_within_limit(p: DispatchPlan)
    requires
        p.wf(),
    ensures
        p.dispatched() <= p.max_dispatches(),
{
}

} // verus!
