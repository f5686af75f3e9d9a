use vstd::prelude::*;

use crate::supervisor::{
    after_claim, after_spawn, after_stop, claim_refused, reported_pid, reports_running,
    stop_refused, Mode,
};

verus! {

/// A start asked for twice with no stop between: once the first has
/// claimed the supervisor, and again once its child is tracked, the second
/// is refused, nothing changes, and the status still reports a running child.
pub proof fn lemma_second_start_refused(m: Mode, pid: u32)
    requires
        m is Idle,
    ensures
        after_claim(m) is Starting,
        claim_refused(after_claim(m)),
        after_claim(after_claim(m)) == after_claim(m),
        claim_refused(after_spawn(Some(pid))),
        after_claim(after_spawn(Some(pid))) == after_spawn(Some(pid)),
        reports_running(after_claim(after_spawn(Some(pid)))),
{
}

/// A stop asked for while idle is refused and the status stays "not running".
pub proof fn lemma_stop_when_idle_refused(m: Mode)
    requires
        m is Idle,
    ensures
        stop_refused(m),
        after_stop(m) == m,
        !reports_running(after_stop(m)),
{
}

/// After a start succeeds, the status reports a running child and the
/// identifier query reports the identifier that the start returned.
pub proof fn lemma_started_reports_pid(m: Mode, pid: u32)
    requires
        m is Idle,
    ensures
        !claim_refused(m),
        after_claim(m) is Starting,
        reports_running(after_spawn(Some(pid))),
        reported_pid(after_spawn(Some(pid))) == Some(pid),
{
}

/// After a stop succeeds, the status reports no running child and the
/// identifier query reports nothing.
pub proof fn lemma_stopped_reports_nothing(m: Mode)
    requires
        !stop_refused(m),
    ensures
        after_stop(m) is Idle,
        !reports_running(after_stop(m)),
        reported_pid(after_stop(m)) is None,
{
}

/// One step of the starts that callers make concurrently: a claim, or the
/// settling of a claimed start's spawn.
#[derive(Debug, Clone, Copy, PartialEq, Eq, Structural)]
pub enum StartEvent {
    Claim,
    Spawned(u32),
    SpawnFailed,
}

/// The mode after one event.
pub open spec fn apply(m: Mode, e: StartEvent) -> Mode {
    match e {
        StartEvent::Claim => after_claim(m),
        StartEvent::Spawned(pid) => after_spawn(Some(pid)),
        StartEvent::SpawnFailed => after_spawn(None),
    }
}

/// Whether every settling event in `evs`, applied from `m`, comes while a
/// claimed start is outstanding, as `finish_start` requires.
pub open spec fn settles_when_claimed(m: Mode, evs: Seq<StartEvent>) -> bool
    decreases evs.len(),
{
    evs.len() == 0 || {
        &&& (evs[0] is Claim || m is Starting)
        &&& settles_when_claimed(apply(m, evs[0]), evs.drop_first())
    }
}

/// How many claims in `evs`, applied from `m`, succeed, each of them
/// leading to a spawn.
pub open spec fn claims_won(m: Mode, evs: Seq<StartEvent>) -> nat
    decreases evs.len(),
{
    if evs.len() == 0 {
        0
    } else {
        (if evs[0] is Claim && m is Idle { 1nat } else { 0nat }) + claims_won(
            apply(m, evs[0]),
            evs.drop_first(),
        )
    }
}

/// How many spawns in `evs` fail.
pub open spec fn spawns_failed(evs: Seq<StartEvent>) -> nat
    decreases evs.len(),
{
    if evs.len() == 0 {
        0
    } else {
        (if evs[0] is SpawnFailed { 1nat } else { 0nat }) + spawns_failed(evs.drop_first())
    }
}

/// How many child handles `evs` stores.
pub open spec fn handles_stored(evs: Seq<StartEvent>) -> nat
    decreases evs.len(),
{
    if evs.len() == 0 {
        0
    } else {
        (if evs[0] is Spawned { 1nat } else { 0nat }) + handles_stored(evs.drop_first())
    }
}

proof fn lemma_run_bounds(m: Mode, evs: Seq<StartEvent>)
    requires
        settles_when_claimed(m, evs),
    ensures
        claims_won(m, evs) + (if m is Idle { 0nat } else { 1nat }) <= spawns_failed(evs) + 1,
        handles_stored(evs) + (if m is Running { 1nat } else { 0nat }) <= 1,
    decreases evs.len(),
{
    if evs.len() > 0 {
        lemma_run_bounds(apply(m, evs[0]), evs.drop_first());
    }
}

/// Starts made concurrently from an idle supervisor, with no stop among
/// them, spawn at most one child that is not accounted for by a failed
/// spawn, and store at most one child handle: every other start is
/// refused before it spawns.
pub proof fn lemma_concurrent_starts_single_child(m: Mode, evs: Seq<StartEvent>)
    requires
        m is Idle,
        settles_when_claimed(m, evs),
    ensures
        claims_won(m, evs) <= spawns_failed(evs) + 1,
        handles_stored(evs) <= 1,
{
    lemma_run_bounds(m, evs);
}

/// Any number of starts whose claims all come before a spawn settles: from
/// an idle supervisor exactly one of them wins.
pub proof fn lemma_one_of_simultaneous_starts_wins(m: Mode, n: nat)
    requires
        m is Idle,
        n >= 1,
    ensures
        claims_won(m, Seq::new(n, |i: int| StartEvent::Claim)) == 1,
{
    lemma_claims_from_starting((n - 1) as nat);
    let evs = Seq::new(n, |i: int| StartEvent::Claim);
    assert(evs.drop_first() =~= Seq::new((n - 1) as nat, |i: int| StartEvent::Claim));
}

proof fn lemma_claims_from_starting(n: nat)
    ensures
        claims_won(Mode::Starting, Seq::new(n, |i: int| StartEvent::Claim)) == 0,
    decreases n,
{
    if n > 0 {
        lemma_claims_from_starting((n - 1) as nat);
        let evs = Seq::new(n, |i: int| StartEvent::Claim);
        assert(evs.drop_first() =~= Seq::new((n - 1) as nat, |i: int| StartEvent::Claim));
    }
}

} // verus!
