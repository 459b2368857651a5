//! The reboot-and-recovery cycle of one host, as a state machine.
//!
//! The machine performs nothing itself. Each step takes whether the action
//! issued last succeeded and answers with the next state and the next action;
//! the caller performs the action and comes back with how it went.

use vstd::prelude::*;

verus! {

/// Time to let a host go down after a reboot was issued, before probing.
pub const REBOOT_WAIT: u64 = 30;

/// Time between a failed probe and the next one.
pub const PROBE_BACKOFF: u64 = 10;

/// How many probes are made before a host is given up.
pub const MAX_ATTEMPTS: u8 = 10;

/// Where the recovery of one host stands.
#[derive(Clone, Copy, Debug, PartialEq, Eq)]
pub enum RecoveryState {
    /// Nothing was issued yet.
    Idle,
    /// The reboot command is running.
    Rebooting,
    /// The fixed wait after the reboot is running.
    WaitingFixed,
    /// Probe number `attempt` is running.
    Polling { attempt: u8 },
    /// The wait after failed probe number `attempt` is running.
    Backoff { attempt: u8 },
    /// A single version check is running; no reboot was issued.
    Checking,
    /// The host answered probe number `attempts`.
    Recovered { attempts: u8 },
    /// The host answered no probe.
    Exhausted,
    /// The single version check failed.
    Unconfirmed,
}

/// What the caller is to do next.
#[derive(Clone, Copy, Debug, PartialEq, Eq)]
pub enum RecoveryAction {
    /// Issue the reboot command.
    Reboot,
    /// Wait this long.
    Sleep(u64),
    /// Run the liveness probe.
    Probe,
    /// Nothing: the machine has reached a final state.
    Stop,
}

impl RecoveryState {
    /// Probe numbers stay within the retry budget, and a wait follows only a
    /// probe that was not the last.
    pub open spec fn wf(self) -> bool {
        match self {
            RecoveryState::Polling { attempt } => 1 <= attempt <= MAX_ATTEMPTS,
            RecoveryState::Backoff { attempt } => 1 <= attempt < MAX_ATTEMPTS,
            RecoveryState::Recovered { attempts } => 1 <= attempts <= MAX_ATTEMPTS,
            _ => true,
        }
    }

    /// The three states that no step leaves.
    pub open spec fn is_final(self) -> bool {
        self is Recovered || self is Exhausted || self is Unconfirmed
    }

    pub fn is_finished(&self) -> (r: bool)
        ensures
            r == self.is_final(),
    {
        match self {
            RecoveryState::Recovered { .. } => true,
            RecoveryState::Exhausted => true,
            RecoveryState::Unconfirmed => true,
            _ => false,
        }
    }
}

/// One transition. `remote` says whether the host is reached over the
/// network; `ok` says whether the action issued last succeeded.
///
/// From `Idle` a remote host is rebooted, while for the local machine the
/// cycle is skipped and a single version check is made. How the reboot
/// command ended is not looked at: the connection drops when it works. The
/// fixed wait follows, then up to `MAX_ATTEMPTS` probes, with a wait after
/// each failed probe but the last. The first probe that succeeds ends the
/// cycle.
pub open spec fn step_spec(state: RecoveryState, remote: bool, ok: bool) -> (
    RecoveryState,
    RecoveryAction,
) {
    match state {
        RecoveryState::Idle => if remote {
            (RecoveryState::Rebooting, RecoveryAction::Reboot)
        } else {
            (RecoveryState::Checking, RecoveryAction::Probe)
        },
        RecoveryState::Rebooting => (
            RecoveryState::WaitingFixed,
            RecoveryAction::Sleep(REBOOT_WAIT),
        ),
        RecoveryState::WaitingFixed => (
            RecoveryState::Polling { attempt: 1 },
            RecoveryAction::Probe,
        ),
        RecoveryState::Polling { attempt } => if ok {
            (RecoveryState::Recovered { attempts: attempt }, RecoveryAction::Stop)
        } else if attempt >= MAX_ATTEMPTS {
            (RecoveryState::Exhausted, RecoveryAction::Stop)
        } else {
            (RecoveryState::Backoff { attempt }, RecoveryAction::Sleep(PROBE_BACKOFF))
        },
        RecoveryState::Backoff { attempt } => if attempt >= MAX_ATTEMPTS {
            (RecoveryState::Exhausted, RecoveryAction::Stop)
        } else {
            (RecoveryState::Polling { attempt: (attempt + 1) as u8 }, RecoveryAction::Probe)
        },
        RecoveryState::Checking => if ok {
            (RecoveryState::Recovered { attempts: 1 }, RecoveryAction::Stop)
        } else {
            (RecoveryState::Unconfirmed, RecoveryAction::Stop)
        },
        RecoveryState::Recovered { .. } => (state, RecoveryAction::Stop),
        RecoveryState::Exhausted => (state, RecoveryAction::Stop),
        RecoveryState::Unconfirmed => (state, RecoveryAction::Stop),
    }
}

/// Takes one transition.
pub fn step(state: RecoveryState, remote: bool, ok: bool) -> (r: (RecoveryState, RecoveryAction))
    ensures
        r == step_spec(state, remote, ok),
        state.wf() ==> r.0.wf(),
        state.is_final() ==> r.0 == state && r.1 == RecoveryAction::Stop,
        (r.1 == RecoveryAction::Stop) == r.0.is_final(),
        r.1 == RecoveryAction::Reboot ==> remote && state == RecoveryState::Idle,
{
    match state {
        RecoveryState::Idle => {
            if remote {
                (RecoveryState::Rebooting, RecoveryAction::Reboot)
            } else {
                (RecoveryState::Checking, RecoveryAction::Probe)
            }
        },
        RecoveryState::Rebooting => (
            RecoveryState::WaitingFixed,
            RecoveryAction::Sleep(REBOOT_WAIT),
        ),
        RecoveryState::WaitingFixed => (
            RecoveryState::Polling { attempt: 1 },
            RecoveryAction::Probe,
        ),
        RecoveryState::Polling { attempt } => {
            if ok {
                (RecoveryState::Recovered { attempts: attempt }, RecoveryAction::Stop)
            } else if attempt >= MAX_ATTEMPTS {
                (RecoveryState::Exhausted, RecoveryAction::Stop)
            } else {
                (RecoveryState::Backoff { attempt }, RecoveryAction::Sleep(PROBE_BACKOFF))
            }
        },
        RecoveryState::Backoff { attempt } => {
            if attempt >= MAX_ATTEMPTS {
                (RecoveryState::Exhausted, RecoveryAction::Stop)
            } else {
                (RecoveryState::Polling { attempt: attempt + 1 }, RecoveryAction::Probe)
            }
        },
        RecoveryState::Checking => {
            if ok {
                (RecoveryState::Recovered { attempts: 1 }, RecoveryAction::Stop)
            } else {
                (RecoveryState::Unconfirmed, RecoveryAction::Stop)
            }
        },
        RecoveryState::Recovered { .. } => (state, RecoveryAction::Stop),
        RecoveryState::Exhausted => (state, RecoveryAction::Stop),
        RecoveryState::Unconfirmed => (state, RecoveryAction::Stop),
    }
}

/// The state after feeding the machine `results`, one per step, in order.
pub open spec fn run(state: RecoveryState, remote: bool, results: Seq<bool>) -> RecoveryState
    decreases results.len(),
{
    if results.len() == 0 {
        state
    } else {
        run(step_spec(state, remote, results[0]).0, remote, results.drop_first())
    }
}

/// The actions that the machine asks for while it is fed `results`.
pub open spec fn trace(state: RecoveryState, remote: bool, results: Seq<bool>) -> Seq<
    RecoveryAction,
>
    decreases results.len(),
{
    if results.len() == 0 {
        Seq::<RecoveryAction>::empty()
    } else {
        seq![step_spec(state, remote, results[0]).1] + trace(
            step_spec(state, remote, results[0]).0,
            remote,
            results.drop_first(),
        )
    }
}

/// `n` rounds of a wait followed by a probe.
pub open spec fn retries(n: nat) -> Seq<RecoveryAction> {
    Seq::new(
        2 * n,
        |i: int|
            if i % 2 == 0 {
                RecoveryAction::Sleep(PROBE_BACKOFF)
            } else {
                RecoveryAction::Probe
            },
    )
}

/// `results` is what the machine sees while probe after probe fails `fails`
/// times: each failed probe, then how the wait after it ended, which may be
/// anything.
pub open spec fn failing_rounds(results: Seq<bool>, fails: nat) -> bool {
    forall|i: int| 0 <= i < fails ==> 2 * i < results.len() && !#[trigger] results[2 * i]
}

/// While probe number `k` is running: if it and the next `fails - 1` probes
/// fail and the one after them succeeds, the host counts as recovered at
/// probe `k + fails`, after `fails` rounds of wait and probe, and the
/// machine then stops.
pub proof fn lemma_polling_recovers(k: u8, fails: nat, results: Seq<bool>)
    requires
        1 <= k,
        k + fails <= MAX_ATTEMPTS,
        results.len() == 2 * fails + 1,
        failing_rounds(results, fails),
        results[2 * (fails as int)],
    ensures
        run(RecoveryState::Polling { attempt: k }, true, results) == (RecoveryState::Recovered {
            attempts: (k + fails) as u8,
        }),
        trace(RecoveryState::Polling { attempt: k }, true, results) == retries(fails).push(
            RecoveryAction::Stop,
        ),
    decreases fails,
{
    let start = RecoveryState::Polling { attempt: k };
    reveal_with_fuel(run, 3);
    reveal_with_fuel(trace, 3);
    if fails == 0 {
        assert(results.drop_first().len() == 0);
        assert(trace(start, true, results) =~= retries(0).push(RecoveryAction::Stop));
    } else {
        assert(!results[2 * 0int]);
        let rest = results.drop_first().drop_first();
        let next = RecoveryState::Polling { attempt: (k + 1) as u8 };
        assert(failing_rounds(rest, (fails - 1) as nat)) by {
            assert forall|i: int| 0 <= i < fails - 1 implies 2 * i < rest.len() && !#[trigger] rest[2 * i] by {
                assert(rest[2 * i] == results[2 * (i + 1)]);
            }
        }
        assert(rest[2 * (fails - 1)] == results[2 * (fails as int)]);
        lemma_polling_recovers((k + 1) as u8, (fails - 1) as nat, rest);
        assert(run(start, true, results) == run(next, true, rest));
        assert(trace(start, true, results) == seq![
            RecoveryAction::Sleep(PROBE_BACKOFF),
            RecoveryAction::Probe,
        ] + trace(next, true, rest)) by {
            assert(seq![RecoveryAction::Sleep(PROBE_BACKOFF)] + (seq![RecoveryAction::Probe]
                + trace(next, true, rest)) =~= seq![
                RecoveryAction::Sleep(PROBE_BACKOFF),
                RecoveryAction::Probe,
            ] + trace(next, true, rest));
        }
        assert(seq![RecoveryAction::Sleep(PROBE_BACKOFF), RecoveryAction::Probe] + retries(
            (fails - 1) as nat,
        ).push(RecoveryAction::Stop) =~= retries(fails).push(RecoveryAction::Stop));
    }
}

/// While probe number `k` is running: if it and every probe after it fail,
/// the machine makes the probes up to number `MAX_ATTEMPTS`, with a wait
/// before each of them and none after the last, and gives the host up.
pub proof fn lemma_polling_exhausts(k: u8, results: Seq<bool>)
    requires
        1 <= k <= MAX_ATTEMPTS,
        results.len() == 2 * (MAX_ATTEMPTS - k) + 1,
        failing_rounds(results, (MAX_ATTEMPTS - k + 1) as nat),
    ensures
        run(RecoveryState::Polling { attempt: k }, true, results) == RecoveryState::Exhausted,
        trace(RecoveryState::Polling { attempt: k }, true, results) == retries(
            (MAX_ATTEMPTS - k) as nat,
        ).push(RecoveryAction::Stop),
    decreases MAX_ATTEMPTS - k,
{
    let start = RecoveryState::Polling { attempt: k };
    reveal_with_fuel(run, 3);
    reveal_with_fuel(trace, 3);
    assert(!results[2 * 0int]);
    if k == MAX_ATTEMPTS {
        assert(results.drop_first().len() == 0);
        assert(trace(start, true, results) =~= retries(0).push(RecoveryAction::Stop));
    } else {
        let rest = results.drop_first().drop_first();
        let next = RecoveryState::Polling { attempt: (k + 1) as u8 };
        assert(failing_rounds(rest, (MAX_ATTEMPTS - k) as nat)) by {
            assert forall|i: int| 0 <= i < MAX_ATTEMPTS - k implies 2 * i < rest.len() && !#[trigger] rest[2 * i] by {
                assert(rest[2 * i] == results[2 * (i + 1)]);
            }
        }
        lemma_polling_exhausts((k + 1) as u8, rest);
        assert(run(start, true, results) == run(next, true, rest));
        assert(trace(start, true, results) == seq![
            RecoveryAction::Sleep(PROBE_BACKOFF),
            RecoveryAction::Probe,
        ] + trace(next, true, rest)) by {
            assert(seq![RecoveryAction::Sleep(PROBE_BACKOFF)] + (seq![RecoveryAction::Probe]
                + trace(next, true, rest)) =~= seq![
                RecoveryAction::Sleep(PROBE_BACKOFF),
                RecoveryAction::Probe,
            ] + trace(next, true, rest));
        }
        assert(seq![RecoveryAction::Sleep(PROBE_BACKOFF), RecoveryAction::Probe] + retries(
            (MAX_ATTEMPTS - k - 1) as nat,
        ).push(RecoveryAction::Stop) =~= retries((MAX_ATTEMPTS - k) as nat).push(
            RecoveryAction::Stop,
        ));
    }
}

/// The three actions that open the cycle on a remote host.
pub open spec fn opening() -> Seq<RecoveryAction> {
    seq![RecoveryAction::Reboot, RecoveryAction::Sleep(REBOOT_WAIT), RecoveryAction::Probe]
}

/// From the start, on a remote host: if the probe fails `fails` times, fewer
/// than `MAX_ATTEMPTS`, and then succeeds, the machine reports the host
/// recovered at probe `fails + 1`. It has asked for the reboot, the fixed
/// wait, `fails + 1` probes with a wait before each but the first, and then
/// for nothing more.
pub proof fn lemma_recovers_after_failures(fails: nat, results: Seq<bool>)
    requires
        fails < MAX_ATTEMPTS,
        results.len() == 2 * fails + 4,
        failing_rounds(results.skip(3), fails),
        results[2 * (fails as int) + 3],
    ensures
        run(RecoveryState::Idle, true, results) == (RecoveryState::Recovered {
            attempts: (fails + 1) as u8,
        }),
        trace(RecoveryState::Idle, true, results) == opening() + retries(fails).push(
            RecoveryAction::Stop,
        ),
{
    reveal_with_fuel(run, 4);
    reveal_with_fuel(trace, 4);
    let rest = results.drop_first().drop_first().drop_first();
    assert(rest =~= results.skip(3));
    lemma_polling_recovers(1, fails, rest);
    let tail = trace(RecoveryState::Polling { attempt: 1 }, true, rest);
    assert(trace(RecoveryState::Idle, true, results) =~= opening() + tail);
}

/// From the start, on a remote host: if every probe fails, the machine makes
/// exactly `MAX_ATTEMPTS` probes, with a wait between two probes and none
/// after the last, and reports the host as given up.
pub proof fn lemma_gives_up_after_budget(results: Seq<bool>)
    requires
        results.len() == 2 * MAX_ATTEMPTS + 2,
        failing_rounds(results.skip(3), MAX_ATTEMPTS as nat),
    ensures
        run(RecoveryState::Idle, true, results) == RecoveryState::Exhausted,
        trace(RecoveryState::Idle, true, results) == opening() + retries(
            (MAX_ATTEMPTS - 1) as nat,
        ).push(RecoveryAction::Stop),
{
    reveal_with_fuel(run, 4);
    reveal_with_fuel(trace, 4);
    let rest = results.drop_first().drop_first().drop_first();
    assert(rest =~= results.skip(3));
    lemma_polling_exhausts(1, rest);
    let tail = trace(RecoveryState::Polling { attempt: 1 }, true, rest);
    assert(trace(RecoveryState::Idle, true, results) =~= opening() + tail);
}

/// A final state is never left, and from it the machine asks for nothing.
pub proof fn lemma_final_absorbs(state: RecoveryState, remote: bool, results: Seq<bool>)
    requires
        state.is_final(),
    ensures
        run(state, remote, results) == state,
        trace(state, remote, results).len() == results.len(),
        forall|i: int|
            0 <= i < results.len() ==> trace(state, remote, results)[i] == RecoveryAction::Stop,
    decreases results.len(),
{
    if results.len() > 0 {
        lemma_final_absorbs(state, remote, results.drop_first());
    }
}

/// On the local machine no step ever asks for a reboot, whatever the state
/// and however the steps before went.
pub proof fn lemma_local_never_reboots(state: RecoveryState, results: Seq<bool>)
    ensures
        trace(state, false, results).len() == results.len(),
        forall|i: int|
            0 <= i < results.len() ==> trace(state, false, results)[i] != RecoveryAction::Reboot,
    decreases results.len(),
{
    if results.len() > 0 {
        lemma_local_never_reboots(step_spec(state, false, results[0]).0, results.drop_first());
    }
}

/// On the local machine the cycle is one version check, and how that check
/// went decides alone what is reported.
pub proof fn lemma_local_is_decided_by_check(first: bool, check_ok: bool)
    ensures
        trace(RecoveryState::Idle, false, seq![first, check_ok]) == seq![
            RecoveryAction::Probe,
            RecoveryAction::Stop,
        ],
        run(RecoveryState::Idle, false, seq![first, check_ok]) == (if check_ok {
            RecoveryState::Recovered { attempts: 1 }
        } else {
            RecoveryState::Unconfirmed
        }),
{
    reveal_with_fuel(run, 3);
    reveal_with_fuel(trace, 3);
    let results = seq![first, check_ok];
    assert(results.drop_first().drop_first().len() == 0);
    assert(trace(RecoveryState::Idle, false, results) =~= seq![
        RecoveryAction::Probe,
        RecoveryAction::Stop,
    ]);
}

/// Every state that a step reaches from a state within the retry budget is
/// within it too.
pub proof fn lemma_budget_is_kept(state: RecoveryState, remote: bool, results: Seq<bool>)
    requires
        state.wf(),
    ensures
        run(state, remote, results).wf(),
    decreases results.len(),
{
    if results.len() > 0 {
        lemma_budget_is_kept(step_spec(state, remote, results[0]).0, remote, results.drop_first());
    }
}

} // verus!
