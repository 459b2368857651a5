//! One host's deployment as a state machine, the fleet of such machines, and
//! the outcome report.
//!
//! A task is advanced with the result of the action that it asked for last
//! and answers with the next action. Each host has a state of its own and no
//! step of one host reads or writes the state of another.

use vstd::prelude::*;
use vstd::string::*;
use crate::args::Mode;
use crate::args::ModeModel;
use crate::args::Operation;
use crate::commands::probe_command;
use crate::commands::probe_spec;
use crate::commands::reboot_command;
use crate::commands::reboot_word;
use crate::commands::host_command;
use crate::commands::host_command_spec;
use crate::commands::ssh_spec;
use crate::commands::Invocation;
use crate::commands::InvocationModel;
use crate::commands::Tools;
use crate::config::CfgObj;
use crate::config::Host;
use crate::config::HostModel;
use crate::recovery::step;
use crate::recovery::step_spec;
use crate::recovery::RecoveryAction;
use crate::recovery::RecoveryState;
use crate::recovery::MAX_ATTEMPTS;
use crate::recovery::PROBE_BACKOFF;
use crate::run_util::ProcessError;

verus! {

/// Why the deployment of a host failed.
#[derive(Clone, Copy, Debug, PartialEq, Eq)]
pub enum DeployError {
    /// The inventory has no host of that name.
    HostNotFound,
    /// A command could not be started or exited with a failure.
    Process(ProcessError),
    /// The host was rebooted and answered none of the probes.
    RecoveryExhausted,
}

impl DeployError {
    /// The cause in words.
    pub open spec fn message_spec(self) -> Seq<char> {
        match self {
            DeployError::HostNotFound => "host not found"@,
            DeployError::Process(e) => e.message_spec(),
            DeployError::RecoveryExhausted => "host did not come back after reboot"@,
        }
    }

    /// The cause in words.
    pub fn message(&self) -> (r: String)
        ensures
            r@ == self.message_spec(),
    {
        match self {
            DeployError::HostNotFound => String::from_str("host not found"),
            DeployError::Process(e) => e.message(),
            DeployError::RecoveryExhausted => String::from_str(
                "host did not come back after reboot",
            ),
        }
    }
}

/// How the deployment of one host ended.
#[derive(Debug)]
pub enum DeployOutcome {
    /// It worked; with the version that the host reported afterwards, where
    /// it was asked for one.
    Success(Option<String>),
    Failure(DeployError),
}

/// A `DeployOutcome` with its version as a sequence of characters.
pub enum OutcomeModel {
    Success(Option<Seq<char>>),
    Failure(DeployError),
}

impl View for DeployOutcome {
    type V = OutcomeModel;

    open spec fn view(&self) -> OutcomeModel {
        match *self {
            DeployOutcome::Success(Some(version)) => OutcomeModel::Success(Some(version@)),
            DeployOutcome::Success(None) => OutcomeModel::Success(None),
            DeployOutcome::Failure(e) => OutcomeModel::Failure(e),
        }
    }
}

impl OutcomeModel {
    /// What the report says of the outcome: the version, `Success` where
    /// there is none, or the cause of the failure.
    pub open spec fn detail(self) -> Seq<char> {
        match self {
            OutcomeModel::Success(Some(version)) => version,
            OutcomeModel::Success(None) => "Success"@,
            OutcomeModel::Failure(e) => e.message_spec(),
        }
    }

    /// The mark that opens the report line.
    pub open spec fn marker(self) -> Seq<char> {
        match self {
            OutcomeModel::Success(_) => "\u{2705}"@,
            OutcomeModel::Failure(_) => "\u{274c}"@,
        }
    }
}

impl DeployOutcome {
    pub fn is_success(&self) -> (r: bool)
        ensures
            r == (self@ is Success),
    {
        match self {
            DeployOutcome::Success(_) => true,
            DeployOutcome::Failure(_) => false,
        }
    }

    /// An outcome equal to this one.
    pub fn duplicate(&self) -> (r: DeployOutcome)
        ensures
            r@ == self@,
    {
        match self {
            DeployOutcome::Success(Some(version)) => DeployOutcome::Success(
                Some(version.clone()),
            ),
            DeployOutcome::Success(None) => DeployOutcome::Success(None),
            DeployOutcome::Failure(e) => DeployOutcome::Failure(*e),
        }
    }

    /// What the report says of the outcome.
    pub fn detail(&self) -> (r: String)
        ensures
            r@ == self@.detail(),
    {
        match self {
            DeployOutcome::Success(Some(version)) => version.clone(),
            DeployOutcome::Success(None) => String::from_str("Success"),
            DeployOutcome::Failure(e) => e.message(),
        }
    }

    /// The mark that opens the report line.
    pub fn marker(&self) -> (r: &'static str)
        ensures
            r@ == self@.marker(),
    {
        match self {
            DeployOutcome::Success(_) => "\u{2705}",
            DeployOutcome::Failure(_) => "\u{274c}",
        }
    }
}

/// Where the task of one host stands.
#[derive(Clone, Copy, Debug, PartialEq, Eq)]
pub enum TaskState {
    /// Nothing was issued yet.
    Pending,
    /// The rebuild is running.
    Deploying,
    /// The command that stands in for the rebuild is running.
    Commanding,
    /// The rebuild succeeded; the recovery cycle or the version check is
    /// under way.
    Recovering(RecoveryState),
    /// The outcome was reported.
    Finished,
}

/// What the caller is to do next for a host.
#[derive(Debug)]
pub enum TaskAction {
    /// Run this command, forwarding its output under the host's name, and
    /// come back with its result.
    Run(Invocation),
    /// Wait this long and come back.
    Sleep(u64),
    /// The task is over, with this outcome. `skipped` says that nothing was
    /// run because the host has no remote shell.
    Finish { outcome: DeployOutcome, skipped: bool },
    /// The task was over before.
    Nothing,
}

/// A `TaskAction` over sequences of characters.
pub enum ActionModel {
    Run(InvocationModel),
    Sleep(u64),
    Finish { outcome: OutcomeModel, skipped: bool },
    Nothing,
}

impl View for TaskAction {
    type V = ActionModel;

    open spec fn view(&self) -> ActionModel {
        match *self {
            TaskAction::Run(invocation) => ActionModel::Run(invocation@),
            TaskAction::Sleep(units) => ActionModel::Sleep(units),
            TaskAction::Finish { outcome, skipped } => ActionModel::Finish {
                outcome: outcome@,
                skipped,
            },
            TaskAction::Nothing => ActionModel::Nothing,
        }
    }
}

/// The result of a step, with the text that a command printed as a sequence
/// of characters.
pub open spec fn result_model(result: Result<String, ProcessError>) -> Result<
    Seq<char>,
    ProcessError,
> {
    match result {
        Ok(text) => Ok(text@),
        Err(e) => Err(e),
    }
}

/// The end of a task with `outcome`.
fn finish(outcome: DeployOutcome) -> (r: (TaskState, TaskAction))
    ensures
        r.0 == TaskState::Finished,
        r.1@ == (ActionModel::Finish { outcome: outcome@, skipped: false }),
{
    (TaskState::Finished, TaskAction::Finish { outcome, skipped: false })
}

/// What is reported when the recovery cycle has ended in `state` and the
/// last probe ended with `result`: the version that the probe printed, or
/// why the host counts as failed. The cycle ends as recovered only on a
/// probe that answered, and as unconfirmed only on a check that failed.
pub open spec fn recovery_outcome(
    state: RecoveryState,
    result: Result<Seq<char>, ProcessError>,
) -> OutcomeModel {
    match state {
        RecoveryState::Recovered { .. } => match result {
            Ok(version) => OutcomeModel::Success(Some(version)),
            Err(_) => OutcomeModel::Success(None),
        },
        RecoveryState::Unconfirmed => match result {
            Err(e) => OutcomeModel::Failure(DeployError::Process(e)),
            Ok(_) => OutcomeModel::Failure(DeployError::RecoveryExhausted),
        },
        _ => OutcomeModel::Failure(DeployError::RecoveryExhausted),
    }
}

/// One step of the recovery cycle of `host`, as a step of its task.
pub open spec fn recovery_move(
    host: HostModel,
    state: RecoveryState,
    result: Result<Seq<char>, ProcessError>,
) -> (TaskState, ActionModel) {
    let next = step_spec(state, host.is_remote(), result is Ok);
    match next.1 {
        RecoveryAction::Reboot => match host {
            HostModel::Remote { addr, user, .. } => (
                TaskState::Recovering(next.0),
                ActionModel::Run(ssh_spec(user, addr, reboot_word(host.escalates()))),
            ),
            // The cycle asks for a reboot on a remote host only.
            HostModel::Local { .. } => (TaskState::Recovering(next.0), ActionModel::Nothing),
        },
        RecoveryAction::Sleep(units) => (TaskState::Recovering(next.0), ActionModel::Sleep(units)),
        RecoveryAction::Probe => (TaskState::Recovering(next.0), ActionModel::Run(probe_spec(host))),
        RecoveryAction::Stop => (
            TaskState::Finished,
            ActionModel::Finish { outcome: recovery_outcome(next.0, result), skipped: false },
        ),
    }
}

/// One step of the task of the host called `host_name`, which the inventory
/// knows as `host`.
///
/// A host that the inventory lacks fails at once. Otherwise the rebuild, or
/// the command that stands in for it, is run first. A command has no
/// meaning on the local machine: there the task ends at once, as skipped. A
/// failed rebuild ends the task with the failure. After a rebuild that
/// succeeded, the recovery cycle follows where a reboot was asked for, and
/// a single version check where it was not.
pub open spec fn host_step_spec(
    host: Option<HostModel>,
    rebuild_tool: Seq<char>,
    flake: Seq<char>,
    mode: ModeModel,
    host_name: Seq<char>,
    state: TaskState,
    result: Result<Seq<char>, ProcessError>,
) -> (TaskState, ActionModel) {
    if state is Finished {
        (TaskState::Finished, ActionModel::Nothing)
    } else {
        match host {
            None => (
                TaskState::Finished,
                ActionModel::Finish {
                    outcome: OutcomeModel::Failure(DeployError::HostNotFound),
                    skipped: false,
                },
            ),
            Some(h) => match state {
                TaskState::Pending => match host_command_spec(
                    rebuild_tool,
                    h,
                    mode,
                    flake,
                    host_name,
                ) {
                    Some(invocation) => (
                        if mode is Command {
                            TaskState::Commanding
                        } else {
                            TaskState::Deploying
                        },
                        ActionModel::Run(invocation),
                    ),
                    None => (
                        TaskState::Finished,
                        ActionModel::Finish { outcome: OutcomeModel::Success(None), skipped: true },
                    ),
                },
                TaskState::Deploying => match result {
                    Err(e) => (
                        TaskState::Finished,
                        ActionModel::Finish {
                            outcome: OutcomeModel::Failure(DeployError::Process(e)),
                            skipped: false,
                        },
                    ),
                    Ok(_) => if mode matches ModeModel::Deploy { reboot: true, .. } {
                        recovery_move(h, RecoveryState::Idle, result)
                    } else {
                        (
                            TaskState::Recovering(RecoveryState::Checking),
                            ActionModel::Run(probe_spec(h)),
                        )
                    },
                },
                TaskState::Commanding => match result {
                    Err(e) => (
                        TaskState::Finished,
                        ActionModel::Finish {
                            outcome: OutcomeModel::Failure(DeployError::Process(e)),
                            skipped: false,
                        },
                    ),
                    Ok(_) => (
                        TaskState::Finished,
                        ActionModel::Finish { outcome: OutcomeModel::Success(None), skipped: false },
                    ),
                },
                TaskState::Recovering(recovery) => recovery_move(h, recovery, result),
                TaskState::Finished => (TaskState::Finished, ActionModel::Nothing),
            },
        }
    }
}

/// Takes one step of the recovery cycle and builds the command that the
/// step asks for.
fn recovery_advance(host: &Host, state: RecoveryState, result: &Result<String, ProcessError>) -> (r: (
    TaskState,
    TaskAction,
))
    ensures
        r.0 == recovery_move(host@, state, result_model(*result)).0,
        r.1@ == recovery_move(host@, state, result_model(*result)).1,
{
    let ok = result.is_ok();
    let (next, action) = step(state, host.is_remote(), ok);
    match action {
        RecoveryAction::Reboot => {
            let command = reboot_command(host);
            (TaskState::Recovering(next), TaskAction::Run(command.unwrap()))
        },
        RecoveryAction::Sleep(units) => (TaskState::Recovering(next), TaskAction::Sleep(units)),
        RecoveryAction::Probe => (TaskState::Recovering(next), TaskAction::Run(probe_command(host))),
        RecoveryAction::Stop => {
            let outcome = match next {
                RecoveryState::Recovered { .. } => match result {
                    Ok(version) => DeployOutcome::Success(Some(version.clone())),
                    Err(_) => DeployOutcome::Success(None),
                },
                RecoveryState::Unconfirmed => match result {
                    Err(e) => DeployOutcome::Failure(DeployError::Process(*e)),
                    Ok(_) => DeployOutcome::Failure(DeployError::RecoveryExhausted),
                },
                _ => DeployOutcome::Failure(DeployError::RecoveryExhausted),
            };
            finish(outcome)
        },
    }
}

/// Advances the task of the host called `host_name`. `result` is how the
/// action that the task asked for last ended: for a command, the text that
/// it printed or why it failed. The first step of a task and the step after
/// a wait look at no result.
pub fn host_step(
    cfg: &CfgObj,
    tools: &Tools,
    mode: &Mode,
    host_name: &str,
    state: TaskState,
    result: &Result<String, ProcessError>,
) -> (r: (TaskState, TaskAction))
    ensures
        r.0 == host_step_spec(
            cfg.lookup(host_name@),
            tools.rebuild@,
            cfg.flake_path@,
            mode@,
            host_name@,
            state,
            result_model(*result),
        ).0,
        r.1@ == host_step_spec(
            cfg.lookup(host_name@),
            tools.rebuild@,
            cfg.flake_path@,
            mode@,
            host_name@,
            state,
            result_model(*result),
        ).1,
{
    if let TaskState::Finished = state {
        return (TaskState::Finished, TaskAction::Nothing);
    }
    let host = match cfg.get(host_name) {
        Some(host) => host,
        None => {
            return finish(DeployOutcome::Failure(DeployError::HostNotFound));
        },
    };
    match state {
        TaskState::Pending => {
            let started = match mode {
                Mode::Command(_) => TaskState::Commanding,
                Mode::Deploy { .. } => TaskState::Deploying,
            };
            match host_command(tools, host, mode, cfg.flake_path.as_str(), host_name) {
                Some(invocation) => (started, TaskAction::Run(invocation)),
                None => (
                    TaskState::Finished,
                    TaskAction::Finish { outcome: DeployOutcome::Success(None), skipped: true },
                ),
            }
        },
        TaskState::Deploying => match result {
            Err(e) => finish(DeployOutcome::Failure(DeployError::Process(*e))),
            Ok(_) => {
                let reboot = match mode {
                    Mode::Deploy { reboot, .. } => *reboot,
                    Mode::Command(_) => false,
                };
                if reboot {
                    recovery_advance(host, RecoveryState::Idle, result)
                } else {
                    (
                        TaskState::Recovering(RecoveryState::Checking),
                        TaskAction::Run(probe_command(host)),
                    )
                }
            },
        },
        TaskState::Commanding => match result {
            Err(e) => finish(DeployOutcome::Failure(DeployError::Process(*e))),
            Ok(_) => finish(DeployOutcome::Success(None)),
        },
        TaskState::Recovering(recovery) => recovery_advance(host, recovery, result),
        TaskState::Finished => (TaskState::Finished, TaskAction::Nothing),
    }
}

/// How many steps a recovery cycle in `state` can still take, at most.
pub open spec fn recovery_budget(state: RecoveryState) -> nat {
    match state {
        RecoveryState::Idle => 25,
        RecoveryState::Rebooting => 24,
        RecoveryState::WaitingFixed => 23,
        RecoveryState::Polling { attempt } => if attempt >= 10 {
            2
        } else {
            (2 * (10 - attempt) + 2) as nat
        },
        RecoveryState::Backoff { attempt } => if attempt >= 10 {
            1
        } else {
            (2 * (10 - attempt) + 1) as nat
        },
        RecoveryState::Checking => 2,
        _ => 1,
    }
}

/// How many steps a task in `state` can still take, at most.
pub open spec fn task_budget(state: TaskState) -> nat {
    match state {
        TaskState::Pending => 30,
        TaskState::Deploying => 29,
        TaskState::Commanding => 29,
        TaskState::Recovering(recovery) => recovery_budget(recovery) + 1,
        TaskState::Finished => 0,
    }
}

/// Every step of a task that is not over brings it closer to its end,
/// whatever the result that it is given: no task runs forever, and each
/// reports an outcome after at most thirty steps.
pub proof fn lemma_task_makes_progress(
    host: Option<HostModel>,
    rebuild_tool: Seq<char>,
    flake: Seq<char>,
    mode: ModeModel,
    host_name: Seq<char>,
    state: TaskState,
    result: Result<Seq<char>, ProcessError>,
)
    requires
        !(state is Finished),
    ensures
        task_budget(host_step_spec(host, rebuild_tool, flake, mode, host_name, state, result).0)
            < task_budget(state),
        host_step_spec(host, rebuild_tool, flake, mode, host_name, state, result).0 is Finished
            <==> host_step_spec(host, rebuild_tool, flake, mode, host_name, state, result).1 is Finish,
{
}

/// On the local machine with a reboot asked for, the step after the rebuild
/// asks for the version check and for no reboot, and the step after that
/// reports what the check gave: the version that it printed, or its failure.
pub proof fn lemma_local_reboot_is_version_check(
    host: HostModel,
    rebuild_tool: Seq<char>,
    flake: Seq<char>,
    operation: Operation,
    host_name: Seq<char>,
    rebuilt: Seq<char>,
    check: Result<Seq<char>, ProcessError>,
)
    requires
        host is Local,
    ensures
        ({
            let mode = ModeModel::Deploy { operation, reboot: true };
            let after_rebuild = host_step_spec(
                Some(host),
                rebuild_tool,
                flake,
                mode,
                host_name,
                TaskState::Deploying,
                Ok(rebuilt),
            );
            let after_check = host_step_spec(
                Some(host),
                rebuild_tool,
                flake,
                mode,
                host_name,
                after_rebuild.0,
                check,
            );
            &&& after_rebuild.0 == TaskState::Recovering(RecoveryState::Checking)
            &&& after_rebuild.1 == ActionModel::Run(probe_spec(host))
            &&& after_check.0 == TaskState::Finished
            &&& after_check.1 == (ActionModel::Finish {
                outcome: match check {
                    Ok(version) => OutcomeModel::Success(Some(version)),
                    Err(e) => OutcomeModel::Failure(DeployError::Process(e)),
                },
                skipped: false,
            })
        }),
{
}

/// While a rebooted host is probed: the first probe that answers ends the
/// task as a success with the version that the probe printed; a probe that
/// fails is followed by a wait and another probe, but for the last of the
/// budget, after which the host counts as failed although its rebuild had
/// succeeded.
pub proof fn lemma_probe_decides_recovery(
    host: HostModel,
    attempt: u8,
    result: Result<Seq<char>, ProcessError>,
)
    requires
        1 <= attempt <= MAX_ATTEMPTS,
    ensures
        recovery_move(host, RecoveryState::Polling { attempt }, result) == (match result {
            Ok(version) => (
                TaskState::Finished,
                ActionModel::Finish {
                    outcome: OutcomeModel::Success(Some(version)),
                    skipped: false,
                },
            ),
            Err(_) => if attempt == MAX_ATTEMPTS {
                (
                    TaskState::Finished,
                    ActionModel::Finish {
                        outcome: OutcomeModel::Failure(DeployError::RecoveryExhausted),
                        skipped: false,
                    },
                )
            } else {
                (
                    TaskState::Recovering(RecoveryState::Backoff { attempt }),
                    ActionModel::Sleep(PROBE_BACKOFF),
                )
            },
        }),
{
}

/// The tasks of a fleet: one state per host, in the order of the hosts.
#[derive(Debug)]
pub struct Fleet {
    pub hosts: Vec<String>,
    pub states: Vec<TaskState>,
}

impl Fleet {
    /// Each host has a state.
    pub open spec fn wf(&self) -> bool {
        self.states@.len() == self.hosts@.len()
    }

    /// The tasks of `hosts`, none of them started.
    pub fn new(hosts: Vec<String>) -> (fleet: Fleet)
        ensures
            fleet.wf(),
            fleet.hosts == hosts,
            forall|i: int| 0 <= i < hosts@.len() ==> fleet.states@[i] == TaskState::Pending,
    {
        let mut states: Vec<TaskState> = Vec::new();
        let mut i: usize = 0;
        while i < hosts.len()
            invariant
                i <= hosts@.len(),
                states@.len() == i,
                forall|j: int| 0 <= j < i ==> states@[j] == TaskState::Pending,
            decreases hosts@.len() - i,
        {
            states.push(TaskState::Pending);
            i += 1;
        }
        Fleet { hosts, states }
    }

    /// What a step of the host at `index` with `result` gives: the host's
    /// next state and the action to perform for it.
    pub open spec fn step_of(
        &self,
        cfg: &CfgObj,
        tools: &Tools,
        mode: &Mode,
        index: int,
        result: Result<Seq<char>, ProcessError>,
    ) -> (TaskState, ActionModel) {
        host_step_spec(
            cfg.lookup(self.hosts@[index]@),
            tools.rebuild@,
            cfg.flake_path@,
            mode@,
            self.hosts@[index]@,
            self.states@[index],
            result,
        )
    }

    /// The states of all tasks after a step of the host at `index`.
    pub open spec fn after(
        &self,
        cfg: &CfgObj,
        tools: &Tools,
        mode: &Mode,
        index: int,
        result: Result<Seq<char>, ProcessError>,
    ) -> Seq<TaskState> {
        self.states@.update(index, self.step_of(cfg, tools, mode, index, result).0)
    }

    /// Advances the task of the host at `index` with the result of its last
    /// action, and leaves every other task as it is.
    pub fn advance(
        &mut self,
        cfg: &CfgObj,
        tools: &Tools,
        mode: &Mode,
        index: usize,
        result: &Result<String, ProcessError>,
    ) -> (action: TaskAction)
        requires
            old(self).wf(),
            index < old(self).hosts@.len(),
        ensures
            final(self).wf(),
            final(self).hosts == old(self).hosts,
            final(self).states@ == old(self).after(
                cfg,
                tools,
                mode,
                index as int,
                result_model(*result),
            ),
            action@ == old(self).step_of(cfg, tools, mode, index as int, result_model(*result)).1,
    {
        let state = self.states[index];
        let (next, action) = host_step(
            cfg,
            tools,
            mode,
            self.hosts[index].as_str(),
            state,
            result,
        );
        self.states.set(index, next);
        action
    }

    /// Whether every task has reported its outcome.
    pub fn all_finished(&self) -> (r: bool)
        ensures
            r == forall|i: int| 0 <= i < self.states@.len() ==> self.states@[i] is Finished,
    {
        let mut i: usize = 0;
        while i < self.states.len()
            invariant
                i <= self.states@.len(),
                forall|j: int| 0 <= j < i ==> self.states@[j] is Finished,
            decreases self.states@.len() - i,
        {
            match self.states[i] {
                TaskState::Finished => {},
                _ => {
                    return false;
                },
            }
            i += 1;
        }
        true
    }
}

/// A host that fails holds no other host back: after a step of one host,
/// with a failure or with any other result, a step of another host gives the
/// state and the action that it would have given had the first host not been
/// stepped at all.
pub proof fn lemma_failure_is_contained(
    before: Fleet,
    after: Fleet,
    cfg: &CfgObj,
    tools: &Tools,
    mode: &Mode,
    stepped: int,
    stepped_result: Result<Seq<char>, ProcessError>,
    other: int,
    other_result: Result<Seq<char>, ProcessError>,
)
    requires
        before.wf(),
        0 <= stepped < before.hosts@.len(),
        0 <= other < before.hosts@.len(),
        other != stepped,
        after.hosts == before.hosts,
        after.states@ == before.after(cfg, tools, mode, stepped, stepped_result),
    ensures
        after.wf(),
        after.states@[other] == before.states@[other],
        after.step_of(cfg, tools, mode, other, other_result) == before.step_of(
            cfg,
            tools,
            mode,
            other,
            other_result,
        ),
{
}

/// The task of one host that has finished, with the place of the host in the
/// list of targets.
#[derive(Debug)]
pub struct Completion {
    pub index: usize,
    pub outcome: DeployOutcome,
}

/// One line of the report.
#[derive(Debug)]
pub struct ReportEntry {
    pub host: String,
    pub outcome: DeployOutcome,
}

/// Every completion names a host of the list.
pub open spec fn in_range(completions: Seq<Completion>, n: int) -> bool {
    forall|k: int| 0 <= k < completions.len() ==> (#[trigger] completions[k]).index < n
}

/// No host completed twice.
pub open spec fn distinct(completions: Seq<Completion>) -> bool {
    forall|k: int, l: int|
        0 <= k < l < completions.len() ==> (#[trigger] completions[k]).index != (
        #[trigger] completions[l]).index
}

/// The host at `i` completed.
pub open spec fn completed(completions: Seq<Completion>, i: int) -> bool {
    exists|k: int| 0 <= k < completions.len() && (#[trigger] completions[k]).index == i
}

/// Each host of the list completed, exactly once.
pub open spec fn complete(completions: Seq<Completion>, n: int) -> bool {
    &&& in_range(completions, n)
    &&& distinct(completions)
    &&& forall|i: int| 0 <= i < n ==> completed(completions, i)
}

/// Puts the outcomes into the order of `hosts`, whatever the order in which
/// the tasks completed. There is a report where each host completed exactly
/// once, and only there.
pub fn assemble_report(hosts: &Vec<String>, completions: &Vec<Completion>) -> (r: Option<
    Vec<ReportEntry>,
>)
    ensures
        r.is_some() == complete(completions@, hosts@.len() as int),
        r matches Some(report) ==> {
            &&& report@.len() == hosts@.len()
            &&& forall|i: int| 0 <= i < hosts@.len() ==> (#[trigger] report@[i]).host@ == hosts@[i]@
            &&& forall|k: int|
                0 <= k < completions@.len() ==> report@[(#[trigger] completions@[k]).index as int].outcome@
                    == completions@[k].outcome@
        },
{
    let n = hosts.len();
    let mut slots: Vec<Option<usize>> = Vec::new();
    let mut i: usize = 0;
    while i < n
        invariant
            i <= n,
            slots@.len() == i,
            forall|j: int| 0 <= j < i ==> slots@[j].is_none(),
        decreases n - i,
    {
        slots.push(None);
        i += 1;
    }
    let mut k: usize = 0;
    while k < completions.len()
        invariant
            n == hosts@.len(),
            k <= completions@.len(),
            slots@.len() == n,
            forall|j: int| 0 <= j < k ==> (#[trigger] completions@[j]).index < n,
            forall|a: int, b: int|
                0 <= a < b < k ==> (#[trigger] completions@[a]).index != (
                #[trigger] completions@[b]).index,
            forall|j: int|
                0 <= j < n ==> match #[trigger] slots@[j] {
                    Some(at) => at < k && completions@[at as int].index == j,
                    None => forall|a: int| 0 <= a < k ==> (#[trigger] completions@[a]).index != j,
                },
        decreases completions@.len() - k,
    {
        let index = completions[k].index;
        if index >= n {
            assert(!in_range(completions@, n as int));
            return None;
        }
        if slots[index].is_some() {
            proof {
                let at = slots@[index as int].unwrap();
                assert(completions@[at as int].index == completions@[k as int].index);
                assert(!distinct(completions@));
            }
            return None;
        }
        slots.set(index, Some(k));
        k += 1;
    }
    let mut report: Vec<ReportEntry> = Vec::new();
    let mut i: usize = 0;
    while i < n
        invariant
            n == hosts@.len(),
            i <= n,
            slots@.len() == n,
            report@.len() == i,
            in_range(completions@, n as int),
            distinct(completions@),
            forall|j: int|
                0 <= j < n ==> match #[trigger] slots@[j] {
                    Some(at) => at < completions@.len() && completions@[at as int].index == j,
                    None => !completed(completions@, j),
                },
            forall|j: int| 0 <= j < i ==> completed(completions@, j),
            forall|j: int| 0 <= j < i ==> (#[trigger] report@[j]).host@ == hosts@[j]@,
            forall|j: int|
                0 <= j < i ==> slots@[j].is_some() && (#[trigger] report@[j]).outcome@
                    == completions@[slots@[j].unwrap() as int].outcome@,
        decreases n - i,
    {
        match slots[i] {
            Some(at) => {
                let entry = ReportEntry {
                    host: hosts[i].clone(),
                    outcome: completions[at].outcome.duplicate(),
                };
                report.push(entry);
            },
            None => {
                return None;
            },
        }
        i += 1;
    }
    proof {
        assert forall|k: int| 0 <= k < completions@.len() implies report@[(
        #[trigger] completions@[k]).index as int].outcome@ == completions@[k].outcome@ by {
            let j = completions@[k].index as int;
            let at = slots@[j].unwrap() as int;
            if at != k {
                if at < k {
                    assert(completions@[at].index != completions@[k].index);
                } else {
                    assert(completions@[k].index != completions@[at].index);
                }
            }
        }
    }
    Some(report)
}

/// The report puts the outcomes in the order of the hosts: completions
/// that arrive in two different orders, each holding the same outcome for
/// every host, give the same report.
pub proof fn lemma_report_ignores_completion_order(
    hosts: Seq<String>,
    first: Seq<Completion>,
    second: Seq<Completion>,
    report_a: Seq<ReportEntry>,
    report_b: Seq<ReportEntry>,
)
    requires
        complete(first, hosts.len() as int),
        complete(second, hosts.len() as int),
        forall|k: int, l: int|
            0 <= k < first.len() && 0 <= l < second.len() && first[k].index == second[l].index
                ==> first[k].outcome@ == second[l].outcome@,
        report_a.len() == hosts.len(),
        report_b.len() == hosts.len(),
        forall|i: int| 0 <= i < hosts.len() ==> (#[trigger] report_a[i]).host@ == hosts[i]@,
        forall|i: int| 0 <= i < hosts.len() ==> (#[trigger] report_b[i]).host@ == hosts[i]@,
        forall|k: int|
            0 <= k < first.len() ==> report_a[(#[trigger] first[k]).index as int].outcome@
                == first[k].outcome@,
        forall|k: int|
            0 <= k < second.len() ==> report_b[(#[trigger] second[k]).index as int].outcome@
                == second[k].outcome@,
    ensures
        forall|i: int|
            0 <= i < hosts.len() ==> report_a[i].host@ == report_b[i].host@ && report_a[i].outcome@
                == report_b[i].outcome@,
{
    assert forall|i: int| 0 <= i < hosts.len() implies report_a[i].host@ == report_b[i].host@
        && report_a[i].outcome@ == report_b[i].outcome@ by {
        assert(completed(first, i));
        assert(completed(second, i));
        let k = choose|k: int| 0 <= k < first.len() && (#[trigger] first[k]).index == i;
        let l = choose|l: int| 0 <= l < second.len() && (#[trigger] second[l]).index == i;
        assert(report_a[first[k].index as int].outcome@ == first[k].outcome@);
        assert(report_b[second[l].index as int].outcome@ == second[l].outcome@);
    }
}

/// A report line: the mark of the outcome, the host's name, a colon, and
/// the detail. Name and detail are taken as they are shown, which may be
/// with decoration.
pub open spec fn report_line_around(outcome: OutcomeModel, host: Seq<char>, detail: Seq<char>) -> Seq<
    char,
> {
    outcome.marker() + " "@ + host + ": "@ + detail
}

/// The text of one report line: the mark, the host's name, a colon, and the
/// version or the cause.
pub open spec fn report_line_spec(host: Seq<char>, outcome: OutcomeModel) -> Seq<char> {
    report_line_around(outcome, host, outcome.detail())
}

/// Puts a report line together from the mark of the outcome and the host
/// name and detail as they are to be shown.
pub fn compose_report_line(outcome: &DeployOutcome, host: &str, detail: &str) -> (r: String)
    ensures
        r@ == report_line_around(outcome@, host@, detail@),
{
    let mut r = String::from_str(outcome.marker());
    r.append(" ");
    r.append(host);
    r.append(": ");
    r.append(detail);
    r
}

/// Renders one line of the report, undecorated.
pub fn render_line(entry: &ReportEntry) -> (r: String)
    ensures
        r@ == report_line_spec(entry.host@, entry.outcome@),
{
    let detail = entry.outcome.detail();
    compose_report_line(&entry.outcome, entry.host.as_str(), detail.as_str())
}

/// Renders the report, one line per host, in the order of the report.
pub fn render_report(report: &Vec<ReportEntry>) -> (r: Vec<String>)
    ensures
        r@.len() == report@.len(),
        forall|i: int|
            0 <= i < report@.len() ==> (#[trigger] r@[i])@ == report_line_spec(
                report@[i].host@,
                report@[i].outcome@,
            ),
{
    let mut out: Vec<String> = Vec::new();
    let mut i: usize = 0;
    while i < report.len()
        invariant
            i <= report@.len(),
            out@.len() == i,
            forall|j: int|
                0 <= j < i ==> (#[trigger] out@[j])@ == report_line_spec(
                    report@[j].host@,
                    report@[j].outcome@,
                ),
        decreases report@.len() - i,
    {
        out.push(render_line(&report[i]));
        i += 1;
    }
    out
}

} // verus!
