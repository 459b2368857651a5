//! The phases of a run, in their fixed order: the fleet-wide update, the
//! fleet-wide build, then the work on the hosts.
//!
//! The two fleet-wide phases run one after the other, each only where it was
//! asked for, and the failure of one ends the run before any host is touched.
//! What happens on the hosts does not change how the run ends.

use vstd::prelude::*;
use crate::args::Plan;
use crate::commands::build_command;
use crate::commands::update_command;
use crate::commands::Invocation;
use crate::commands::InvocationModel;
use crate::commands::Tools;
use crate::config::CfgObj;
use crate::run_util::ProcessError;

verus! {

/// Where a run stands.
#[derive(Clone, Copy, Debug, PartialEq, Eq)]
pub enum RunStage {
    /// Nothing was started yet.
    Start,
    /// The fleet-wide update is running.
    Updating,
    /// The fleet-wide build is running.
    Building,
    /// The hosts are worked on.
    Deploying,
    /// The run is over and counts as a success.
    Done,
    /// A fleet-wide phase failed in this way; nothing more is run.
    Aborted(ProcessError),
}

/// What the caller is to do next.
#[derive(Debug)]
pub enum RunAction {
    /// Run the fleet-wide update, on the caller's own output.
    Update(Invocation),
    /// Run the fleet-wide build, on the caller's own output.
    Build(Invocation),
    /// Work on the hosts of the plan, all at once, and show the report.
    Fleet,
    /// End the run, as a success or with the failure of a fleet-wide phase.
    Exit(Result<(), ProcessError>),
}

/// A `RunAction` over sequences of characters.
pub enum RunActionModel {
    Update(InvocationModel),
    Build(InvocationModel),
    Fleet,
    Exit(Result<(), ProcessError>),
}

impl View for RunAction {
    type V = RunActionModel;

    open spec fn view(&self) -> RunActionModel {
        match *self {
            RunAction::Update(invocation) => RunActionModel::Update(invocation@),
            RunAction::Build(invocation) => RunActionModel::Build(invocation@),
            RunAction::Fleet => RunActionModel::Fleet,
            RunAction::Exit(result) => RunActionModel::Exit(result),
        }
    }
}

/// What a plan asks of a run, as far as the order of the phases goes.
pub struct PhaseFlags {
    pub update: bool,
    pub build: bool,
    pub has_targets: bool,
}

/// The first phase to run once the update is behind.
pub open spec fn after_update(flags: PhaseFlags) -> RunStage {
    if flags.build {
        RunStage::Building
    } else {
        after_build(flags)
    }
}

/// The first phase to run once the build is behind.
pub open spec fn after_build(flags: PhaseFlags) -> RunStage {
    if flags.has_targets {
        RunStage::Deploying
    } else {
        RunStage::Done
    }
}

/// The stage that follows `stage` when the phase that was running ended
/// with `result`.
pub open spec fn next_stage(
    flags: PhaseFlags,
    stage: RunStage,
    result: Result<(), ProcessError>,
) -> RunStage {
    match stage {
        RunStage::Start => if flags.update {
            RunStage::Updating
        } else {
            after_update(flags)
        },
        RunStage::Updating => match result {
            Ok(_) => after_update(flags),
            Err(e) => RunStage::Aborted(e),
        },
        RunStage::Building => match result {
            Ok(_) => after_build(flags),
            Err(e) => RunStage::Aborted(e),
        },
        RunStage::Deploying => RunStage::Done,
        RunStage::Done => RunStage::Done,
        RunStage::Aborted(e) => RunStage::Aborted(e),
    }
}

impl Plan {
    pub open spec fn flags(&self) -> PhaseFlags {
        PhaseFlags {
            update: self.update,
            build: self.build,
            has_targets: self.targets@.len() > 0,
        }
    }
}

/// The action that enters `stage`. A run that is given up ends with the
/// failure that ended it.
pub open spec fn entering(stage: RunStage, build_tool: Seq<char>, flake: Seq<char>) -> RunActionModel {
    match stage {
        RunStage::Updating => RunActionModel::Update(
            InvocationModel {
                program: "nix"@,
                args: seq!["flake"@, "update"@, "--flake"@, flake],
            },
        ),
        RunStage::Building => RunActionModel::Build(
            InvocationModel { program: build_tool, args: seq!["build"@, flake] },
        ),
        RunStage::Deploying => RunActionModel::Fleet,
        RunStage::Aborted(e) => RunActionModel::Exit(Err(e)),
        _ => RunActionModel::Exit(Ok(())),
    }
}

/// Advances the run. `result` is how the phase that was running ended; the
/// first step looks at none, and how the work on the hosts went does not
/// matter to the run.
pub fn run_step(
    plan: &Plan,
    cfg: &CfgObj,
    tools: &Tools,
    stage: RunStage,
    result: Result<(), ProcessError>,
) -> (r: (RunStage, RunAction))
    ensures
        r.0 == next_stage(plan.flags(), stage, result),
        r.1@ == entering(r.0, tools.build@, cfg.flake_path@),
{
    let has_targets = plan.targets.len() > 0;
    let after_build = if has_targets {
        RunStage::Deploying
    } else {
        RunStage::Done
    };
    let after_update = if plan.build {
        RunStage::Building
    } else {
        after_build
    };
    let next = match stage {
        RunStage::Start => if plan.update {
            RunStage::Updating
        } else {
            after_update
        },
        RunStage::Updating => match result {
            Ok(_) => after_update,
            Err(e) => RunStage::Aborted(e),
        },
        RunStage::Building => match result {
            Ok(_) => after_build,
            Err(e) => RunStage::Aborted(e),
        },
        RunStage::Deploying => RunStage::Done,
        RunStage::Done => RunStage::Done,
        RunStage::Aborted(e) => RunStage::Aborted(e),
    };
    let action = match next {
        RunStage::Updating => RunAction::Update(update_command(cfg)),
        RunStage::Building => RunAction::Build(build_command(tools, cfg)),
        RunStage::Deploying => RunAction::Fleet,
        RunStage::Aborted(e) => RunAction::Exit(Err(e)),
        _ => RunAction::Exit(Ok(())),
    };
    (next, action)
}

/// After a fleet-wide phase that failed, the run is given up at once, with
/// that failure, and stays so: no later step starts a phase or touches a
/// host.
pub proof fn lemma_failed_prelude_stops_the_run(
    flags: PhaseFlags,
    stage: RunStage,
    failure: ProcessError,
    later: Result<(), ProcessError>,
)
    requires
        stage is Updating || stage is Building,
    ensures
        next_stage(flags, stage, Err(failure)) == RunStage::Aborted(failure),
        next_stage(flags, RunStage::Aborted(failure), later) == RunStage::Aborted(failure),
{
}

/// The place of a stage in the order of a run: start, update, build, hosts,
/// end.
pub open spec fn stage_rank(stage: RunStage) -> nat {
    match stage {
        RunStage::Start => 0,
        RunStage::Updating => 1,
        RunStage::Building => 2,
        RunStage::Deploying => 3,
        RunStage::Done => 4,
        RunStage::Aborted(_) => 4,
    }
}

/// Every step moves the run forward in the order of the phases until it is
/// over, so the update never runs after the build and no host is worked on
/// before both; and a phase is entered only where the plan asks for it.
pub proof fn lemma_phases_keep_their_order(
    flags: PhaseFlags,
    stage: RunStage,
    result: Result<(), ProcessError>,
)
    ensures
        stage_rank(stage) < 4 ==> stage_rank(stage) < stage_rank(next_stage(flags, stage, result)),
        stage_rank(stage) == 4 ==> next_stage(flags, stage, result) == stage,
        next_stage(flags, stage, result) is Updating ==> flags.update,
        next_stage(flags, stage, result) is Building ==> flags.build,
        next_stage(flags, stage, result) is Deploying ==> flags.has_targets,
{
}

} // verus!
