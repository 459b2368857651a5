//! The operation request: what to do, and to which hosts.

use vstd::prelude::*;
use crate::config::CfgObj;

verus! {

/// The rebuild action to perform on each host.
#[derive(Clone, Copy, Debug, PartialEq, Eq)]
pub enum Operation {
    /// Activate now and make it the boot default.
    Switch,
    /// Make it the boot default, activate on next boot.
    Boot,
    /// Activate now without making it the boot default.
    Test,
    /// Build and show what activation would change.
    DryActivate,
    /// Show what would be built.
    DryBuild,
}

impl Operation {
    /// Whether the action changes the configuration that the host runs or
    /// boots into.
    pub open spec fn activates(self) -> bool {
        self is Switch || self is Boot
    }

    pub fn is_activating(&self) -> (r: bool)
        ensures
            r == self.activates(),
    {
        match self {
            Operation::Switch => true,
            Operation::Boot => true,
            _ => false,
        }
    }
}

/// A request as it comes from the command line.
#[derive(Clone, Debug)]
pub struct Args {
    /// Inventory file to use.
    pub config: String,
    /// Run the fleet-wide update first.
    pub update: bool,
    /// Run the fleet-wide build first.
    pub build: bool,
    /// Hosts to deploy to.
    pub hosts: Vec<String>,
    /// Deploy to every host of the inventory.
    pub all: bool,
    /// Rebuild action to perform.
    pub operation: Operation,
    /// Reboot each host after a successful deploy and wait for it to return.
    pub reboot: bool,
    /// Run this command on each remote host in place of the rebuild.
    pub command: Option<String>,
}

/// Why a request is refused for its flags alone.
#[derive(Clone, Copy, Debug, PartialEq, Eq)]
pub enum ArgumentError {
    /// No host is named, not all hosts are asked for, and neither the update
    /// nor the build is requested: there is nothing to do.
    NothingRequested,
    /// Hosts are named and all hosts are asked for.
    HostsWithAll,
    /// A command to run and a reboot are both asked for.
    CommandWithReboot,
    /// A reboot is asked for with an action that activates nothing.
    RebootWithoutActivation,
}

/// Why a request does not fit the inventory.
#[derive(Clone, Copy, Debug, PartialEq, Eq)]
pub enum ConfigError {
    /// The inventory has no host of this name; the number is the position
    /// of the name among the request's hosts.
    UnknownHost(usize),
}

/// Why a request is refused before anything runs.
#[derive(Clone, Copy, Debug, PartialEq, Eq)]
pub enum RequestError {
    Argument(ArgumentError),
    Config(ConfigError),
}

/// What is done per host.
#[derive(Clone, Debug)]
pub enum Mode {
    /// Rebuild with this action, then reboot and wait for the host where
    /// `reboot` is set.
    Deploy { operation: Operation, reboot: bool },
    /// Run this command over the remote shell.
    Command(String),
}

/// A `Mode` with its command as a sequence of characters.
pub enum ModeModel {
    Deploy { operation: Operation, reboot: bool },
    Command(Seq<char>),
}

impl View for Mode {
    type V = ModeModel;

    open spec fn view(&self) -> ModeModel {
        match *self {
            Mode::Deploy { operation, reboot } => ModeModel::Deploy { operation, reboot },
            Mode::Command(command) => ModeModel::Command(command@),
        }
    }
}

/// A request that was checked: the phases to run, in this order, and the
/// hosts to run the last one on.
#[derive(Debug)]
pub struct Plan {
    /// Run the fleet-wide update first.
    pub update: bool,
    /// Then run the fleet-wide build.
    pub build: bool,
    /// The hosts to work on, in the order in which they are reported.
    pub targets: Vec<String>,
    /// What to do on each of them.
    pub mode: Mode,
}

impl Args {
    /// The first rule on flags that the request breaks.
    pub open spec fn flags_error(&self) -> Option<ArgumentError> {
        if !self.build && !self.update && self.hosts@.len() == 0 && !self.all {
            Some(ArgumentError::NothingRequested)
        } else if self.hosts@.len() > 0 && self.all {
            Some(ArgumentError::HostsWithAll)
        } else if self.command.is_some() && self.reboot {
            Some(ArgumentError::CommandWithReboot)
        } else if self.reboot && !self.operation.activates() {
            Some(ArgumentError::RebootWithoutActivation)
        } else {
            None
        }
    }

    /// `i` is the first position among the request's hosts whose name the
    /// inventory lacks.
    pub open spec fn first_unknown(&self, cfg: &CfgObj, i: int) -> bool {
        &&& 0 <= i < self.hosts@.len()
        &&& !cfg.contains(self.hosts@[i]@)
        &&& forall|j: int| 0 <= j < i ==> cfg.contains(#[trigger] self.hosts@[j]@)
    }

    /// Every host that the request names is in the inventory.
    pub open spec fn all_known(&self, cfg: &CfgObj) -> bool {
        forall|j: int| 0 <= j < self.hosts@.len() ==> cfg.contains(#[trigger] self.hosts@[j]@)
    }

    /// The hosts to work on: every host of the inventory in its order, or
    /// the hosts that the request names, in the order in which it names them.
    pub open spec fn targets_spec(&self, cfg: &CfgObj) -> Seq<Seq<char>> {
        if self.all {
            cfg.names()
        } else {
            self.hosts.deep_view()
        }
    }

    /// What the request asks to do on each host.
    pub open spec fn mode_spec(&self) -> ModeModel {
        match self.command {
            Some(command) => ModeModel::Command(command@),
            None => ModeModel::Deploy { operation: self.operation, reboot: self.reboot },
        }
    }

    /// Checks the flags against each other. Needs no inventory, so it can
    /// run before one is loaded.
    pub fn check_flags(&self) -> (r: Result<(), ArgumentError>)
        ensures
            match r {
                Ok(_) => self.flags_error().is_none(),
                Err(e) => self.flags_error() == Some(e),
            },
    {
        if !self.build && !self.update && self.hosts.len() == 0 && !self.all {
            Err(ArgumentError::NothingRequested)
        } else if self.hosts.len() > 0 && self.all {
            Err(ArgumentError::HostsWithAll)
        } else if self.command.is_some() && self.reboot {
            Err(ArgumentError::CommandWithReboot)
        } else if self.reboot && !self.operation.is_activating() {
            Err(ArgumentError::RebootWithoutActivation)
        } else {
            Ok(())
        }
    }

    /// Checks that the inventory has every host that the request names, and
    /// says which is the first that it lacks.
    pub fn check_hosts(&self, cfg: &CfgObj) -> (r: Result<(), ConfigError>)
        ensures
            match r {
                Ok(_) => self.all_known(cfg),
                Err(ConfigError::UnknownHost(i)) => self.first_unknown(cfg, i as int),
            },
    {
        let mut i: usize = 0;
        while i < self.hosts.len()
            invariant
                i <= self.hosts@.len(),
                forall|j: int| 0 <= j < i ==> cfg.contains(#[trigger] self.hosts@[j]@),
            decreases self.hosts@.len() - i,
        {
            if !cfg.contains_key(self.hosts[i].as_str()) {
                return Err(ConfigError::UnknownHost(i));
            }
            i += 1;
        }
        Ok(())
    }

    /// Checks the request against its own rules and against the inventory,
    /// the flags first. A request that passes becomes a plan; one that does
    /// not is refused with the first rule that it breaks, and nothing is to
    /// be run.
    pub fn plan(&self, cfg: &CfgObj) -> (r: Result<Plan, RequestError>)
        ensures
            match r {
                Ok(plan) => {
                    &&& self.flags_error().is_none()
                    &&& self.all_known(cfg)
                    &&& plan.update == self.update
                    &&& plan.build == self.build
                    &&& plan.targets.deep_view() == self.targets_spec(cfg)
                    &&& plan.mode@ == self.mode_spec()
                },
                Err(RequestError::Argument(e)) => self.flags_error() == Some(e),
                Err(RequestError::Config(ConfigError::UnknownHost(i))) => {
                    &&& self.flags_error().is_none()
                    &&& self.first_unknown(cfg, i as int)
                },
            },
    {
        match self.check_flags() {
            Err(e) => {
                return Err(RequestError::Argument(e));
            },
            Ok(_) => {},
        }
        match self.check_hosts(cfg) {
            Err(e) => {
                return Err(RequestError::Config(e));
            },
            Ok(_) => {},
        }
        let targets = if self.all {
            cfg.host_names()
        } else {
            copy_names(&self.hosts)
        };
        let mode = match &self.command {
            Some(command) => Mode::Command(command.clone()),
            None => Mode::Deploy { operation: self.operation, reboot: self.reboot },
        };
        Ok(Plan { update: self.update, build: self.build, targets, mode })
    }
}

/// A copy of a list of names.
pub fn copy_names(names: &Vec<String>) -> (r: Vec<String>)
    ensures
        r.deep_view() == names.deep_view(),
{
    let mut out: Vec<String> = Vec::new();
    let mut i: usize = 0;
    while i < names.len()
        invariant
            i <= names@.len(),
            out@.len() == i,
            forall|j: int| 0 <= j < i ==> out@[j]@ == names@[j]@,
        decreases names@.len() - i,
    {
        out.push(names[i].clone());
        i += 1;
    }
    assert(out.deep_view() =~= names.deep_view());
    out
}

/// A request that names hosts and asks for all hosts is refused, whatever
/// else it holds and whatever the inventory holds.
pub proof fn lemma_hosts_with_all_is_refused(args: Args)
    requires
        args.hosts@.len() > 0,
        args.all,
    ensures
        args.flags_error() == Some(ArgumentError::HostsWithAll),
{
}

/// A reboot passes the rules on flags only with an action that activates,
/// and never together with a command.
pub proof fn lemma_reboot_needs_activation(args: Args)
    requires
        args.reboot,
        args.flags_error().is_none(),
    ensures
        args.operation.activates(),
        args.command.is_none(),
{
}

} // verus!
