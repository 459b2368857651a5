//! Command construction: the exact argument lists of every external
//! invocation.

use vstd::prelude::*;
use vstd::string::*;
use crate::args::Mode;
use crate::args::ModeModel;
use crate::args::Operation;
use crate::config::CfgObj;
use crate::config::Host;
use crate::config::HostModel;

verus! {

/// One external command: the executable and its arguments.
#[derive(Debug)]
pub struct Invocation {
    pub program: String,
    pub args: Vec<String>,
}

/// An `Invocation` as sequences of characters.
pub struct InvocationModel {
    pub program: Seq<char>,
    pub args: Seq<Seq<char>>,
}

impl View for Invocation {
    type V = InvocationModel;

    open spec fn view(&self) -> InvocationModel {
        InvocationModel { program: self.program@, args: self.args.deep_view() }
    }
}

/// The executables that the rebuild and the fleet-wide build go through.
#[derive(Debug)]
pub struct Tools {
    pub rebuild: String,
    pub build: String,
}

impl Tools {
    /// The well-known tool names.
    pub fn new() -> (t: Tools)
        ensures
            t.rebuild@ == "nixos-rebuild"@,
            t.build@ == "nom"@,
    {
        Tools { rebuild: String::from_str("nixos-rebuild"), build: String::from_str("nom") }
    }
}

/// The rebuild tool's word for an action.
pub open spec fn operation_token(op: Operation) -> Seq<char> {
    match op {
        Operation::Switch => "switch"@,
        Operation::Boot => "boot"@,
        Operation::Test => "test"@,
        Operation::DryActivate => "dry-activate"@,
        Operation::DryBuild => "dry-build"@,
    }
}

/// The rebuild tool's word for an action.
pub fn operation_arg(op: &Operation) -> (r: &'static str)
    ensures
        r@ == operation_token(*op),
{
    match op {
        Operation::Switch => "switch",
        Operation::Boot => "boot",
        Operation::Test => "test",
        Operation::DryActivate => "dry-activate",
        Operation::DryBuild => "dry-build",
    }
}

/// `user@addr`, the way a remote host is addressed.
pub open spec fn target_spec(user: Seq<char>, addr: Seq<char>) -> Seq<char> {
    user + "@"@ + addr
}

/// The reference to one host's configuration inside the deployable unit.
pub open spec fn flake_ref_spec(flake: Seq<char>, host_name: Seq<char>) -> Seq<char> {
    flake + "#"@ + host_name
}

/// The arguments of the rebuild of one host: the action, the configuration
/// reference, the flag that stops the tool from re-executing itself, then
/// the escalation flag, the target address and the substitution flag, each
/// where the host calls for it.
pub open spec fn rebuild_args_spec(
    host: HostModel,
    op: Operation,
    flake: Seq<char>,
    host_name: Seq<char>,
) -> Seq<Seq<char>> {
    let base = seq![
        operation_token(op),
        "--flake"@,
        flake_ref_spec(flake, host_name),
        "--no-reexec"@,
    ];
    let sudo = if host.escalates() {
        seq!["--sudo"@]
    } else {
        Seq::<Seq<char>>::empty()
    };
    let target = match host {
        HostModel::Local { .. } => Seq::<Seq<char>>::empty(),
        HostModel::Remote { addr, user, .. } => seq!["--target-host"@, target_spec(user, addr)],
    };
    let subst = if host.substitutes() {
        seq!["--use-substitutes"@]
    } else {
        Seq::<Seq<char>>::empty()
    };
    base + sudo + target + subst
}

/// The command that reboots a remote host.
pub open spec fn reboot_word(escalate: bool) -> Seq<char> {
    if escalate {
        "sudo reboot"@
    } else {
        "reboot"@
    }
}

/// The remote shell invocation that runs `command` on the host at
/// `user@addr`, without a terminal.
pub open spec fn ssh_spec(user: Seq<char>, addr: Seq<char>, command: Seq<char>) -> InvocationModel {
    InvocationModel { program: "ssh"@, args: seq![target_spec(user, addr), "-T"@, command] }
}

/// The liveness probe: ask the host for its version, giving up on the
/// connection after five seconds. On the local machine the version is asked
/// for directly.
pub open spec fn probe_spec(host: HostModel) -> InvocationModel {
    match host {
        HostModel::Local { .. } => InvocationModel {
            program: "nixos-version"@,
            args: Seq::<Seq<char>>::empty(),
        },
        HostModel::Remote { addr, user, .. } => InvocationModel {
            program: "ssh"@,
            args: seq![
                target_spec(user, addr),
                "-T"@,
                "-o"@,
                "ConnectTimeout=5"@,
                "nixos-version"@,
            ],
        },
    }
}

/// `a`, `sep` and `b` joined into one string.
pub fn join3(a: &str, sep: &str, b: &str) -> (r: String)
    ensures
        r@ == a@ + sep@ + b@,
{
    let mut r = String::from_str(a);
    r.append(sep);
    r.append(b);
    r
}

/// Appends one argument.
fn push_arg(args: &mut Vec<String>, arg: &str)
    ensures
        final(args).deep_view() == old(args).deep_view().push(arg@),
{
    let s = String::from_str(arg);
    args.push(s);
    assert(args.deep_view() =~= old(args).deep_view().push(arg@));
}

/// The rebuild of one host.
pub fn rebuild_command(
    tools: &Tools,
    host: &Host,
    op: &Operation,
    flake: &str,
    host_name: &str,
) -> (inv: Invocation)
    ensures
        inv@.program == tools.rebuild@,
        inv@.args == rebuild_args_spec(host@, *op, flake@, host_name@),
{
    let mut args: Vec<String> = Vec::new();
    assert(args.deep_view() =~= Seq::<Seq<char>>::empty());
    push_arg(&mut args, operation_arg(op));
    push_arg(&mut args, "--flake");
    let reference = join3(flake, "#", host_name);
    push_arg(&mut args, reference.as_str());
    push_arg(&mut args, "--no-reexec");
    if host.resolve_sudo() {
        push_arg(&mut args, "--sudo");
    }
    match host {
        Host::Local { .. } => {},
        Host::Remote { addr, user, .. } => {
            push_arg(&mut args, "--target-host");
            let target = join3(user.as_str(), "@", addr.as_str());
            push_arg(&mut args, target.as_str());
        },
    }
    if host.resolve_substitutes() {
        push_arg(&mut args, "--use-substitutes");
    }
    assert(args.deep_view() =~= rebuild_args_spec(host@, *op, flake@, host_name@));
    Invocation { program: tools.rebuild.clone(), args }
}

/// The remote shell invocation that runs `command` on the host. A local
/// host has no remote shell: there is nothing to run.
pub fn remote_command(host: &Host, command: &str) -> (r: Option<Invocation>)
    ensures
        match host@ {
            HostModel::Local { .. } => r.is_none(),
            HostModel::Remote { addr, user, .. } => r.is_some() && r.unwrap()@ == ssh_spec(
                user,
                addr,
                command@,
            ),
        },
{
    match host {
        Host::Local { .. } => None,
        Host::Remote { addr, user, .. } => {
            let mut args: Vec<String> = Vec::new();
            assert(args.deep_view() =~= Seq::<Seq<char>>::empty());
            let target = join3(user.as_str(), "@", addr.as_str());
            push_arg(&mut args, target.as_str());
            push_arg(&mut args, "-T");
            push_arg(&mut args, command);
            assert(args.deep_view() =~= ssh_spec(user@, addr@, command@).args);
            Some(Invocation { program: String::from_str("ssh"), args })
        },
    }
}

/// The reboot of a host, with elevated rights where the host calls for
/// them. The local machine is never rebooted: for it there is no command.
pub fn reboot_command(host: &Host) -> (r: Option<Invocation>)
    ensures
        match host@ {
            HostModel::Local { .. } => r.is_none(),
            HostModel::Remote { addr, user, .. } => r.is_some() && r.unwrap()@ == ssh_spec(
                user,
                addr,
                reboot_word(host@.escalates()),
            ),
        },
{
    if host.resolve_sudo() {
        remote_command(host, "sudo reboot")
    } else {
        remote_command(host, "reboot")
    }
}

/// The liveness probe of a host.
pub fn probe_command(host: &Host) -> (inv: Invocation)
    ensures
        inv@ == probe_spec(host@),
{
    let mut args: Vec<String> = Vec::new();
    assert(args.deep_view() =~= Seq::<Seq<char>>::empty());
    match host {
        Host::Local { .. } => Invocation { program: String::from_str("nixos-version"), args },
        Host::Remote { addr, user, .. } => {
            let target = join3(user.as_str(), "@", addr.as_str());
            push_arg(&mut args, target.as_str());
            push_arg(&mut args, "-T");
            push_arg(&mut args, "-o");
            push_arg(&mut args, "ConnectTimeout=5");
            push_arg(&mut args, "nixos-version");
            assert(args.deep_view() =~= probe_spec(host@).args);
            Invocation { program: String::from_str("ssh"), args }
        },
    }
}

/// The fleet-wide update of the deployable unit's inputs.
pub fn update_command(cfg: &CfgObj) -> (inv: Invocation)
    ensures
        inv@.program == "nix"@,
        inv@.args == seq!["flake"@, "update"@, "--flake"@, cfg.flake_path@],
{
    let mut args: Vec<String> = Vec::new();
    assert(args.deep_view() =~= Seq::<Seq<char>>::empty());
    push_arg(&mut args, "flake");
    push_arg(&mut args, "update");
    push_arg(&mut args, "--flake");
    push_arg(&mut args, cfg.flake_path.as_str());
    assert(args.deep_view() =~= seq!["flake"@, "update"@, "--flake"@, cfg.flake_path@]);
    Invocation { program: String::from_str("nix"), args }
}

/// The fleet-wide build of the deployable unit.
pub fn build_command(tools: &Tools, cfg: &CfgObj) -> (inv: Invocation)
    ensures
        inv@.program == tools.build@,
        inv@.args == seq!["build"@, cfg.flake_path@],
{
    let mut args: Vec<String> = Vec::new();
    assert(args.deep_view() =~= Seq::<Seq<char>>::empty());
    push_arg(&mut args, "build");
    push_arg(&mut args, cfg.flake_path.as_str());
    assert(args.deep_view() =~= seq!["build"@, cfg.flake_path@]);
    Invocation { program: tools.build.clone(), args }
}

/// The command that opens the work on one host: the rebuild with the
/// requested action, or the requested command over the remote shell. A
/// command has no meaning on the local machine: there is none for it.
pub open spec fn host_command_spec(
    rebuild_tool: Seq<char>,
    host: HostModel,
    mode: ModeModel,
    flake: Seq<char>,
    host_name: Seq<char>,
) -> Option<InvocationModel> {
    match mode {
        ModeModel::Deploy { operation, .. } => Some(
            InvocationModel {
                program: rebuild_tool,
                args: rebuild_args_spec(host, operation, flake, host_name),
            },
        ),
        ModeModel::Command(command) => match host {
            HostModel::Local { .. } => None,
            HostModel::Remote { addr, user, .. } => Some(ssh_spec(user, addr, command)),
        },
    }
}

/// Builds the command that opens the work on one host.
pub fn host_command(tools: &Tools, host: &Host, mode: &Mode, flake: &str, host_name: &str) -> (r:
    Option<Invocation>)
    ensures
        match host_command_spec(tools.rebuild@, host@, mode@, flake@, host_name@) {
            Some(model) => r.is_some() && r.unwrap()@ == model,
            None => r.is_none(),
        },
{
    match mode {
        Mode::Deploy { operation, .. } => Some(
            rebuild_command(tools, host, operation, flake, host_name),
        ),
        Mode::Command(command) => remote_command(host, command.as_str()),
    }
}

/// The command for a host is a function of the tool, the host, the request,
/// the deployable unit and the host's name: two commands built from equal
/// inputs have the same executable and the same arguments, character for
/// character.
pub proof fn lemma_command_is_deterministic(
    tools_a: Tools,
    tools_b: Tools,
    host_a: Host,
    host_b: Host,
    mode_a: Mode,
    mode_b: Mode,
    flake: Seq<char>,
    host_name: Seq<char>,
    a: Option<Invocation>,
    b: Option<Invocation>,
)
    requires
        tools_a.rebuild@ == tools_b.rebuild@,
        host_a@ == host_b@,
        mode_a@ == mode_b@,
        match host_command_spec(tools_a.rebuild@, host_a@, mode_a@, flake, host_name) {
            Some(model) => a.is_some() && a.unwrap()@ == model,
            None => a.is_none(),
        },
        match host_command_spec(tools_b.rebuild@, host_b@, mode_b@, flake, host_name) {
            Some(model) => b.is_some() && b.unwrap()@ == model,
            None => b.is_none(),
        },
    ensures
        a.is_some() == b.is_some(),
        a.is_some() ==> a.unwrap()@ == b.unwrap()@,
        a.is_some() ==> a.unwrap()@.command_line() == b.unwrap()@.command_line(),
{
}

/// The arguments joined into one line, each after a space.
pub open spec fn spaced(args: Seq<Seq<char>>) -> Seq<char>
    decreases args.len(),
{
    if args.len() == 0 {
        Seq::<char>::empty()
    } else {
        spaced(args.drop_last()) + " "@ + args.last()
    }
}

impl InvocationModel {
    /// The invocation as one line: the executable and the arguments, with
    /// one space between two of them.
    pub open spec fn command_line(self) -> Seq<char> {
        self.program + spaced(self.args)
    }
}

impl Invocation {
    /// The invocation as one line, for display.
    pub fn command_line(&self) -> (r: String)
        ensures
            r@ == self@.command_line(),
    {
        let mut r = self.program.clone();
        let mut i: usize = 0;
        assert(self.args.deep_view().take(0) =~= Seq::<Seq<char>>::empty());
        while i < self.args.len()
            invariant
                i <= self.args@.len(),
                r@ == self.program@ + spaced(self.args.deep_view().take(i as int)),
            decreases self.args@.len() - i,
        {
            let ghost before = r@;
            r.append(" ");
            r.append(self.args[i].as_str());
            proof {
                let all = self.args.deep_view();
                let next = all.take(i as int + 1);
                assert(next.drop_last() =~= all.take(i as int));
                assert(next.last() == self.args@[i as int]@);
                assert(r@ =~= self.program@ + spaced(next));
            }
            i += 1;
        }
        assert(self.args.deep_view().take(i as int) =~= self.args.deep_view());
        r
    }
}

/// A section of the run, as far as it is announced.
#[derive(Clone, Copy, Debug, PartialEq, Eq)]
pub enum Phase {
    Update,
    Build,
    Deploy,
    Result,
}

/// The title under which a section of the run is announced.
pub open spec fn phase_title(phase: Phase) -> Seq<char> {
    match phase {
        Phase::Update => "Start Update"@,
        Phase::Build => "Start Build"@,
        Phase::Deploy => "Start Deploy"@,
        Phase::Result => "Result"@,
    }
}

/// The banner line that announces a section of the run.
pub fn banner(phase: Phase) -> (r: String)
    ensures
        r@ == "=== "@ + phase_title(phase) + " ==="@,
{
    let title = match phase {
        Phase::Update => "Start Update",
        Phase::Build => "Start Build",
        Phase::Deploy => "Start Deploy",
        Phase::Result => "Result",
    };
    join3("=== ", title, " ===")
}

/// The banner line that announces the run of a command on the hosts.
pub fn command_banner(command: &str) -> (r: String)
    ensures
        r@ == "=== Start Run: "@ + command@ + " ==="@,
{
    join3("=== Start Run: ", command, " ===")
}

} // verus!
