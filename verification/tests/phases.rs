use fleet_deploy::args::Mode;
use fleet_deploy::args::Operation;
use fleet_deploy::args::Plan;
use fleet_deploy::commands::host_command;
use fleet_deploy::commands::Tools;
use fleet_deploy::config::CfgObj;
use fleet_deploy::config::Host;
use fleet_deploy::config::HostTypeLocal;
use fleet_deploy::phases::run_step;
use fleet_deploy::phases::RunAction;
use fleet_deploy::phases::RunStage;
use fleet_deploy::run_util::ProcessError;

fn plan(update: bool, build: bool, targets: &[&str]) -> Plan {
    Plan {
        update,
        build,
        targets: targets.iter().map(|t| t.to_string()).collect(),
        mode: Mode::Deploy { operation: Operation::Switch, reboot: false },
    }
}

/// Runs the phases with every fleet-wide phase succeeding, but the one
/// named in `failing`; returns what was asked for, in order.
fn run(plan: &Plan, failing: Option<&str>) -> (Vec<String>, Result<(), ProcessError>) {
    let cfg = CfgObj::new("./fleet".to_string());
    let tools = Tools::new();
    let mut stage = RunStage::Start;
    let mut result = Ok(());
    let mut seen = Vec::new();
    for _ in 0..10 {
        let (next, action) = run_step(plan, &cfg, &tools, stage, result);
        stage = next;
        let what = match action {
            RunAction::Update(inv) => {
                assert_eq!(inv.command_line(), "nix flake update --flake ./fleet");
                "update"
            }
            RunAction::Build(inv) => {
                assert_eq!(inv.command_line(), "nom build ./fleet");
                "build"
            }
            RunAction::Fleet => "fleet",
            RunAction::Exit(end) => return (seen, end),
        };
        seen.push(what.to_string());
        result = if failing == Some(what) { Err(ProcessError::NonZeroExit(2)) } else { Ok(()) };
    }
    panic!("the run did not end");
}

#[test]
fn phases_run_in_order() {
    let (seen, end) = run(&plan(true, true, &["a"]), None);
    assert_eq!(seen, vec!["update", "build", "fleet"]);
    assert_eq!(end, Ok(()));
}

#[test]
fn phases_that_were_not_asked_for_are_left_out() {
    assert_eq!(run(&plan(false, false, &["a"]), None).0, vec!["fleet"]);
    assert_eq!(run(&plan(false, true, &["a"]), None).0, vec!["build", "fleet"]);
    assert_eq!(run(&plan(true, false, &[]), None).0, vec!["update"]);
    assert_eq!(run(&plan(false, true, &[]), None).0, vec!["build"]);
    assert!(run(&plan(false, false, &[]), None).0.is_empty());
}

#[test]
fn failed_update_ends_the_run() {
    let (seen, end) = run(&plan(true, true, &["a"]), Some("update"));
    assert_eq!(seen, vec!["update"]);
    assert_eq!(end, Err(ProcessError::NonZeroExit(2)));
}

#[test]
fn failed_build_ends_the_run() {
    let (seen, end) = run(&plan(true, true, &["a"]), Some("build"));
    assert_eq!(seen, vec!["update", "build"]);
    assert_eq!(end, Err(ProcessError::NonZeroExit(2)));
}

#[test]
fn what_happens_on_the_hosts_does_not_fail_the_run() {
    let (seen, end) = run(&plan(false, false, &["a"]), Some("fleet"));
    assert_eq!(seen, vec!["fleet"]);
    assert_eq!(end, Ok(()));
}

#[test]
fn ended_run_stays_ended() {
    let cfg = CfgObj::new(".".to_string());
    let tools = Tools::new();
    let p = plan(true, true, &["a"]);
    let gone = RunStage::Aborted(ProcessError::LaunchFailed);
    let (stage, action) = run_step(&p, &cfg, &tools, gone, Ok(()));
    assert_eq!(stage, gone);
    assert!(matches!(action, RunAction::Exit(Err(ProcessError::LaunchFailed))));
    let (stage, action) = run_step(&p, &cfg, &tools, RunStage::Done, Err(ProcessError::LaunchFailed));
    assert_eq!(stage, RunStage::Done);
    assert!(matches!(action, RunAction::Exit(Ok(()))));
}

#[test]
fn command_for_a_host_follows_the_request() {
    let tools = Tools::new();
    let web = Host::Remote {
        addr: "10.0.0.1".to_string(),
        user: "deploy".to_string(),
        sudo: Some(false),
        no_tty: None,
        substitutes: None,
    };
    let db = Host::Local { _type: HostTypeLocal::Local, sudo: None };
    let deploy = Mode::Deploy { operation: Operation::Test, reboot: false };
    let command = Mode::Command("df -h".to_string());
    assert_eq!(
        host_command(&tools, &web, &deploy, ".", "web1").unwrap().command_line(),
        "nixos-rebuild test --flake .#web1 --no-reexec --target-host deploy@10.0.0.1 --use-substitutes"
    );
    assert_eq!(
        host_command(&tools, &db, &deploy, ".", "db1").unwrap().command_line(),
        "nixos-rebuild test --flake .#db1 --no-reexec --sudo"
    );
    assert_eq!(
        host_command(&tools, &web, &command, ".", "web1").unwrap().command_line(),
        "ssh deploy@10.0.0.1 -T df -h"
    );
    assert!(host_command(&tools, &db, &command, ".", "db1").is_none());
}
