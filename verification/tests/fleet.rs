use fleet_deploy::args::Mode;
use fleet_deploy::args::Operation;
use fleet_deploy::commands::Tools;
use fleet_deploy::config::CfgObj;
use fleet_deploy::config::Host;
use fleet_deploy::config::HostTypeLocal;
use fleet_deploy::deploy::assemble_report;
use fleet_deploy::deploy::host_step;
use fleet_deploy::deploy::render_line;
use fleet_deploy::deploy::render_report;
use fleet_deploy::deploy::Completion;
use fleet_deploy::deploy::DeployError;
use fleet_deploy::deploy::DeployOutcome;
use fleet_deploy::deploy::Fleet;
use fleet_deploy::deploy::ReportEntry;
use fleet_deploy::deploy::TaskAction;
use fleet_deploy::deploy::TaskState;
use fleet_deploy::recovery::RecoveryState;
use fleet_deploy::run_util::ProcessError;
use fleet_deploy::commands::Phase;
use fleet_deploy::style::skip_notice;
use fleet_deploy::style::styled_banner;
use fleet_deploy::style::styled_report_line;
use fleet_deploy::style::styled_stream_line;

fn inventory() -> CfgObj {
    let mut cfg = CfgObj::new(".".to_string());
    cfg.insert(
        "web1".to_string(),
        Host::Remote {
            addr: "10.0.0.1".to_string(),
            user: "deploy".to_string(),
            sudo: None,
            no_tty: None,
            substitutes: None,
        },
    );
    cfg.insert("db1".to_string(), Host::Local { _type: HostTypeLocal::Local, sudo: Some(false) });
    cfg.insert(
        "web2".to_string(),
        Host::Remote {
            addr: "10.0.0.2".to_string(),
            user: "root".to_string(),
            sudo: None,
            no_tty: None,
            substitutes: Some(false),
        },
    );
    cfg
}

fn deploy(reboot: bool) -> Mode {
    Mode::Deploy { operation: Operation::Switch, reboot }
}

fn ok(text: &str) -> Result<String, ProcessError> {
    Ok(text.to_string())
}

fn line_of(action: &TaskAction) -> String {
    match action {
        TaskAction::Run(inv) => inv.command_line(),
        _ => panic!("a command was expected"),
    }
}

fn same(a: &DeployOutcome, b: &DeployOutcome) -> bool {
    match (a, b) {
        (DeployOutcome::Success(x), DeployOutcome::Success(y)) => x == y,
        (DeployOutcome::Failure(x), DeployOutcome::Failure(y)) => x == y,
        _ => false,
    }
}

fn outcome_of(action: TaskAction) -> DeployOutcome {
    match action {
        TaskAction::Finish { outcome, .. } => outcome,
        _ => panic!("the task was expected to finish"),
    }
}

#[test]
fn scenario_commands_for_two_hosts() {
    let cfg = inventory();
    let tools = Tools::new();
    let (state, action) = host_step(&cfg, &tools, &deploy(false), "web1", TaskState::Pending, &ok(""));
    assert_eq!(state, TaskState::Deploying);
    assert_eq!(
        line_of(&action),
        "nixos-rebuild switch --flake .#web1 --no-reexec --sudo --target-host deploy@10.0.0.1 --use-substitutes"
    );
    let (state, action) = host_step(&cfg, &tools, &deploy(false), "db1", TaskState::Pending, &ok(""));
    assert_eq!(state, TaskState::Deploying);
    match &action {
        TaskAction::Run(inv) => {
            assert_eq!(inv.args, vec!["switch", "--flake", ".#db1", "--no-reexec"]);
        }
        _ => panic!("a command was expected"),
    }
}

#[test]
fn unknown_host_fails_at_once() {
    let cfg = inventory();
    let (state, action) =
        host_step(&cfg, &Tools::new(), &deploy(false), "ghost", TaskState::Pending, &ok(""));
    assert_eq!(state, TaskState::Finished);
    assert!(same(&outcome_of(action), &DeployOutcome::Failure(DeployError::HostNotFound)));
}

#[test]
fn failed_rebuild_ends_the_task() {
    let cfg = inventory();
    let failure = Err(ProcessError::NonZeroExit(4));
    let (state, action) =
        host_step(&cfg, &Tools::new(), &deploy(true), "web1", TaskState::Deploying, &failure);
    assert_eq!(state, TaskState::Finished);
    assert!(same(
        &outcome_of(action),
        &DeployOutcome::Failure(DeployError::Process(ProcessError::NonZeroExit(4)))
    ));
}

#[test]
fn deploy_without_reboot_is_confirmed_by_version_check() {
    let cfg = inventory();
    let tools = Tools::new();
    let (state, action) =
        host_step(&cfg, &tools, &deploy(false), "web1", TaskState::Deploying, &ok("built"));
    assert_eq!(state, TaskState::Recovering(RecoveryState::Checking));
    assert_eq!(line_of(&action), "ssh deploy@10.0.0.1 -T -o ConnectTimeout=5 nixos-version");
    let (state, action) = host_step(&cfg, &tools, &deploy(false), "web1", state, &ok("24.11.abc"));
    assert_eq!(state, TaskState::Finished);
    assert!(same(&outcome_of(action), &DeployOutcome::Success(Some("24.11.abc".to_string()))));
}

#[test]
fn failed_version_check_fails_the_host() {
    let cfg = inventory();
    let state = TaskState::Recovering(RecoveryState::Checking);
    let (state, action) = host_step(
        &cfg,
        &Tools::new(),
        &deploy(false),
        "web1",
        state,
        &Err(ProcessError::NonZeroExit(255)),
    );
    assert_eq!(state, TaskState::Finished);
    assert!(same(
        &outcome_of(action),
        &DeployOutcome::Failure(DeployError::Process(ProcessError::NonZeroExit(255)))
    ));
}

/// Runs the task of one host to its end. `rebuild` is how the rebuild ends;
/// the probe fails `probe_fails` times before it answers `version`.
fn run_task(
    cfg: &CfgObj,
    mode: &Mode,
    host: &str,
    rebuild: Result<String, ProcessError>,
    probe_fails: usize,
    version: &str,
) -> (DeployOutcome, Vec<String>, Vec<u64>) {
    let tools = Tools::new();
    let mut state = TaskState::Pending;
    let mut result = ok("");
    let mut lines = Vec::new();
    let mut sleeps = Vec::new();
    let mut probes = 0usize;
    for _ in 0..100 {
        let (next, action) = host_step(cfg, &tools, mode, host, state, &result);
        state = next;
        match action {
            TaskAction::Run(inv) => {
                let line = inv.command_line();
                result = if line.ends_with("nixos-version") {
                    probes += 1;
                    if probes > probe_fails {
                        ok(version)
                    } else {
                        Err(ProcessError::NonZeroExit(255))
                    }
                } else if line.ends_with("reboot") {
                    Err(ProcessError::NonZeroExit(255))
                } else {
                    rebuild.clone()
                };
                lines.push(line);
            }
            TaskAction::Sleep(units) => {
                sleeps.push(units);
                result = ok("");
            }
            TaskAction::Finish { outcome, .. } => {
                assert_eq!(state, TaskState::Finished);
                return (outcome, lines, sleeps);
            }
            TaskAction::Nothing => panic!("the task ended without an outcome"),
        }
    }
    panic!("the task did not end");
}

#[test]
fn remote_reboot_recovers_after_two_failed_probes() {
    let cfg = inventory();
    let (outcome, lines, sleeps) = run_task(&cfg, &deploy(true), "web1", ok(""), 2, "25.05");
    assert!(same(&outcome, &DeployOutcome::Success(Some("25.05".to_string()))));
    assert_eq!(
        lines,
        vec![
            "nixos-rebuild switch --flake .#web1 --no-reexec --sudo --target-host deploy@10.0.0.1 --use-substitutes",
            "ssh deploy@10.0.0.1 -T sudo reboot",
            "ssh deploy@10.0.0.1 -T -o ConnectTimeout=5 nixos-version",
            "ssh deploy@10.0.0.1 -T -o ConnectTimeout=5 nixos-version",
            "ssh deploy@10.0.0.1 -T -o ConnectTimeout=5 nixos-version",
        ]
    );
    assert_eq!(sleeps, vec![30, 10, 10]);
}

#[test]
fn remote_reboot_as_root_uses_plain_reboot() {
    let cfg = inventory();
    let (outcome, lines, _) = run_task(&cfg, &deploy(true), "web2", ok(""), 0, "v");
    assert!(outcome.is_success());
    assert_eq!(lines[1], "ssh root@10.0.0.2 -T reboot");
}

#[test]
fn remote_reboot_gives_up_after_ten_probes() {
    let cfg = inventory();
    let (outcome, lines, sleeps) = run_task(&cfg, &deploy(true), "web1", ok(""), 1000, "v");
    assert!(same(&outcome, &DeployOutcome::Failure(DeployError::RecoveryExhausted)));
    assert_eq!(lines.iter().filter(|l| l.ends_with("nixos-version")).count(), 10);
    assert_eq!(sleeps.len(), 10);
    assert_eq!(sleeps[0], 30);
    assert!(sleeps[1..].iter().all(|s| *s == 10));
}

#[test]
fn local_host_with_reboot_is_never_rebooted() {
    let cfg = inventory();
    let (outcome, lines, sleeps) = run_task(&cfg, &deploy(true), "db1", ok(""), 0, "25.05");
    assert!(same(&outcome, &DeployOutcome::Success(Some("25.05".to_string()))));
    assert_eq!(lines, vec!["nixos-rebuild switch --flake .#db1 --no-reexec", "nixos-version"]);
    assert!(sleeps.is_empty());
    let (outcome, lines, _) = run_task(&cfg, &deploy(true), "db1", ok(""), 1, "25.05");
    assert!(same(
        &outcome,
        &DeployOutcome::Failure(DeployError::Process(ProcessError::NonZeroExit(255)))
    ));
    assert!(!lines.iter().any(|l| l.contains("reboot")));
}

#[test]
fn command_mode_runs_on_remote_and_skips_local() {
    let cfg = inventory();
    let mode = Mode::Command("uptime".to_string());
    let tools = Tools::new();
    let (state, action) = host_step(&cfg, &tools, &mode, "web1", TaskState::Pending, &ok(""));
    assert_eq!(state, TaskState::Commanding);
    assert_eq!(line_of(&action), "ssh deploy@10.0.0.1 -T uptime");
    let (state, action) = host_step(&cfg, &tools, &mode, "web1", state, &ok("up 3 days"));
    assert_eq!(state, TaskState::Finished);
    assert!(same(&outcome_of(action), &DeployOutcome::Success(None)));
    let (state, action) = host_step(&cfg, &tools, &mode, "db1", TaskState::Pending, &ok(""));
    assert_eq!(state, TaskState::Finished);
    match action {
        TaskAction::Finish { outcome, skipped } => {
            assert!(skipped);
            assert!(same(&outcome, &DeployOutcome::Success(None)));
        }
        _ => panic!("the task was expected to finish"),
    }
}

#[test]
fn failed_command_fails_the_host() {
    let cfg = inventory();
    let mode = Mode::Command("false".to_string());
    let (state, action) = host_step(
        &cfg,
        &Tools::new(),
        &mode,
        "web1",
        TaskState::Commanding,
        &Err(ProcessError::LaunchFailed),
    );
    assert_eq!(state, TaskState::Finished);
    assert!(same(
        &outcome_of(action),
        &DeployOutcome::Failure(DeployError::Process(ProcessError::LaunchFailed))
    ));
}

#[test]
fn finished_task_asks_for_nothing() {
    let cfg = inventory();
    let (state, action) =
        host_step(&cfg, &Tools::new(), &deploy(false), "web1", TaskState::Finished, &ok(""));
    assert_eq!(state, TaskState::Finished);
    assert!(matches!(action, TaskAction::Nothing));
}

#[test]
fn failing_host_does_not_hold_the_others_back() {
    let cfg = inventory();
    let tools = Tools::new();
    let mode = deploy(false);
    let hosts = vec!["web1".to_string(), "db1".to_string(), "web2".to_string()];
    let mut fleet = Fleet::new(hosts.clone());
    assert_eq!(fleet.states, vec![TaskState::Pending; 3]);
    for i in 0..3 {
        assert!(matches!(fleet.advance(&cfg, &tools, &mode, i, &ok("")), TaskAction::Run(_)));
    }
    // db1 fails its rebuild first.
    let failed = fleet.advance(&cfg, &tools, &mode, 1, &Err(ProcessError::NonZeroExit(1)));
    assert!(!outcome_of(failed).is_success());
    assert_eq!(
        fleet.states,
        vec![TaskState::Deploying, TaskState::Finished, TaskState::Deploying]
    );
    assert!(!fleet.all_finished());
    let mut completions = vec![Completion {
        index: 1,
        outcome: DeployOutcome::Failure(DeployError::Process(ProcessError::NonZeroExit(1))),
    }];
    for i in [2usize, 0usize] {
        assert!(matches!(fleet.advance(&cfg, &tools, &mode, i, &ok("")), TaskAction::Run(_)));
        let done = fleet.advance(&cfg, &tools, &mode, i, &ok("25.05"));
        let outcome = outcome_of(done);
        assert!(outcome.is_success());
        completions.push(Completion { index: i, outcome });
    }
    assert!(fleet.all_finished());
    let report = assemble_report(&hosts, &completions).unwrap();
    let names: Vec<&str> = report.iter().map(|e| e.host.as_str()).collect();
    assert_eq!(names, vec!["web1", "db1", "web2"]);
    assert!(report[0].outcome.is_success());
    assert!(!report[1].outcome.is_success());
    assert!(report[2].outcome.is_success());
}

#[test]
fn report_keeps_host_order_whatever_the_completion_order() {
    let hosts = vec!["A".to_string(), "B".to_string(), "C".to_string()];
    let completions = vec![
        Completion { index: 1, outcome: DeployOutcome::Failure(DeployError::RecoveryExhausted) },
        Completion { index: 0, outcome: DeployOutcome::Success(Some("v1".to_string())) },
        Completion { index: 2, outcome: DeployOutcome::Success(None) },
    ];
    let report = assemble_report(&hosts, &completions).unwrap();
    assert_eq!(report.len(), 3);
    assert_eq!(report[0].host, "A");
    assert_eq!(report[1].host, "B");
    assert_eq!(report[2].host, "C");
    assert!(same(&report[0].outcome, &DeployOutcome::Success(Some("v1".to_string()))));
    assert!(same(&report[1].outcome, &DeployOutcome::Failure(DeployError::RecoveryExhausted)));
    assert!(same(&report[2].outcome, &DeployOutcome::Success(None)));
}

#[test]
fn report_needs_each_host_exactly_once() {
    let hosts = vec!["A".to_string(), "B".to_string()];
    let one = |index: usize| Completion { index, outcome: DeployOutcome::Success(None) };
    assert!(assemble_report(&hosts, &vec![one(0)]).is_none());
    assert!(assemble_report(&hosts, &vec![one(0), one(0)]).is_none());
    assert!(assemble_report(&hosts, &vec![one(0), one(2)]).is_none());
    assert!(assemble_report(&hosts, &vec![one(0), one(1), one(1)]).is_none());
    assert!(assemble_report(&hosts, &vec![one(1), one(0)]).is_some());
    assert!(assemble_report(&Vec::new(), &Vec::new()).unwrap().is_empty());
}

#[test]
fn report_lines() {
    let entry = |host: &str, outcome: DeployOutcome| ReportEntry { host: host.to_string(), outcome };
    assert_eq!(
        render_line(&entry("web1", DeployOutcome::Success(Some("25.05".to_string())))),
        "\u{2705} web1: 25.05"
    );
    assert_eq!(render_line(&entry("web1", DeployOutcome::Success(None))), "\u{2705} web1: Success");
    assert_eq!(
        render_line(&entry(
            "db1",
            DeployOutcome::Failure(DeployError::Process(ProcessError::NonZeroExit(3)))
        )),
        "\u{274c} db1: Command failed with exit code 3"
    );
    assert_eq!(
        render_line(&entry("db1", DeployOutcome::Failure(DeployError::HostNotFound))),
        "\u{274c} db1: host not found"
    );
    assert_eq!(
        render_line(&entry("db1", DeployOutcome::Failure(DeployError::RecoveryExhausted))),
        "\u{274c} db1: host did not come back after reboot"
    );
    let report = vec![
        entry("a", DeployOutcome::Success(None)),
        entry("b", DeployOutcome::Failure(DeployError::HostNotFound)),
    ];
    assert_eq!(render_report(&report), vec!["\u{2705} a: Success", "\u{274c} b: host not found"]);
}

#[test]
fn outcome_parts() {
    let o = DeployOutcome::Success(Some("x".to_string()));
    assert_eq!(o.marker(), "\u{2705}");
    assert_eq!(o.detail(), "x");
    assert!(same(&o.duplicate(), &o));
    let f = DeployOutcome::Failure(DeployError::HostNotFound);
    assert_eq!(f.marker(), "\u{274c}");
    assert_eq!(f.detail(), "host not found");
    assert!(same(&f.duplicate(), &f));
    assert_eq!(DeployError::HostNotFound.message(), "host not found");
}

#[test]
fn styled_lines_keep_their_text() {
    let entry = ReportEntry {
        host: "web1".to_string(),
        outcome: DeployOutcome::Success(Some("25.05".to_string())),
    };
    let line = styled_report_line(&entry);
    assert!(line.starts_with("\u{2705} "));
    assert!(line.contains("web1"));
    assert!(line.contains(": "));
    assert!(line.contains("25.05"));
    let line = styled_stream_line("web1", true, "warning: x");
    assert!(line.contains("web1"));
    assert!(line.ends_with(": warning: x"));
    assert!(skip_notice("db1").ends_with(": Skipping local host"));
    assert!(styled_banner(Phase::Deploy).contains("=== Start Deploy ==="));
}
