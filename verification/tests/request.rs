use fleet_deploy::args::copy_names;
use fleet_deploy::args::Args;
use fleet_deploy::args::ArgumentError;
use fleet_deploy::args::ConfigError;
use fleet_deploy::args::Mode;
use fleet_deploy::args::Operation;
use fleet_deploy::args::RequestError;
use fleet_deploy::config::CfgObj;
use fleet_deploy::config::Host;
use fleet_deploy::config::HostTypeLocal;

fn inventory() -> CfgObj {
    let mut cfg = CfgObj::new(".".to_string());
    cfg.insert(
        "web1".to_string(),
        Host::Remote {
            addr: "10.0.0.1".to_string(),
            user: "deploy".to_string(),
            sudo: None,
            no_tty: None,
            substitutes: None,
        },
    );
    cfg.insert("db1".to_string(), Host::Local { _type: HostTypeLocal::Local, sudo: Some(false) });
    cfg
}

fn request(hosts: &[&str]) -> Args {
    Args {
        config: "machines.yaml".to_string(),
        update: false,
        build: false,
        hosts: hosts.iter().map(|h| h.to_string()).collect(),
        all: false,
        operation: Operation::Switch,
        reboot: false,
        command: None,
    }
}

#[test]
fn named_hosts_with_all_is_rejected() {
    let mut args = request(&["web1"]);
    args.all = true;
    assert_eq!(args.check_flags(), Err(ArgumentError::HostsWithAll));
    assert!(matches!(
        args.plan(&inventory()),
        Err(RequestError::Argument(ArgumentError::HostsWithAll))
    ));
}

#[test]
fn empty_request_is_rejected() {
    let args = request(&[]);
    assert_eq!(args.check_flags(), Err(ArgumentError::NothingRequested));
    let mut args = request(&[]);
    args.update = true;
    assert_eq!(args.check_flags(), Ok(()));
    let mut args = request(&[]);
    args.build = true;
    assert_eq!(args.check_flags(), Ok(()));
    let mut args = request(&[]);
    args.all = true;
    assert_eq!(args.check_flags(), Ok(()));
}

#[test]
fn command_with_reboot_is_rejected() {
    let mut args = request(&["web1"]);
    args.command = Some("uptime".to_string());
    args.reboot = true;
    assert_eq!(args.check_flags(), Err(ArgumentError::CommandWithReboot));
}

#[test]
fn reboot_needs_an_activating_action() {
    for (op, ok) in [
        (Operation::Switch, true),
        (Operation::Boot, true),
        (Operation::Test, false),
        (Operation::DryActivate, false),
        (Operation::DryBuild, false),
    ] {
        let mut args = request(&["web1"]);
        args.reboot = true;
        args.operation = op;
        assert_eq!(op.is_activating(), ok);
        if ok {
            assert_eq!(args.check_flags(), Ok(()));
        } else {
            assert_eq!(args.check_flags(), Err(ArgumentError::RebootWithoutActivation));
        }
    }
}

#[test]
fn unknown_host_is_rejected_with_its_position() {
    let args = request(&["web1", "nope", "db1", "also-nope"]);
    assert_eq!(args.check_hosts(&inventory()), Err(ConfigError::UnknownHost(1)));
    assert!(matches!(
        args.plan(&inventory()),
        Err(RequestError::Config(ConfigError::UnknownHost(1)))
    ));
}

#[test]
fn flags_are_checked_before_hosts() {
    let mut args = request(&["nope"]);
    args.all = true;
    assert!(matches!(
        args.plan(&inventory()),
        Err(RequestError::Argument(ArgumentError::HostsWithAll))
    ));
}

#[test]
fn plan_for_named_hosts_keeps_their_order() {
    let mut args = request(&["db1", "web1"]);
    args.update = true;
    let plan = args.plan(&inventory()).unwrap();
    assert!(plan.update);
    assert!(!plan.build);
    assert_eq!(plan.targets, vec!["db1", "web1"]);
    assert!(matches!(plan.mode, Mode::Deploy { operation: Operation::Switch, reboot: false }));
}

#[test]
fn plan_for_all_hosts_follows_the_inventory() {
    let mut args = request(&[]);
    args.all = true;
    args.reboot = true;
    args.operation = Operation::Boot;
    let plan = args.plan(&inventory()).unwrap();
    assert_eq!(plan.targets, vec!["web1", "db1"]);
    assert!(matches!(plan.mode, Mode::Deploy { operation: Operation::Boot, reboot: true }));
}

#[test]
fn plan_for_a_command() {
    let mut args = request(&["web1"]);
    args.command = Some("uptime".to_string());
    let plan = args.plan(&inventory()).unwrap();
    match plan.mode {
        Mode::Command(c) => assert_eq!(c, "uptime"),
        _ => panic!("a command was asked for"),
    }
}

#[test]
fn plan_with_prelude_only_has_no_targets() {
    let mut args = request(&[]);
    args.build = true;
    let plan = args.plan(&inventory()).unwrap();
    assert!(plan.build);
    assert!(plan.targets.is_empty());
}

#[test]
fn names_are_copied() {
    let names = vec!["a".to_string(), "b".to_string()];
    assert_eq!(copy_names(&names), names);
    assert!(copy_names(&Vec::new()).is_empty());
}
