use bwrap_core::bwrap::{
    first_event_decision, ready_flag_ok, ready_signal, wait_step, BwrapProcBuilder, WaitStep,
};
use bwrap_core::command::SandboxCommand;
use bwrap_core::config::{Cmd, EnvVal, TempFileVal, TemplateArgs};
use bwrap_core::error::AppError;
use bwrap_core::events::{Events, ExitStatus};
use bwrap_core::models::{filter_argv, DbusConfig};
use bwrap_core::service::ServiceKind;
use bwrap_core::services::appimage::AppImageExtract;
use bwrap_core::services::dbus;
use bwrap_core::services::env_mapper::{EnvMapper, EnvPair};
use bwrap_core::services::seccomp::{
    arch_token_valid, seccomp_plan, syscall_number_valid, Action, Arch, FilterOp, SeccompConfig,
    SeccompRule, SeccompService, Syscall, Version,
};
use bwrap_core::services::slirp4netns;

fn empty_cmd() -> Cmd {
    Cmd { bin: None, template: None, inline: None }
}

fn strings(items: &[&str]) -> Vec<String> {
    items.iter().map(|s| (*s).to_string()).collect()
}

#[test]
fn test_bwrap() {
    let user_args = strings(&["--bind", "/home", "/home"]);
    let temp_dir = "/tmp".to_string();
    let mut builder = BwrapProcBuilder::new(user_args, &temp_dir).unwrap();
    let services: Vec<ServiceKind> = Vec::new();
    let _cleanup = builder.apply_services(&services);
    builder.append_payload("ls".to_string(), strings(&["/"]));
    let (command, _ready, _status) = builder.into_parts();
    assert_eq!(command.program(), "bwrap");
    let args = command.arg_list();
    assert_eq!(&args[0..3], &strings(&["--bind", "/tmp", "/tmp"])[..]);
    assert_eq!(args[3], "--block-fd");
    assert!(args[4].parse::<i32>().is_ok());
    assert_eq!(args[5], "--json-status-fd");
    assert!(args[6].parse::<i32>().is_ok());
    assert_eq!(&args[7..10], &strings(&["--bind", "/home", "/home"])[..]);
    assert_eq!(&args[10..], &strings(&["ls", "/"])[..]);
}

#[test]
fn test_service_order() {
    // All before-pass arguments, then the user's, then all after-pass
    // arguments, each group in service order.
    let mapper = EnvMapper {
        unset_all: true,
        keep: vec![EnvPair { name: "BWRAP_TEST".to_string(), value: Some("abc".to_string()) }],
        unset: vec!["BWRAP_FAKE".to_string()],
    };
    let appimage = AppImageExtract { extract_and_run: true };
    let services = vec![ServiceKind::EnvMapper(mapper), ServiceKind::AppImage(appimage)];

    let user_args = strings(&["--dev", "/dev"]);
    let temp_dir = "/tmp".to_string();
    let mut builder = BwrapProcBuilder::new(user_args, &temp_dir).unwrap();
    let _cleanup = builder.apply_services(&services);
    let (command, _ready, _status) = builder.into_parts();
    let args = command.arg_list();
    let expected_tail = strings(
        &[
            "--clearenv",
            "--setenv",
            "BWRAP_TEST",
            "abc",
            "--unsetenv",
            "BWRAP_FAKE",
            "--dev",
            "/dev",
            "--setenv",
            "APPIMAGE_EXTRACT_AND_RUN",
            "1",
        ],
    );
    assert_eq!(&args[7..], &expected_tail[..]);
}

#[test]
fn test_env_mapper_args() {
    let mapper = EnvMapper {
        unset_all: true,
        keep: vec![
            EnvPair { name: "BWRAP_TEST".to_string(), value: Some("abc".to_string()) },
            EnvPair { name: "MISSING".to_string(), value: None },
        ],
        unset: vec![],
    };
    let mut cmd = SandboxCommand::new("bwrap".to_string());
    let scope = mapper.apply_before(&mut cmd);
    assert!(scope.is_empty());
    assert_eq!(
        cmd.arg_list(),
        &strings(&["--clearenv", "--setenv", "BWRAP_TEST", "abc"]),
    );
    let mut cmd2 = SandboxCommand::new("bwrap".to_string());
    let _ = mapper.apply_after(&mut cmd2);
    assert!(cmd2.arg_list().is_empty());
}

#[test]
fn test_app_image() {
    let service = AppImageExtract { extract_and_run: true };
    let mut cmd = SandboxCommand::new("bwrap".to_string());
    let _ = service.apply_before(&mut cmd);
    assert!(cmd.arg_list().is_empty());
    let _ = service.apply_after(&mut cmd);
    assert_eq!(
        cmd.arg_list(),
        &strings(&["--setenv", "APPIMAGE_EXTRACT_AND_RUN", "1"]),
    );

    let off = AppImageExtract { extract_and_run: false };
    let mut cmd2 = SandboxCommand::new("bwrap".to_string());
    let _ = off.apply_after(&mut cmd2);
    assert!(cmd2.arg_list().is_empty());
}

#[test]
fn test_seccomp() {
    let cfg = SeccompConfig {
        default_action: Action::Allow,
        extra_arch: vec![Arch::from_raw(0x40000003)],
        rules: vec![
            SeccompRule {
                action: Action::Errno,
                syscalls: vec![Syscall::from_raw(217), Syscall::from_raw(2)],
            },
            SeccompRule { action: Action::Allow, syscalls: vec![Syscall::from_raw(2)] },
        ],
    };
    let plan = seccomp_plan(&cfg);
    assert_eq!(
        plan,
        vec![
            FilterOp::AddArch(0x40000003),
            FilterOp::AddRule(0x00050001, 217),
            FilterOp::AddRule(0x00050001, 2),
            FilterOp::AddRule(0x7fff0000, 2),
        ],
    );
    assert_eq!(Action::Kill.as_u32(), 0x80000000);
    assert_eq!(Action::Errno.as_u32(), 0x00050001);
    assert_eq!(Action::Allow.as_u32(), 0x7fff0000);

    let service = SeccompService::new(5);
    let mut cmd = SandboxCommand::new("bwrap".to_string());
    let scope = service.apply_after(&mut cmd);
    assert!(scope.is_empty());
    assert_eq!(cmd.arg_list(), &strings(&["--seccomp", "5"]));
}

#[test]
fn seccomp_token_validity() {
    // The filter library's failure values: the zero architecture token and
    // the minus-one syscall number.
    assert!(arch_token_valid(0x40000003));
    assert!(!arch_token_valid(0));
    assert!(syscall_number_valid(0));
    assert!(syscall_number_valid(217));
    assert!(!syscall_number_valid(-1));
}

#[test]
fn seccomp_version_requirement() {
    assert!(Version { major: 2, minor: 5, micro: 0 }.verify_version(2, 5));
    assert!(Version { major: 2, minor: 6, micro: 1 }.verify_version(2, 5));
    assert!(Version { major: 3, minor: 0, micro: 0 }.verify_version(2, 5));
    assert!(!Version { major: 2, minor: 4, micro: 9 }.verify_version(2, 5));
    assert!(!Version { major: 1, minor: 9, micro: 0 }.verify_version(2, 5));
}

#[test]
fn test_dbus() {
    let cfg = dbus::Config {
        user_bus: EnvVal::new("/run/user/1000/bus".to_string()),
        sandboxed_bus: EnvVal::new("/run/user/1000/bus".to_string()),
        proxy_bus: TempFileVal::new("dbus", "/tmp", "id1"),
        cmd: Cmd {
            bin: None,
            template: None,
            inline: Some(vec![bwrap_core::config::ArgVal::Str {
                value: "--talk=org.freedesktop.DBus".to_string(),
            }]),
        },
    };
    let template = TemplateArgs::new(None);
    let service = dbus::DbusService::from_config(cfg, &template).unwrap();
    assert_eq!(
        service.start_argv(),
        &strings(
            &["/run/user/1000/bus", "/tmp/bwrap_core-dbus-id1", "--talk=org.freedesktop.DBus"],
        ),
    );
    assert_eq!(service.proxy_bus_path(), "/tmp/bwrap_core-dbus-id1");

    let mut cmd = SandboxCommand::new("bwrap".to_string());
    let scope = service.apply_after(&mut cmd);
    assert_eq!(
        cmd.arg_list(),
        &strings(&["--symlink", "/tmp/bwrap_core-dbus-id1", "/run/user/1000/bus"]),
    );
    assert_eq!(scope.paths(), &strings(&["/tmp/bwrap_core-dbus-id1"]));
}

#[test]
fn dbus_filter_argv_shape() {
    let cfg = DbusConfig {
        bin: "xdg-dbus-proxy".to_string(),
        bus_address: "/run/user/1000/bus".to_string(),
        own: strings(&["org.example.Own"]),
        talk: strings(&["org.freedesktop.DBus", "org.example.Talk"]),
    };
    let socket = "/tmp/proxy".to_string();
    assert_eq!(
        filter_argv(&cfg, &socket),
        strings(
            &[
                "/run/user/1000/bus",
                "/tmp/proxy",
                "--filter",
                "--talk=org.freedesktop.DBus",
                "--talk=org.example.Talk",
                "--own=org.example.Own",
            ],
        ),
    );
}

#[test]
fn slirp_apply_after_isolates_network() {
    let cfg = slirp4netns::Config {
        if_name: "tap0".to_string(),
        resolv_conf: None,
        quiet: true,
        cmd: empty_cmd(),
    };
    let template = TemplateArgs::new(None);
    let service =
        slirp4netns::Slirp4netns::from_config(cfg, &template, Some("/tmp/resolv".to_string()))
            .unwrap();
    let mut cmd = SandboxCommand::new("bwrap".to_string());
    let scope = service.apply_after(&mut cmd);
    assert_eq!(
        cmd.arg_list(),
        &strings(&["--unshare-net", "--ro-bind", "/tmp/resolv", "/etc/resolv.conf"]),
    );
    assert_eq!(scope.paths(), &strings(&["/tmp/resolv"]));

    let cfg2 = slirp4netns::Config {
        if_name: "tap0".to_string(),
        resolv_conf: None,
        quiet: true,
        cmd: empty_cmd(),
    };
    let service2 = slirp4netns::Slirp4netns::from_config(cfg2, &TemplateArgs::new(None), None)
        .unwrap();
    let mut cmd2 = SandboxCommand::new("bwrap".to_string());
    let scope2 = service2.apply_after(&mut cmd2);
    assert_eq!(cmd2.arg_list(), &strings(&["--unshare-net"]));
    assert!(scope2.is_empty());
}

#[test]
fn slirp_start_argv_shape() {
    let cfg = slirp4netns::Config {
        if_name: "tap9".to_string(),
        resolv_conf: None,
        quiet: false,
        cmd: empty_cmd(),
    };
    let service = slirp4netns::Slirp4netns::from_config(cfg, &TemplateArgs::new(None), None)
        .unwrap();
    assert!(!service.quiet());
    let argv = service.start_argv(4321, false);
    assert_eq!(argv[0], "--ready-fd");
    assert!(argv[1].parse::<i32>().is_ok());
    assert_eq!(&argv[2..], &strings(&["4321", "tap9"])[..]);

    let argv2 = service.start_argv(4321, true);
    assert_eq!(argv2.last().unwrap(), "--userns-path=/proc/self/ns/user");
    assert_eq!(argv2.len(), argv.len() + 1);
}

#[test]
fn slirp_namespace_decisions() {
    assert!(!slirp4netns::needs_intermediate_ns(7, 7));
    assert!(slirp4netns::needs_intermediate_ns(7, 8));
    assert_eq!(slirp4netns::proc_ns_user_path(42), "/proc/42/ns/user");
    assert!(slirp4netns::ready_outcome(Some(1)).is_ok());
    assert!(slirp4netns::ready_outcome(Some(255)).is_ok());
    assert!(slirp4netns::ready_outcome(None).is_err());
}

#[test]
fn slirp_ready_eof_is_fatal() {
    let cfg = slirp4netns::Config {
        if_name: "tap0".to_string(),
        resolv_conf: None,
        quiet: true,
        cmd: empty_cmd(),
    };
    let service = slirp4netns::Slirp4netns::from_config(cfg, &TemplateArgs::new(None), None)
        .unwrap();
    // Nothing holds the write end beyond the service itself; consuming the
    // service closes it, so the readiness read sees end-of-file.
    let rx = service.into_ready_rx();
    match slirp4netns::await_ready(&rx) {
        Err(AppError::Io(_, _)) => {}
        other => panic!("expected the readiness read to fail, got {:?}", other),
    }
}

#[test]
fn ready_byte_protocol() {
    // The orchestrator always writes 0x01; the helper proceeds on any
    // non-zero byte.
    assert_eq!(ready_signal(), 1);
    assert!(ready_flag_ok(ready_signal()));
    assert!(ready_flag_ok(2));
    assert!(ready_flag_ok(255));
    assert!(!ready_flag_ok(0));
}

#[test]
fn first_event_decisions() {
    let status = bwrap_core::events::parse_event(b"{\"child-pid\": 9}").unwrap();
    match first_event_decision(Some(status)) {
        Ok(s) => assert_eq!(s.child_pid, 9),
        Err(e) => panic!("expected the status to open the protocol, got {:?}", e),
    }
    match first_event_decision(None) {
        Err(AppError::Io(_, _)) => {}
        other => panic!("expected an I/O error on EOF, got {:?}", other),
    }
    let exit = bwrap_core::events::parse_event(b"{\"exit-code\": 0}").unwrap();
    match first_event_decision(Some(exit)) {
        Err(AppError::BwrapEvent(_)) => {}
        other => panic!("expected a protocol error on an early exit, got {:?}", other),
    }
}

#[test]
fn wait_step_decisions() {
    assert_eq!(wait_step(None), WaitStep::Done(-1));
    assert_eq!(
        wait_step(Some(Events::Exit(ExitStatus { exit_code: 7 }))),
        WaitStep::Done(7),
    );
    let status = bwrap_core::events::parse_event(b"{\"child-pid\": 1}").unwrap();
    assert_eq!(wait_step(Some(status)), WaitStep::Skip);
}
