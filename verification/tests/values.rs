use bwrap_core::config::{ArgVal, Cmd, EnvVal, TempFileVal, TemplateArgs};
use bwrap_core::error::AppError;
use bwrap_core::fd::SharedPipe;
use bwrap_core::scope::{Scope, ScopeCleanup};
use bwrap_core::services::slirp4netns::Namespace;
use bwrap_core::util::{
    bwrap_bin, dbus_proxy_bin, poll_file, poll_step, sandbox_id, slirp4netns_bin, PollStep,
};

fn sorted(paths: &Vec<String>) -> Vec<String> {
    let mut out = paths.clone();
    out.sort();
    out
}

#[test]
fn test_tmp_file() {
    let id = sandbox_id();
    let first = TempFileVal::new("first", "/tmp", &id);
    let second = TempFileVal::new("second", "/tmp", &id);
    assert_ne!(first, second);

    let first2 = TempFileVal::new("first", "/tmp", &id);
    assert_eq!(first, first2);
}

#[test]
fn temp_file_path_shape() {
    let v = TempFileVal::new("dbus", "/run/user/1000", "77");
    assert_eq!(v.as_inner(), "/run/user/1000/bwrap_core-dbus-77");
    assert_eq!(v.into_inner(), "/run/user/1000/bwrap_core-dbus-77");
}

#[test]
fn scope_deduplicates_paths() {
    let scope = Scope::new()
        .remove_file("/tmp/a".to_string())
        .remove_file("/tmp/b".to_string())
        .remove_file("/tmp/a".to_string());
    assert_eq!(sorted(scope.paths()), vec!["/tmp/a".to_string(), "/tmp/b".to_string()]);
}

#[test]
fn scope_merge_is_idempotent_and_commutative() {
    let make_ab = || Scope::new().remove_file("/a".to_string()).remove_file("/b".to_string());
    let make_bc = || Scope::new().remove_file("/b".to_string()).remove_file("/c".to_string());

    let mut ab_bc = make_ab();
    ab_bc.merge(make_bc());
    let mut bc_ab = make_bc();
    bc_ab.merge(make_ab());
    assert_eq!(sorted(ab_bc.paths()), sorted(bc_ab.paths()));
    assert_eq!(
        sorted(ab_bc.paths()),
        vec!["/a".to_string(), "/b".to_string(), "/c".to_string()],
    );

    let mut twice = make_ab();
    twice.merge(make_bc());
    twice.merge(make_bc());
    assert_eq!(sorted(twice.paths()), sorted(ab_bc.paths()));
}

#[test]
fn scope_emptiness() {
    assert!(Scope::new().is_empty());
    assert!(!Scope::new().remove_file("/x".to_string()).is_empty());
}

#[test]
fn cleanup_hands_paths_out_exactly_once() {
    let a = Scope::new().remove_file("/a".to_string());
    let b = Scope::new().remove_file("/b".to_string()).remove_file("/a".to_string());
    let mut cleanup = ScopeCleanup::new(vec![a, b]);
    assert!(!cleanup.is_spent());

    let first = cleanup.take().expect("the first take returns the paths");
    assert_eq!(sorted(first.paths()), vec!["/a".to_string(), "/b".to_string()]);
    assert!(cleanup.is_spent());

    assert!(cleanup.take().is_none());
    assert!(cleanup.take().is_none());
}

#[test]
fn pipe_sharing_is_idempotent() {
    let mut pipe = SharedPipe::new().unwrap();
    pipe.share_rx().unwrap();
    pipe.share_rx().unwrap();
    let fd_arg = pipe.rx_fd_arg();
    let parsed: i32 = fd_arg.parse().unwrap();
    assert_eq!(parsed, pipe.rx_raw_fd());
    assert!(parsed >= 0);
    // The write end stayed parent-exclusive and may still be consumed.
    let _tx = pipe.into_tx();
}

#[test]
fn arg_values_render_to_strings() {
    let s = ArgVal::Str { value: "plain".to_string() };
    let e = ArgVal::Env { value: EnvVal::new("expanded".to_string()) };
    let t = ArgVal::Tempfile { name: TempFileVal::new("ctx", "/tmp", "9") };
    assert_eq!(s.to_str(), "plain");
    assert_eq!(e.to_str(), "expanded");
    assert_eq!(t.to_str(), "/tmp/bwrap_core-ctx-9");
}

#[test]
fn env_val_wraps_a_value() {
    let v = EnvVal::new("x".to_string());
    assert_eq!(v.as_inner(), "x");
    assert_eq!(v.into_inner(), "x");
}

#[test]
fn template_args_split_into_words() {
    let none = TemplateArgs::new(None);
    assert!(none.to_args().unwrap().is_empty());

    let some = TemplateArgs::new(Some("--bind '/with space' /b".to_string()));
    assert_eq!(
        some.to_args().unwrap(),
        vec!["--bind".to_string(), "/with space".to_string(), "/b".to_string()],
    );

    let broken = TemplateArgs::new(Some("'unclosed".to_string()));
    match broken.to_args() {
        Err(AppError::Config(_)) => {}
        other => panic!("expected a config error, got {:?}", other),
    }
}

#[test]
fn cmd_collects_inline_then_template_words() {
    let cmd = Cmd {
        bin: Some(EnvVal::new("helper".to_string())),
        template: None,
        inline: Some(vec![
            ArgVal::Str { value: "--one".to_string() },
            ArgVal::Str { value: "--two".to_string() },
        ]),
    };
    assert_eq!(cmd.bin(), Some(&"helper".to_string()));
    let template = TemplateArgs::new(Some("--three four".to_string()));
    assert_eq!(
        cmd.collect_args(&template).unwrap(),
        vec![
            "--one".to_string(),
            "--two".to_string(),
            "--three".to_string(),
            "four".to_string(),
        ],
    );
}

#[test]
fn helper_names() {
    assert_eq!(bwrap_bin(), "bwrap");
    assert_eq!(dbus_proxy_bin(), "xdg-dbus-proxy");
    assert_eq!(slirp4netns_bin(), "slirp4netns");
}

#[test]
fn sandbox_ids_are_decimal() {
    let id = sandbox_id();
    assert!(!id.is_empty());
    assert!(id.chars().all(|c| c.is_ascii_digit()));
}

#[test]
fn polling_reports_presence_and_absence() {
    assert_eq!(poll_file(&"/".to_string(), 1, 1).unwrap(), true);
    assert_eq!(
        poll_file(&"/nonexistent-bwrap-core-test-path".to_string(), 1, 2).unwrap(),
        false,
    );
    // Zero attempts answer negatively without touching the filesystem.
    assert_eq!(poll_file(&"/".to_string(), 1, 0).unwrap(), false);
    // A check failure other than absence aborts, naming the polled path.
    let bad = "/\u{0}".to_string();
    match poll_file(&bad, 1, 3) {
        Err(AppError::File(p, _)) => assert_eq!(p, bad),
        other => panic!("expected a file error, got {:?}", other),
    }
}

#[test]
fn poll_steps_classify_stat_outcomes() {
    assert_eq!(poll_step(Ok(())), PollStep::Found);
    assert_eq!(poll_step(Err(2)), PollStep::Absent);
    assert_eq!(poll_step(Err(13)), PollStep::Failed(13));
}

#[test]
fn namespace_open_failure_is_classified() {
    match Namespace::open_pid(u32::MAX) {
        Err(AppError::NsOpen(_)) => {}
        other => panic!("expected the namespace open to fail, got {:?}", other),
    }
}

#[test]
fn init_namespace_is_openable() {
    // The init process's user namespace either opens, or is refused for
    // lack of permission; both classify as the namespace-open error kind
    // when they fail, and yield an inode when they succeed.
    match Namespace::open_pid(1) {
        Ok(ns) => {
            assert!(ns.fd_inode().unwrap() > 0);
        }
        Err(AppError::NsOpen(_)) => {}
        Err(other) => panic!("unexpected error kind {:?}", other),
    }
}
