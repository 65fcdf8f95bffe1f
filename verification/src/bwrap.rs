//! The orchestrator: assembles the `bwrap` command line in order, installs
//! the block and status pipes, applies every service in the two-phase
//! protocol, and, once the sandbox is spawned, reads its status events,
//! releases the payload with the ready byte, and reports the payload's
//! exit code.

use vstd::prelude::*;

use crate::command::{views_of, SandboxCommand};
use crate::error::AppError;
use crate::events::{event_of_line, Events, EventsReader, ExitStatus, SandboxStatus};
use crate::fd::{sys_write_byte, SharedPipe};
use crate::numfmt::{fmt_i64, int_chars};
use crate::scope::{Scope, ScopeCleanup};
use crate::service::{after_args_of, after_paths_of, before_args_of, ServiceKind};
use crate::services::env_mapper::EnvPair;
use crate::util::bwrap_bin;

verus! {

/// The early arguments of a service list, in order.
pub open spec fn concat_before(ss: Seq<ServiceKind>) -> Seq<Seq<char>>
    decreases ss.len(),
{
    if ss.len() == 0 {
        Seq::empty()
    } else {
        before_args_of(&ss[0]) + concat_before(ss.drop_first())
    }
}

/// The late arguments of a service list, in order.
pub open spec fn concat_after(ss: Seq<ServiceKind>) -> Seq<Seq<char>>
    decreases ss.len(),
{
    if ss.len() == 0 {
        Seq::empty()
    } else {
        after_args_of(&ss[0]) + concat_after(ss.drop_first())
    }
}

/// Every path a service list registers for deletion.
pub open spec fn after_paths_union(ss: Seq<ServiceKind>) -> Set<Seq<char>>
    decreases ss.len(),
{
    if ss.len() == 0 {
        Set::empty()
    } else {
        after_paths_of(&ss[0]).union(after_paths_union(ss.drop_first()))
    }
}

proof fn lemma_concat_before_take(ss: Seq<ServiceKind>, i: int)
    requires
        0 <= i < ss.len(),
    ensures
        concat_before(ss.take(i + 1)) =~= concat_before(ss.take(i)) + before_args_of(&ss[i]),
    decreases i,
{
    if i == 0 {
        assert(ss.take(1) =~= seq![ss[0]]);
        assert(ss.take(1).drop_first() =~= Seq::<ServiceKind>::empty());
        assert(ss.take(0) =~= Seq::<ServiceKind>::empty());
    } else {
        assert(ss.take(i + 1)[0] == ss[0]);
        assert(ss.take(i + 1).drop_first() =~= ss.drop_first().take(i));
        assert(ss.take(i)[0] == ss[0]);
        assert(ss.take(i).drop_first() =~= ss.drop_first().take(i - 1));
        lemma_concat_before_take(ss.drop_first(), i - 1);
        assert(ss.drop_first()[i - 1] == ss[i]);
    }
}

proof fn lemma_concat_after_take(ss: Seq<ServiceKind>, i: int)
    requires
        0 <= i < ss.len(),
    ensures
        concat_after(ss.take(i + 1)) =~= concat_after(ss.take(i)) + after_args_of(&ss[i]),
    decreases i,
{
    if i == 0 {
        assert(ss.take(1) =~= seq![ss[0]]);
        assert(ss.take(1).drop_first() =~= Seq::<ServiceKind>::empty());
        assert(ss.take(0) =~= Seq::<ServiceKind>::empty());
    } else {
        assert(ss.take(i + 1)[0] == ss[0]);
        assert(ss.take(i + 1).drop_first() =~= ss.drop_first().take(i));
        assert(ss.take(i)[0] == ss[0]);
        assert(ss.take(i).drop_first() =~= ss.drop_first().take(i - 1));
        lemma_concat_after_take(ss.drop_first(), i - 1);
        assert(ss.drop_first()[i - 1] == ss[i]);
    }
}

proof fn lemma_after_paths_take(ss: Seq<ServiceKind>, i: int)
    requires
        0 <= i < ss.len(),
    ensures
        after_paths_union(ss.take(i + 1)) =~= after_paths_union(ss.take(i)).union(
            after_paths_of(&ss[i]),
        ),
    decreases i,
{
    if i == 0 {
        assert(ss.take(1) =~= seq![ss[0]]);
        assert(ss.take(1).drop_first() =~= Seq::<ServiceKind>::empty());
        assert(ss.take(0) =~= Seq::<ServiceKind>::empty());
    } else {
        assert(ss.take(i + 1)[0] == ss[0]);
        assert(ss.take(i + 1).drop_first() =~= ss.drop_first().take(i));
        assert(ss.take(i)[0] == ss[0]);
        assert(ss.take(i).drop_first() =~= ss.drop_first().take(i - 1));
        lemma_after_paths_take(ss.drop_first(), i - 1);
        assert(ss.drop_first()[i - 1] == ss[i]);
    }
}

/// Whether a service's hooks are known never to place the network-unshare
/// argument: true of every service but slirp4netns, as long as the
/// payload strings the service carries (environment names and values, bus
/// paths) are not themselves that argument.
pub open spec fn no_unshare_net(s: ServiceKind) -> bool {
    match s {
        ServiceKind::Slirp(_) => false,
        ServiceKind::EnvMapper(m) => (forall|i: int|
            0 <= i < m.keep@.len() ==> (#[trigger] m.keep@[i].name@) != "--unshare-net"@ && (
            m.keep@[i].value matches Some(v) ==> v@ != "--unshare-net"@)) && (forall|i: int|
            0 <= i < m.unset@.len() ==> (#[trigger] m.unset@[i]@) != "--unshare-net"@),
        ServiceKind::Dbus(d) => d.proxy_view() != "--unshare-net"@ && d.sandboxed_view()
            != "--unshare-net"@,
        _ => true,
    }
}

/// A decimal rendering, with or without its sign, is never the
/// network-unshare argument.
proof fn lemma_int_chars_not_unshare(n: int)
    ensures
        int_chars(n) != "--unshare-net"@,
{
    reveal_strlit("--unshare-net");
    assert("--unshare-net"@.len() == 13);
    assert("--unshare-net"@[0] == '-');
    assert("--unshare-net"@[1] == '-');
    if n < 0 {
        crate::numfmt::lemma_dec_chars_digits(-n);
        if int_chars(n) == "--unshare-net"@ {
            assert(int_chars(n)[1] == crate::numfmt::dec_chars(-n)[0]);
            assert(false);
        }
    } else {
        crate::numfmt::lemma_dec_chars_digits(n);
        if int_chars(n) == "--unshare-net"@ {
            assert(int_chars(n)[0] == crate::numfmt::dec_chars(n)[0]);
            assert(false);
        }
    }
}

/// An element is in a concatenation exactly when it is in one side.
proof fn lemma_concat_contains(a: Seq<Seq<char>>, b: Seq<Seq<char>>, x: Seq<char>)
    ensures
        (a + b).contains(x) <==> a.contains(x) || b.contains(x),
{
    if (a + b).contains(x) {
        let i = choose|i: int| 0 <= i < (a + b).len() && (a + b)[i] == x;
        if i < a.len() {
            assert(a[i] == x);
        } else {
            assert(b[i - a.len()] == x);
        }
    }
    if a.contains(x) {
        let i = choose|i: int| 0 <= i < a.len() && a[i] == x;
        assert((a + b)[i] == x);
    }
    if b.contains(x) {
        let i = choose|i: int| 0 <= i < b.len() && b[i] == x;
        assert((a + b)[a.len() + i] == x);
    }
}

proof fn lemma_single_not_contains(a: Seq<char>, x: Seq<char>)
    requires
        a != x,
    ensures
        !seq![a].contains(x),
{
    if seq![a].contains(x) {
        let i = choose|i: int| 0 <= i < seq![a].len() && seq![a][i] == x;
        assert(seq![a][0] == a);
        assert(false);
    }
}

proof fn lemma_pair_not_contains(a: Seq<char>, b: Seq<char>, x: Seq<char>)
    requires
        a != x,
        b != x,
    ensures
        !seq![a, b].contains(x),
{
    if seq![a, b].contains(x) {
        let i = choose|i: int| 0 <= i < seq![a, b].len() && seq![a, b][i] == x;
        assert(seq![a, b][0] == a);
        assert(seq![a, b][1] == b);
        assert(false);
    }
}

proof fn lemma_triple_not_contains(a: Seq<char>, b: Seq<char>, c: Seq<char>, x: Seq<char>)
    requires
        a != x,
        b != x,
        c != x,
    ensures
        !seq![a, b, c].contains(x),
{
    if seq![a, b, c].contains(x) {
        let i = choose|i: int| 0 <= i < seq![a, b, c].len() && seq![a, b, c][i] == x;
        assert(seq![a, b, c][0] == a);
        assert(seq![a, b, c][1] == b);
        assert(seq![a, b, c][2] == c);
        assert(false);
    }
}

proof fn lemma_keep_args_no_unshare(ps: Seq<EnvPair>)
    requires
        forall|i: int|
            0 <= i < ps.len() ==> (#[trigger] ps[i].name@) != "--unshare-net"@ && (
            ps[i].value matches Some(v) ==> v@ != "--unshare-net"@),
    ensures
        !crate::services::env_mapper::keep_args(ps).contains("--unshare-net"@),
    decreases ps.len(),
{
    reveal_strlit("--setenv");
    reveal_strlit("--unshare-net");
    if ps.len() > 0 {
        assert forall|i: int|
            0 <= i < ps.drop_first().len() implies (#[trigger] ps.drop_first()[i].name@)
            != "--unshare-net"@ && (ps.drop_first()[i].value matches Some(v) ==> v@
            != "--unshare-net"@) by {
            assert(ps.drop_first()[i] == ps[i + 1]);
            assert(ps[i + 1].name@ != "--unshare-net"@ && (ps[i + 1].value matches Some(v) ==> v@
                != "--unshare-net"@));
        }
        lemma_keep_args_no_unshare(ps.drop_first());
        assert(ps[0].name@ != "--unshare-net"@ && (ps[0].value matches Some(v) ==> v@
            != "--unshare-net"@));
        let one = crate::services::env_mapper::keep_args_one(ps[0]);
        if ps[0].value is Some {
            assert(one =~= seq!["--setenv"@, ps[0].name@, (ps[0].value->0)@]);
            assert("--setenv"@.len() == 8);
            assert("--unshare-net"@.len() == 13);
            assert("--setenv"@ != "--unshare-net"@);
            lemma_triple_not_contains(
                "--setenv"@,
                ps[0].name@,
                (ps[0].value->0)@,
                "--unshare-net"@,
            );
        } else {
            assert(one =~= Seq::<Seq<char>>::empty());
        }
        lemma_concat_contains(
            one,
            crate::services::env_mapper::keep_args(ps.drop_first()),
            "--unshare-net"@,
        );
    }
}

proof fn lemma_unset_args_no_unshare(ns: Seq<String>)
    requires
        forall|i: int| 0 <= i < ns.len() ==> (#[trigger] ns[i]@) != "--unshare-net"@,
    ensures
        !crate::services::env_mapper::unset_args(ns).contains("--unshare-net"@),
    decreases ns.len(),
{
    reveal_strlit("--unsetenv");
    reveal_strlit("--unshare-net");
    if ns.len() > 0 {
        assert forall|i: int|
            0 <= i < ns.drop_first().len() implies (#[trigger] ns.drop_first()[i]@)
            != "--unshare-net"@ by {
            assert(ns.drop_first()[i] == ns[i + 1]);
            assert(ns[i + 1]@ != "--unshare-net"@);
        }
        lemma_unset_args_no_unshare(ns.drop_first());
        assert(ns[0]@ != "--unshare-net"@);
        assert("--unsetenv"@.len() == 10);
            assert("--unshare-net"@.len() == 13);
            assert("--unsetenv"@ != "--unshare-net"@);
        lemma_pair_not_contains("--unsetenv"@, ns[0]@, "--unshare-net"@);
        lemma_concat_contains(
            seq!["--unsetenv"@, ns[0]@],
            crate::services::env_mapper::unset_args(ns.drop_first()),
            "--unshare-net"@,
        );
    }
}

/// The hooks of one non-slirp service never place `--unshare-net`.
proof fn lemma_service_no_unshare(s: &ServiceKind)
    requires
        no_unshare_net(*s),
    ensures
        !before_args_of(s).contains("--unshare-net"@),
        !after_args_of(s).contains("--unshare-net"@),
{
    reveal_strlit("--unshare-net");
    match s {
        ServiceKind::AppImage(x) => {
            reveal_strlit("--setenv");
            reveal_strlit("APPIMAGE_EXTRACT_AND_RUN");
            reveal_strlit("1");
            if x.extract_and_run {
                assert("--setenv"@.len() == 8);
            assert("--unshare-net"@.len() == 13);
            assert("--setenv"@ != "--unshare-net"@);
                assert("APPIMAGE_EXTRACT_AND_RUN"@.len() == 24);
            assert("--unshare-net"@.len() == 13);
            assert("APPIMAGE_EXTRACT_AND_RUN"@ != "--unshare-net"@);
                assert("1"@.len() == 1);
            assert("--unshare-net"@.len() == 13);
            assert("1"@ != "--unshare-net"@);
                lemma_triple_not_contains(
                    "--setenv"@,
                    "APPIMAGE_EXTRACT_AND_RUN"@,
                    "1"@,
                    "--unshare-net"@,
                );
            }
        },
        ServiceKind::EnvMapper(m) => {
            reveal_strlit("--clearenv");
            lemma_keep_args_no_unshare(m.keep@);
            lemma_unset_args_no_unshare(m.unset@);
            let head = if m.unset_all {
                seq!["--clearenv"@]
            } else {
                Seq::<Seq<char>>::empty()
            };
            if m.unset_all {
                assert("--clearenv"@.len() == 10);
            assert("--unshare-net"@.len() == 13);
            assert("--clearenv"@ != "--unshare-net"@);
                lemma_single_not_contains("--clearenv"@, "--unshare-net"@);
            }
            lemma_concat_contains(
                head,
                crate::services::env_mapper::keep_args(m.keep@),
                "--unshare-net"@,
            );
            lemma_concat_contains(
                head + crate::services::env_mapper::keep_args(m.keep@),
                crate::services::env_mapper::unset_args(m.unset@),
                "--unshare-net"@,
            );
        },
        ServiceKind::Dbus(d) => {
            reveal_strlit("--symlink");
            assert("--symlink"@.len() == 9);
            assert("--unshare-net"@.len() == 13);
            assert("--symlink"@ != "--unshare-net"@);
            lemma_triple_not_contains(
                "--symlink"@,
                d.proxy_view(),
                d.sandboxed_view(),
                "--unshare-net"@,
            );
        },
        ServiceKind::Seccomp(x) => {
            reveal_strlit("--seccomp");
            lemma_int_chars_not_unshare(x.fd as int);
            assert("--seccomp"@.len() == 9);
            assert("--unshare-net"@.len() == 13);
            assert("--seccomp"@ != "--unshare-net"@);
            lemma_pair_not_contains("--seccomp"@, int_chars(x.fd as int), "--unshare-net"@);
        },
        ServiceKind::Slirp(_) => {
        },
    }
}

/// Without the slirp4netns service, nothing isolates the network: no hook
/// of any other service places `--unshare-net` on the command line, so a
/// profile that omits the service leaves the payload in the host's network
/// namespace. The claim is about the hooks' own arguments; what the user's
/// argument list or a service-carried payload string says is the profile
/// author's choice and outside it.
pub proof fn lemma_no_network_isolation(ss: Seq<ServiceKind>)
    requires
        forall|i: int| 0 <= i < ss.len() ==> no_unshare_net(#[trigger] ss[i]),
    ensures
        !concat_before(ss).contains("--unshare-net"@),
        !concat_after(ss).contains("--unshare-net"@),
    decreases ss.len(),
{
    if ss.len() > 0 {
        assert forall|i: int| 0 <= i < ss.drop_first().len() implies no_unshare_net(
            #[trigger] ss.drop_first()[i],
        ) by {
            assert(ss.drop_first()[i] == ss[i + 1]);
        }
        lemma_no_network_isolation(ss.drop_first());
        lemma_service_no_unshare(&ss[0]);
        lemma_concat_contains(
            before_args_of(&ss[0]),
            concat_before(ss.drop_first()),
            "--unshare-net"@,
        );
        lemma_concat_contains(
            after_args_of(&ss[0]),
            concat_after(ss.drop_first()),
            "--unshare-net"@,
        );
    }
}

/// The base command the builder assembles never carries `--unshare-net`,
/// as long as the runtime directory is not itself that string.
proof fn lemma_base_command_no_unshare(td: Seq<char>, block_fd: i32, status_fd: i32)
    requires
        td != "--unshare-net"@,
    ensures
        !seq![
            "--bind"@,
            td,
            td,
            "--block-fd"@,
            int_chars(block_fd as int),
            "--json-status-fd"@,
            int_chars(status_fd as int),
        ].contains("--unshare-net"@),
{
    reveal_strlit("--bind");
    reveal_strlit("--block-fd");
    reveal_strlit("--json-status-fd");
    reveal_strlit("--unshare-net");
    assert("--bind"@.len() == 6);
    assert("--block-fd"@.len() == 10);
    assert("--json-status-fd"@.len() == 16);
    assert("--unshare-net"@.len() == 13);
    lemma_int_chars_not_unshare(block_fd as int);
    lemma_int_chars_not_unshare(status_fd as int);
    let base = seq![
        "--bind"@,
        td,
        td,
        "--block-fd"@,
        int_chars(block_fd as int),
        "--json-status-fd"@,
        int_chars(status_fd as int),
    ];
    if base.contains("--unshare-net"@) {
        let i = choose|i: int| 0 <= i < base.len() && base[i] == "--unshare-net"@;
        assert(base[0] == "--bind"@);
        assert(base[1] == td);
        assert(base[2] == td);
        assert(base[3] == "--block-fd"@);
        assert(base[4] == int_chars(block_fd as int));
        assert(base[5] == "--json-status-fd"@);
        assert(base[6] == int_chars(status_fd as int));
        assert(false);
    }
}

/// The no-network law over the whole assembled command line: with the
/// slirp4netns service absent, the command that `new` and `apply_services`
/// together fix — the base arguments, every before hook, the user's
/// arguments, every after hook — holds no `--unshare-net`, so the payload
/// stays in the host's network namespace. The runtime directory and the
/// user's own arguments must not themselves be that string: a profile
/// could place it there deliberately, and that choice is the author's.
pub proof fn lemma_full_command_no_network_isolation(
    temp_dir: Seq<char>,
    block_fd: i32,
    status_fd: i32,
    user_args: Seq<Seq<char>>,
    ss: Seq<ServiceKind>,
)
    requires
        temp_dir != "--unshare-net"@,
        !user_args.contains("--unshare-net"@),
        forall|i: int| 0 <= i < ss.len() ==> no_unshare_net(#[trigger] ss[i]),
    ensures
        !(seq![
            "--bind"@,
            temp_dir,
            temp_dir,
            "--block-fd"@,
            int_chars(block_fd as int),
            "--json-status-fd"@,
            int_chars(status_fd as int),
        ] + concat_before(ss) + user_args + concat_after(ss)).contains("--unshare-net"@),
{
    lemma_base_command_no_unshare(temp_dir, block_fd, status_fd);
    lemma_no_network_isolation(ss);
    let base = seq![
        "--bind"@,
        temp_dir,
        temp_dir,
        "--block-fd"@,
        int_chars(block_fd as int),
        "--json-status-fd"@,
        int_chars(status_fd as int),
    ];
    lemma_concat_contains(base, concat_before(ss), "--unshare-net"@);
    lemma_concat_contains(base + concat_before(ss), user_args, "--unshare-net"@);
    lemma_concat_contains(
        base + concat_before(ss) + user_args,
        concat_after(ss),
        "--unshare-net"@,
    );
}

/// The command line under construction for one sandbox invocation.
/// Single-use: the buffered user arguments are appended to the command
/// exactly once, strictly between the before pass and the after pass.
#[derive(Debug)]
pub struct BwrapProcBuilder {
    command: SandboxCommand,
    user_args: Vec<String>,
    flushed: bool,
    ready: SharedPipe,
    status: SharedPipe,
    block_fd: i32,
    status_fd: i32,
    scope: Scope,
}

impl BwrapProcBuilder {
    /// The argument vector assembled so far.
    pub closed spec fn command_view(&self) -> Seq<Seq<char>> {
        self.command@
    }

    pub closed spec fn program_view(&self) -> Seq<char> {
        self.command.program_view()
    }

    /// The buffered user arguments, not yet on the command line.
    pub closed spec fn user_args_view(&self) -> Seq<Seq<char>> {
        views_of(self.user_args@)
    }

    /// Whether the user arguments have been flushed onto the command.
    pub closed spec fn flushed_spec(&self) -> bool {
        self.flushed
    }

    /// The cleanup obligations accumulated so far.
    pub closed spec fn scope_view(&self) -> Set<Seq<char>> {
        self.scope@
    }

    pub closed spec fn block_fd_spec(&self) -> i32 {
        self.block_fd
    }

    pub closed spec fn status_fd_spec(&self) -> i32 {
        self.status_fd
    }

    /// Whether the parent-side pipe ends are still consumable.
    pub closed spec fn pipes_ok(&self) -> bool {
        !self.ready.tx_shared() && !self.status.rx_shared()
    }

    /// Whether the two ends the helper must inherit — the block pipe's
    /// read end and the status pipe's write end — are published to
    /// children (close-on-exec cleared).
    pub closed spec fn child_ends_shared(&self) -> bool {
        self.ready.rx_shared() && self.status.tx_shared()
    }

    /// Builds the base command: the runtime directory bound into the
    /// sandbox so scoped files are visible there, then the block pipe's
    /// read end and the status pipe's write end, both published to the
    /// child and named on the command line. Failure is a pipe-allocation
    /// or descriptor-sharing error.
    pub fn new(user_args: Vec<String>, temp_dir: &String) -> (r: Result<
        BwrapProcBuilder,
        AppError,
    >)
        ensures
            r matches Ok(b) ==> b.command_view() =~= seq![
                "--bind"@,
                temp_dir@,
                temp_dir@,
                "--block-fd"@,
                int_chars(b.block_fd_spec() as int),
                "--json-status-fd"@,
                int_chars(b.status_fd_spec() as int),
            ],
            r matches Ok(b) ==> b.program_view() == "bwrap"@ && b.user_args_view() =~= views_of(
                user_args@,
            ) && !b.flushed_spec() && b.scope_view() =~= Set::<Seq<char>>::empty()
                && b.pipes_ok() && b.child_ends_shared(),
            r matches Err(e) ==> (e matches AppError::PipeAlloc(_) || e matches AppError::FdShareFailed(
                _,
                _,
            )),
    {
        let mut command = SandboxCommand::new(bwrap_bin());
        command.arg("--bind".to_owned());
        command.arg(temp_dir.clone());
        command.arg(temp_dir.clone());

        let mut ready = match SharedPipe::new() {
            Ok(p) => p,
            Err(e) => {
                return Err(e);
            },
        };
        match ready.share_rx() {
            Ok(()) => {},
            Err(e) => {
                return Err(e);
            },
        }
        let block_fd = ready.rx_raw_fd();
        command.arg("--block-fd".to_owned());
        command.arg(fmt_i64(block_fd as i64));

        let mut status = match SharedPipe::new() {
            Ok(p) => p,
            Err(e) => {
                return Err(e);
            },
        };
        match status.share_tx() {
            Ok(()) => {},
            Err(e) => {
                return Err(e);
            },
        }
        let status_fd = status.tx_raw_fd();
        command.arg("--json-status-fd".to_owned());
        command.arg(fmt_i64(status_fd as i64));

        Ok(
            BwrapProcBuilder {
                command,
                user_args,
                flushed: false,
                ready,
                status,
                block_fd,
                status_fd,
                scope: Scope::new(),
            },
        )
    }

    /// The before pass over every service, in order.
    pub fn apply_before_all(&mut self, services: &Vec<ServiceKind>)
        requires
            !old(self).flushed_spec(),
        ensures
            final(self).command_view() =~= old(self).command_view() + concat_before(services@),
            final(self).program_view() == old(self).program_view(),
            final(self).user_args_view() == old(self).user_args_view(),
            final(self).scope_view() =~= old(self).scope_view(),
            final(self).flushed_spec() == old(self).flushed_spec(),
            final(self).pipes_ok() == old(self).pipes_ok(),
            final(self).block_fd_spec() == old(self).block_fd_spec(),
            final(self).status_fd_spec() == old(self).status_fd_spec(),
            final(self).child_ends_shared() == old(self).child_ends_shared(),
    {
        let n = services.len();
        let mut i: usize = 0;
        while i < n
            invariant
                i <= n,
                n == services@.len(),
                self.command@ =~= old(self).command@ + concat_before(services@.take(i as int)),
                self.command.program_view() == old(self).command.program_view(),
                self.user_args@ == old(self).user_args@,
                self.scope@ =~= old(self).scope@,
                self.flushed == old(self).flushed,
                self.ready == old(self).ready,
                self.status == old(self).status,
                self.block_fd == old(self).block_fd,
                self.status_fd == old(self).status_fd,
            decreases n - i,
        {
            proof {
                lemma_concat_before_take(services@, i as int);
            }
            let scope = services[i].apply_before(&mut self.command);
            self.scope.merge(scope);
            i = i + 1;
        }
        proof {
            assert(services@.take(n as int) =~= services@);
        }
    }

    /// Flushes the buffered user arguments onto the command, exactly once.
    pub fn flush_user_args(&mut self)
        requires
            !old(self).flushed_spec(),
        ensures
            final(self).command_view() =~= old(self).command_view() + old(self).user_args_view(),
            final(self).program_view() == old(self).program_view(),
            final(self).flushed_spec(),
            final(self).scope_view() =~= old(self).scope_view(),
            final(self).pipes_ok() == old(self).pipes_ok(),
            final(self).block_fd_spec() == old(self).block_fd_spec(),
            final(self).status_fd_spec() == old(self).status_fd_spec(),
            final(self).child_ends_shared() == old(self).child_ends_shared(),
    {
        let mut taken: Vec<String> = Vec::new();
        std::mem::swap(&mut taken, &mut self.user_args);
        self.command.args(taken);
        self.flushed = true;
    }

    /// The after pass over every service, in order. Calling it before the
    /// user arguments were flushed would let a service's override land
    /// ahead of the user's own, so the flush is required first.
    pub fn apply_after_all(&mut self, services: &Vec<ServiceKind>)
        requires
            old(self).flushed_spec(),
        ensures
            final(self).command_view() =~= old(self).command_view() + concat_after(services@),
            final(self).program_view() == old(self).program_view(),
            final(self).scope_view() =~= old(self).scope_view().union(after_paths_union(services@)),
            final(self).flushed_spec(),
            final(self).pipes_ok() == old(self).pipes_ok(),
            final(self).block_fd_spec() == old(self).block_fd_spec(),
            final(self).status_fd_spec() == old(self).status_fd_spec(),
            final(self).child_ends_shared() == old(self).child_ends_shared(),
    {
        let n = services.len();
        let mut i: usize = 0;
        while i < n
            invariant
                i <= n,
                n == services@.len(),
                self.command@ =~= old(self).command@ + concat_after(services@.take(i as int)),
                self.command.program_view() == old(self).command.program_view(),
                self.scope@ =~= old(self).scope@.union(after_paths_union(services@.take(i as int))),
                self.flushed == old(self).flushed,
                self.ready == old(self).ready,
                self.status == old(self).status,
                self.block_fd == old(self).block_fd,
                self.status_fd == old(self).status_fd,
            decreases n - i,
        {
            proof {
                lemma_concat_after_take(services@, i as int);
                lemma_after_paths_take(services@, i as int);
            }
            let scope = services[i].apply_after(&mut self.command);
            self.scope.merge(scope);
            i = i + 1;
        }
        proof {
            assert(services@.take(n as int) =~= services@);
        }
    }

    /// The two-phase service application: every service's before pass, in
    /// order; then the user arguments, exactly once; then every service's
    /// after pass, in order. Returns the cleanup that owns every path the
    /// services registered.
    pub fn apply_services(&mut self, services: &Vec<ServiceKind>) -> (r: ScopeCleanup)
        requires
            !old(self).flushed_spec(),
        ensures
            final(self).command_view() =~= old(self).command_view() + concat_before(services@)
                + old(self).user_args_view() + concat_after(services@),
            final(self).program_view() == old(self).program_view(),
            final(self).flushed_spec(),
            final(self).pipes_ok() == old(self).pipes_ok(),
            final(self).block_fd_spec() == old(self).block_fd_spec(),
            final(self).status_fd_spec() == old(self).status_fd_spec(),
            final(self).child_ends_shared() == old(self).child_ends_shared(),
            r.pending_view() matches Some(p) && p =~= old(self).scope_view().union(
                after_paths_union(services@),
            ),
    {
        self.apply_before_all(services);
        self.flush_user_args();
        self.apply_after_all(services);
        let mut taken = Scope::new();
        std::mem::swap(&mut taken, &mut self.scope);
        let ghost taken_snap = taken;
        let mut scopes_vec: Vec<Scope> = Vec::new();
        scopes_vec.push(taken);
        let ghost scopes_seq = scopes_vec@;
        let cleanup = ScopeCleanup::new(scopes_vec);
        proof {
            assert(scopes_seq.len() == 1);
            assert(scopes_seq[0] == taken_snap);
            assert(scopes_seq.drop_first() =~= Seq::<Scope>::empty());
            assert(crate::scope::scopes_union(scopes_seq.drop_first())
                == crate::scope::scopes_union(Seq::<Scope>::empty()));
            assert(crate::scope::scopes_union(scopes_seq) =~= taken_snap@);
        }
        cleanup
    }

    /// Appends the payload and its own arguments; the command line is
    /// frozen after this.
    pub fn append_payload(&mut self, app: String, args: Vec<String>)
        requires
            old(self).flushed_spec(),
        ensures
            final(self).command_view() =~= old(self).command_view() + seq![app@] + views_of(args@),
            final(self).program_view() == old(self).program_view(),
            final(self).pipes_ok() == old(self).pipes_ok(),
            final(self).child_ends_shared() == old(self).child_ends_shared(),
    {
        self.command.arg(app);
        self.command.args(args);
    }

    /// Gives up the finished command and the two pipes, for the code that
    /// spawns the helper: the child-side ends die with the spawn, the
    /// parent-side ends go on into the process handle.
    pub fn into_parts(self) -> (r: (SandboxCommand, SharedPipe, SharedPipe))
        ensures
            r.0@ == self.command_view(),
            r.0.program_view() == self.program_view(),
            r.1.tx_shared() == self.ready_tx_shared_spec(),
            r.2.rx_shared() == self.status_rx_shared_spec(),
            self.pipes_ok() ==> !r.1.tx_shared() && !r.2.rx_shared(),
            self.child_ends_shared() ==> r.1.rx_shared() && r.2.tx_shared(),
    {
        (self.command, self.ready, self.status)
    }

    pub closed spec fn ready_tx_shared_spec(&self) -> bool {
        self.ready.tx_shared()
    }

    pub closed spec fn status_rx_shared_spec(&self) -> bool {
        self.status.rx_shared()
    }
}

/// The byte the orchestrator writes to release the sandbox: always `0x01`.
pub fn ready_signal() -> (r: u8)
    ensures
        r == 1,
{
    1
}

/// How the sandbox side reads the byte: any non-zero byte releases the
/// payload; a zero byte does not count as a go signal.
pub fn ready_flag_ok(flag: u8) -> (r: bool)
    ensures
        r == (flag != 0),
{
    flag != 0
}

/// Decides what the helper's first status event means: the sandbox status
/// is the one acceptable opening; the pipe closing first is an I/O
/// failure, and an exit event before any status is a protocol violation.
pub fn first_event_decision(ev: Option<Events>) -> (r: Result<SandboxStatus, AppError>)
    ensures
        ev matches Some(Events::Status(s)) ==> r == Ok::<SandboxStatus, AppError>(s),
        ev is None ==> (r matches Err(e) && e matches AppError::Io(_, _)),
        ev matches Some(Events::Exit(_)) ==> (r matches Err(e) && e matches AppError::BwrapEvent(
            _,
        )),
{
    match ev {
        Some(Events::Status(s)) => Ok(s),
        None => Err(AppError::Io("bwrap status".to_owned(), "unexpected EOF".to_owned())),
        Some(Events::Exit(_)) => Err(AppError::BwrapEvent("exit before sandbox status".to_owned())),
    }
}

/// What one status event means to the wait loop.
#[derive(Debug, Clone, Copy, PartialEq, Eq, Structural)]
pub enum WaitStep {
    /// The payload is done with this code; end-of-file counts as a crash
    /// of the helper and reads as code -1.
    Done(i32),
    /// Some other recognised event; keep waiting.
    Skip,
}

/// Decides what a read from the status pipe means while awaiting the
/// payload's exit: an exit event carries the code, end-of-file is the
/// helper crashing and yields -1, and any other event is skipped.
pub fn wait_step(ev: Option<Events>) -> (r: WaitStep)
    ensures
        ev is None ==> r == WaitStep::Done(-1i32),
        ev matches Some(Events::Exit(e)) ==> r == WaitStep::Done(e.exit_code),
        ev matches Some(Events::Status(_)) ==> r == WaitStep::Skip,
{
    match ev {
        None => WaitStep::Done(-1),
        Some(Events::Exit(e)) => WaitStep::Done(e.exit_code),
        Some(Events::Status(_)) => WaitStep::Skip,
    }
}

/// The running sandbox, from the orchestrator's side: the captured status
/// event, the reader over the status pipe, and the write end of the ready
/// pipe. The helper's child handle stays with the code that spawned it.
#[derive(Debug)]
pub struct BwrapProc {
    status: SandboxStatus,
    reader: EventsReader,
    ready_tx: rustix::fd::OwnedFd,
}

impl BwrapProc {
    pub closed spec fn status_spec(&self) -> SandboxStatus {
        self.status
    }

    /// Awaits the helper's first status event and applies
    /// `first_event_decision` to it: only the sandbox status opens the
    /// protocol; anything else, or the pipe closing first, is fatal. Every
    /// failure is an I/O error or a status-protocol error.
    pub fn new(ready_tx: rustix::fd::OwnedFd, status_rx: rustix::fd::OwnedFd) -> (r: Result<
        BwrapProc,
        AppError,
    >)
        ensures
            r matches Ok(p) ==> exists|l: Seq<u8>|
                event_of_line(l) == Some(Events::Status(p.status_spec())),
            r matches Err(e) ==> (e matches AppError::Io(_, _) || e matches AppError::BwrapEvent(
                _,
            )),
    {
        let mut reader = EventsReader::new(status_rx);
        let ev = match reader.try_next() {
            Ok(e) => e,
            Err(e) => {
                return Err(e);
            },
        };
        match first_event_decision(ev) {
            Ok(status) => Ok(BwrapProc { status, reader, ready_tx }),
            Err(e) => Err(e),
        }
    }

    /// The captured sandbox status.
    pub fn app_status(&self) -> (r: &SandboxStatus)
        ensures
            r == self.status_spec(),
    {
        &self.status
    }

    /// Releases the payload by writing the ready byte, then reads events
    /// until the payload's exit code arrives. End-of-file without an exit
    /// event is the helper crashing and yields -1; more than 4096 skipped
    /// events are outside the protocol and an error. Every exit code other
    /// than -1 was carried by an exit event of the status protocol.
    pub fn wait(&mut self) -> (r: Result<i32, AppError>)
        ensures
            r matches Ok(c) ==> c == -1i32 || exists|l: Seq<u8>|
                event_of_line(l) == Some(Events::Exit(ExitStatus { exit_code: c })),
    {
        let written = match sys_write_byte(&self.ready_tx, ready_signal()) {
            Ok(n) => n,
            Err(errno) => {
                return Err(AppError::Io("bwrap ready write".to_owned(), fmt_i64(errno as i64)));
            },
        };
        if written != 1 {
            return Err(AppError::Io("bwrap ready write".to_owned(), "short write".to_owned()));
        }
        let mut seen: u32 = 0;
        while seen < 4096
            decreases 4096 - seen,
        {
            let ev = match self.reader.try_next() {
                Ok(e) => e,
                Err(e) => {
                    return Err(e);
                },
            };
            let ghost ev_ghost = ev;
            match wait_step(ev) {
                WaitStep::Done(code) => {
                    proof {
                        if code != -1 {
                            assert(ev_ghost matches Some(Events::Exit(e)) && e.exit_code == code);
                        }
                    }
                    return Ok(code);
                },
                WaitStep::Skip => {},
            }
            seen = seen + 1;
        }
        Err(AppError::BwrapEvent("too many status events".to_owned()))
    }
}

} // verus!
