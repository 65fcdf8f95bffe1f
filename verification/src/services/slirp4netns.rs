//! Side-car that gives the isolated network namespace user-mode egress: the
//! sandbox is run with `--unshare-net`, and a user-mode TCP/IP stack is
//! attached from outside, creating a TAP interface inside the namespace.
//! Attaching requires entering the user namespace that owns the network
//! namespace; when `bwrap` interposed an intermediate user namespace, the
//! spawner must first move into it, which is decided by comparing namespace
//! inode numbers. The stack reports readiness over a dedicated pipe.

use vstd::prelude::*;

use crate::command::{views_of, SandboxCommand};
use crate::config::Cmd;
use crate::config::TemplateArgs;
use crate::error::AppError;
use crate::fd::{sys_read_byte, SharedPipe};
use crate::numfmt::{dec_chars, fmt_i64, fmt_u64, int_chars};
use crate::scope::Scope;

verus! {

/// The slirp4netns section of a profile.
#[derive(Debug)]
pub struct Config {
    pub if_name: String,
    pub resolv_conf: Option<String>,
    pub quiet: bool,
    pub cmd: Cmd,
}

/// The profile's default TAP interface name.
pub fn default_if_name() -> (r: String)
    ensures
        r@ == "tap0"@,
{
    "tap0".to_owned()
}

/// The profile's default: the stack's own output is discarded.
pub fn default_quiet() -> (r: bool)
    ensures
        r == true,
{
    true
}

/// The slirp4netns service, holding its argument prefix and the readiness
/// pipe whose write end the stack inherits.
#[derive(Debug)]
pub struct Slirp4netns {
    args: Vec<String>,
    ready: SharedPipe,
    ready_fd: i32,
    if_name: String,
    quiet: bool,
    resolv_path: Option<String>,
}

impl Slirp4netns {
    pub closed spec fn args_view(&self) -> Seq<Seq<char>> {
        views_of(self.args@)
    }

    pub closed spec fn if_name_view(&self) -> Seq<char> {
        self.if_name@
    }

    pub closed spec fn ready_fd_spec(&self) -> i32 {
        self.ready_fd
    }

    pub closed spec fn resolv_view(&self) -> Option<Seq<char>> {
        match self.resolv_path {
            Some(p) => Some(p@),
            None => None,
        }
    }

    pub closed spec fn ready_rx_shared(&self) -> bool {
        self.ready.rx_shared()
    }

    pub closed spec fn ready_tx_shared(&self) -> bool {
        self.ready.tx_shared()
    }

    pub closed spec fn quiet_spec(&self) -> bool {
        self.quiet
    }

    /// Whether the stack's own output is discarded.
    pub fn quiet(&self) -> (r: bool)
        ensures
            r == self.quiet_spec(),
    {
        self.quiet
    }

    /// Builds the service: the profile's own stack arguments, a fresh
    /// readiness pipe with the write end published to children, and the
    /// path of the custom resolver file when the profile supplies resolver
    /// content (the caller materialises that file and passes its path).
    /// Fails exactly when the command block's template text does not
    /// split, or the pipe cannot be allocated or shared.
    pub fn from_config(
        cfg: Config,
        template: &TemplateArgs,
        resolv_path: Option<String>,
    ) -> (r: Result<Slirp4netns, AppError>)
        ensures
            !template.splits() ==> r is Err,
            r matches Ok(s) ==> s.args_view() =~= cfg.cmd.inline_views() + template.words(),
            r matches Ok(s) ==> s.if_name_view() == cfg.if_name@ && s.quiet_spec() == cfg.quiet
                && s.resolv_view() == match resolv_path {
                Some(p) => Some(p@),
                None => None::<Seq<char>>,
            },
            r matches Ok(s) ==> !s.ready_rx_shared() && s.ready_tx_shared(),
            r matches Err(e) ==> (!template.splits() || e matches AppError::PipeAlloc(_)
                || e matches AppError::FdShareFailed(_, _)),
    {
        let args = match cfg.cmd.collect_args(template) {
            Ok(v) => v,
            Err(e) => {
                return Err(e);
            },
        };
        let mut ready = match SharedPipe::new() {
            Ok(p) => p,
            Err(e) => {
                return Err(e);
            },
        };
        match ready.share_tx() {
            Ok(()) => {},
            Err(e) => {
                return Err(e);
            },
        }
        let ready_fd = ready.tx_raw_fd();
        Ok(
            Slirp4netns {
                args,
                ready,
                ready_fd,
                if_name: cfg.if_name,
                quiet: cfg.quiet,
                resolv_path,
            },
        )
    }

    /// What the service appends before the user's arguments: nothing.
    pub open spec fn before_args(&self) -> Seq<Seq<char>> {
        Seq::empty()
    }

    /// What the service appends after the user's arguments: the network
    /// unshare, and, when a custom resolver was materialised, a read-only
    /// bind of it over `/etc/resolv.conf`, placed last so it overrides any
    /// user binding.
    pub open spec fn after_args(&self) -> Seq<Seq<char>> {
        seq!["--unshare-net"@] + match self.resolv_view() {
            Some(p) => seq!["--ro-bind"@, p, "/etc/resolv.conf"@],
            None => Seq::<Seq<char>>::empty(),
        }
    }

    /// The path registered for deletion: the resolver file, if any.
    pub open spec fn after_paths(&self) -> Set<Seq<char>> {
        match self.resolv_view() {
            Some(p) => Set::empty().insert(p),
            None => Set::empty(),
        }
    }

    /// Appends nothing before the user's arguments.
    pub fn apply_before(&self, cmd: &mut SandboxCommand) -> (r: Scope)
        ensures
            final(cmd)@ =~= old(cmd)@ + self.before_args(),
            final(cmd).program_view() == old(cmd).program_view(),
            r@ =~= Set::<Seq<char>>::empty(),
    {
        proof {
            assert(old(cmd)@ + self.before_args() =~= old(cmd)@);
        }
        Scope::new()
    }

    /// Appends the unshare and the resolver bind, registering the resolver
    /// file for deletion.
    pub fn apply_after(&self, cmd: &mut SandboxCommand) -> (r: Scope)
        ensures
            final(cmd)@ =~= old(cmd)@ + self.after_args(),
            final(cmd).program_view() == old(cmd).program_view(),
            r@ =~= self.after_paths(),
    {
        cmd.arg("--unshare-net".to_owned());
        match &self.resolv_path {
            Some(p) => {
                cmd.arg("--ro-bind".to_owned());
                cmd.arg(p.clone());
                cmd.arg("/etc/resolv.conf".to_owned());
                Scope::new().remove_file(p.clone())
            },
            None => Scope::new(),
        }
    }

    /// The stack's full argument vector for the given sandbox: the profile
    /// arguments, the readiness descriptor, the inner child pid and the TAP
    /// interface name, and, when an intermediate user namespace must be
    /// entered, the instruction to take the user namespace of the spawning
    /// process itself.
    pub fn start_argv(&self, child_pid: u32, enter_userns: bool) -> (r: Vec<String>)
        ensures
            views_of(r@) =~= self.args_view() + seq![
                "--ready-fd"@,
                int_chars(self.ready_fd_spec() as int),
                dec_chars(child_pid as int),
                self.if_name_view(),
            ] + if enter_userns {
                seq!["--userns-path=/proc/self/ns/user"@]
            } else {
                Seq::<Seq<char>>::empty()
            },
    {
        let mut argv: Vec<String> = Vec::new();
        let n = self.args.len();
        let mut i: usize = 0;
        while i < n
            invariant
                i <= n,
                n == self.args@.len(),
                argv@.len() == i,
                views_of(argv@) =~= self.args_view().take(i as int),
            decreases n - i,
        {
            let ghost prev = argv@;
            argv.push(self.args[i].clone());
            proof {
                let rhs = self.args_view().take(i as int + 1);
                assert forall|t: int| 0 <= t < argv@.len() implies views_of(argv@)[t] == rhs[t] by {
                    if t < prev.len() {
                        assert(argv@[t] == prev[t]);
                        assert(views_of(prev)[t] == self.args_view().take(i as int)[t]);
                    } else {
                        assert(argv@[t] == self.args@[i as int]);
                    }
                }
                assert(views_of(argv@) =~= rhs);
            }
            i = i + 1;
        }
        proof {
            assert(self.args_view().take(n as int) =~= self.args_view());
        }
        argv.push("--ready-fd".to_owned());
        argv.push(fmt_i64(self.ready_fd as i64));
        argv.push(fmt_u64(child_pid as u64));
        argv.push(self.if_name.clone());
        if enter_userns {
            argv.push("--userns-path=/proc/self/ns/user".to_owned());
        }
        proof {
            assert(views_of(argv@) =~= self.args_view() + seq![
                "--ready-fd"@,
                int_chars(self.ready_fd_spec() as int),
                dec_chars(child_pid as int),
                self.if_name_view(),
            ] + if enter_userns {
                seq!["--userns-path=/proc/self/ns/user"@]
            } else {
                Seq::<Seq<char>>::empty()
            });
        }
        argv
    }

    /// Consumes the service into the parent-side read end of the readiness
    /// pipe, once the stack has been spawned.
    pub fn into_ready_rx(self) -> rustix::fd::OwnedFd
        requires
            !self.ready_rx_shared(),
    {
        self.ready.into_rx()
    }
}

/// What a readiness read means: any byte says the stack is up; end-of-file
/// says it died before becoming ready, which is fatal.
pub fn ready_outcome(read: Option<u8>) -> (r: Result<(), AppError>)
    ensures
        r is Ok <==> read is Some,
        r matches Err(e) ==> e matches AppError::Io(_, _),
{
    match read {
        Some(_) => Ok(()),
        None => Err(AppError::Io("slirp4netns ready read".to_owned(), "unexpected EOF".to_owned())),
    }
}

/// Blocks until the stack signals readiness on the pipe, or fails when the
/// stack went away or the read failed; every failure is an I/O error on
/// the readiness read.
pub fn await_ready(rx: &rustix::fd::OwnedFd) -> (r: Result<(), AppError>)
    ensures
        r matches Err(e) ==> e matches AppError::Io(_, _),
{
    match sys_read_byte(rx) {
        Err(errno) => Err(AppError::Io("slirp4netns ready read".to_owned(), fmt_i64(errno as i64))),
        Ok(outcome) => ready_outcome(outcome),
    }
}

/// Relies on `rustix::fs::open`: opens a path read-only with close-on-exec
/// set, so no child inherits the namespace handle; the error is the raw
/// errno.
#[verifier::external_body]
fn sys_open_ro(path: &str) -> Result<rustix::fd::OwnedFd, i32> {
    match rustix::fs::open(
        path,
        rustix::fs::OFlags::RDONLY | rustix::fs::OFlags::CLOEXEC,
        rustix::fs::Mode::empty(),
    ) {
        Ok(fd) => Ok(fd),
        Err(e) => Err(e.raw_os_error()),
    }
}

/// Relies on `rustix::fs::fstat`: the inode number of the open file; the
/// error is the raw errno.
#[verifier::external_body]
fn sys_fd_inode(fd: &rustix::fd::OwnedFd) -> Result<u64, i32> {
    match rustix::fs::fstat(fd) {
        Ok(stat) => Ok(stat.st_ino as u64),
        Err(e) => Err(e.raw_os_error()),
    }
}

/// Relies on `rustix::thread::move_into_link_name_space`: moves the calling
/// thread into the user namespace behind the descriptor; the error is the
/// raw errno.
#[verifier::external_body]
fn sys_enter_user_ns(fd: &rustix::fd::OwnedFd) -> Result<(), i32> {
    match rustix::thread::move_into_link_name_space(
        rustix::fd::AsFd::as_fd(fd),
        Some(rustix::thread::LinkNameSpaceType::User),
    ) {
        Ok(()) => Ok(()),
        Err(e) => Err(e.raw_os_error()),
    }
}

/// The magic link of a process's user namespace.
pub fn proc_ns_user_path(pid: u32) -> (r: String)
    ensures
        r@ == "/proc/"@ + dec_chars(pid as int) + "/ns/user"@,
{
    let mut path = "/proc/".to_owned();
    let digits = fmt_u64(pid as u64);
    path.append(digits.as_str());
    path.append("/ns/user");
    path
}

/// Whether `bwrap` interposed an intermediate user namespace: it did
/// exactly when the sandbox's parent user namespace is not the
/// orchestrator's own.
pub fn needs_intermediate_ns(own_inode: u64, parent_inode: u64) -> (r: bool)
    ensures
        r == (own_inode != parent_inode),
{
    own_inode != parent_inode
}

/// An open handle on a user namespace's magic link.
#[derive(Debug)]
pub struct Namespace {
    fd: rustix::fd::OwnedFd,
}

impl Namespace {
    /// Opens the user namespace of the given process. Every failure is of
    /// the namespace-open kind, carrying the errno.
    pub fn open_pid(pid: u32) -> (r: Result<Namespace, AppError>)
        ensures
            r matches Err(e) ==> e matches AppError::NsOpen(_),
    {
        let path = proc_ns_user_path(pid);
        match sys_open_ro(path.as_str()) {
            Ok(fd) => Ok(Namespace { fd }),
            Err(errno) => Err(AppError::NsOpen(errno)),
        }
    }

    /// Wraps a namespace descriptor obtained elsewhere, such as the parent
    /// traversal's result.
    pub fn from_fd(fd: rustix::fd::OwnedFd) -> Namespace {
        Namespace { fd }
    }

    /// The underlying descriptor, for the parent-namespace query that only
    /// the spawning code can perform.
    pub fn into_fd(self) -> rustix::fd::OwnedFd {
        self.fd
    }

    /// The namespace's inode number, which identifies it. Every failure is
    /// of the namespace-inode kind, carrying the errno.
    pub fn fd_inode(&self) -> (r: Result<u64, AppError>)
        ensures
            r matches Err(e) ==> e matches AppError::NsInode(_),
    {
        match sys_fd_inode(&self.fd) {
            Ok(ino) => Ok(ino),
            Err(errno) => Err(AppError::NsInode(errno)),
        }
    }

    /// Moves the calling thread into the namespace. Every failure is of
    /// the namespace-enter kind, carrying the errno.
    pub fn enter(&self) -> (r: Result<(), AppError>)
        ensures
            r matches Err(e) ==> e matches AppError::NsEnter(_),
    {
        match sys_enter_user_ns(&self.fd) {
            Ok(()) => Ok(()),
            Err(errno) => Err(AppError::NsEnter(errno)),
        }
    }
}

} // verus!
