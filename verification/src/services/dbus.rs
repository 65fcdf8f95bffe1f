//! Side-car that filters the session bus: a proxy process is spawned on a
//! transient socket, and the sandbox sees only that socket, symlinked to
//! the bus path the payload expects. The proxy is started after the
//! sandbox's identity is known; readiness is detected by polling for the
//! socket file.

use vstd::prelude::*;

use crate::command::{views_of, SandboxCommand};
use crate::config::{Cmd, TempFileVal, TemplateArgs, EnvVal};
use crate::error::AppError;
use crate::scope::Scope;

verus! {

/// The dbus section of a profile.
#[derive(Debug)]
pub struct Config {
    pub user_bus: EnvVal<String>,
    pub sandboxed_bus: EnvVal<String>,
    pub proxy_bus: TempFileVal,
    pub cmd: Cmd,
}

/// The dbus proxy service, ready to be applied and started.
#[derive(Debug)]
pub struct DbusService {
    sandboxed_bus: String,
    proxy_bus: String,
    argv: Vec<String>,
}

impl DbusService {
    /// The bus path the payload sees inside the sandbox.
    pub closed spec fn sandboxed_view(&self) -> Seq<char> {
        self.sandboxed_bus@
    }

    /// The transient socket the proxy listens on.
    pub closed spec fn proxy_view(&self) -> Seq<char> {
        self.proxy_bus@
    }

    /// The proxy's argument vector, without the executable.
    pub closed spec fn argv_view(&self) -> Seq<Seq<char>> {
        views_of(self.argv@)
    }

    /// Builds the proxy invocation: the user's bus, the transient socket,
    /// then the profile's own proxy arguments. Fails exactly when the
    /// command block's template text does not split into words.
    pub fn from_config(cfg: Config, template: &TemplateArgs) -> (r: Result<DbusService, AppError>)
        ensures
            r is Ok <==> template.splits(),
            r matches Ok(s) ==> s.argv_view() =~= seq![
                cfg.user_bus.inner()@,
                cfg.proxy_bus.path_view(),
            ] + cfg.cmd.inline_views() + template.words(),
            r matches Ok(s) ==> s.sandboxed_view() == cfg.sandboxed_bus.inner()@
                && s.proxy_view() == cfg.proxy_bus.path_view(),
    {
        let rest = match cfg.cmd.collect_args(template) {
            Ok(v) => v,
            Err(e) => {
                return Err(e);
            },
        };
        let proxy_path = cfg.proxy_bus.into_inner();
        let mut argv: Vec<String> = Vec::new();
        argv.push(cfg.user_bus.into_inner());
        argv.push(proxy_path.clone());
        let ghost head = views_of(argv@);
        let n = rest.len();
        let mut i: usize = 0;
        while i < n
            invariant
                i <= n,
                n == rest@.len(),
                head.len() == 2,
                argv@.len() == 2 + i,
                views_of(argv@) =~= head + views_of(rest@).take(i as int),
            decreases n - i,
        {
            let ghost prev = argv@;
            argv.push(rest[i].clone());
            proof {
                let rhs = head + views_of(rest@).take(i as int + 1);
                assert forall|t: int| 0 <= t < argv@.len() implies views_of(argv@)[t] == rhs[t] by {
                    if t < prev.len() {
                        assert(argv@[t] == prev[t]);
                        assert(views_of(prev)[t] == (head + views_of(rest@).take(i as int))[t]);
                    } else {
                        assert(argv@[t] == rest@[i as int]);
                    }
                }
                assert(views_of(argv@) =~= rhs);
            }
            i = i + 1;
        }
        proof {
            assert(views_of(rest@).take(n as int) =~= views_of(rest@));
        }
        Ok(DbusService { sandboxed_bus: cfg.sandboxed_bus.into_inner(), proxy_bus: proxy_path, argv })
    }

    /// What the service appends before the user's arguments: nothing.
    pub open spec fn before_args(&self) -> Seq<Seq<char>> {
        Seq::empty()
    }

    /// What the service appends after the user's arguments: the symlink
    /// from the expected bus path to the proxy socket, placed last so it
    /// overrides any user binding of that path.
    pub open spec fn after_args(&self) -> Seq<Seq<char>> {
        seq!["--symlink"@, self.proxy_view(), self.sandboxed_view()]
    }

    /// The path registered for deletion: the transient proxy socket.
    pub open spec fn after_paths(&self) -> Set<Seq<char>> {
        Set::empty().insert(self.proxy_view())
    }

    /// Appends nothing before the user's arguments.
    pub fn apply_before(&self, cmd: &mut SandboxCommand) -> (r: Scope)
        ensures
            final(cmd)@ =~= old(cmd)@ + self.before_args(),
            final(cmd).program_view() == old(cmd).program_view(),
            r@ =~= Set::<Seq<char>>::empty(),
    {
        proof {
            assert(old(cmd)@ + self.before_args() =~= old(cmd)@);
        }
        Scope::new()
    }

    /// Appends the symlink and registers the socket for deletion.
    pub fn apply_after(&self, cmd: &mut SandboxCommand) -> (r: Scope)
        ensures
            final(cmd)@ =~= old(cmd)@ + self.after_args(),
            final(cmd).program_view() == old(cmd).program_view(),
            r@ =~= self.after_paths(),
    {
        cmd.arg("--symlink".to_owned());
        cmd.arg(self.proxy_bus.clone());
        cmd.arg(self.sandboxed_bus.clone());
        Scope::new().remove_file(self.proxy_bus.clone())
    }

    /// The proxy's argument vector, for the code that spawns it.
    pub fn start_argv(&self) -> (r: &Vec<String>)
        ensures
            views_of(r@) == self.argv_view(),
    {
        &self.argv
    }

    /// The socket path whose appearance signals the proxy is ready.
    pub fn proxy_bus_path(&self) -> (r: &String)
        ensures
            r@ == self.proxy_view(),
    {
        &self.proxy_bus
    }
}

} // verus!
