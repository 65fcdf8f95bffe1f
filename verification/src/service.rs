//! The uniform service interface, as a closed sum over the known side-car
//! kinds: each service may mutate the forming command line before and after
//! the user's profile arguments, returning the cleanup scope of whatever it
//! materialised.

use vstd::prelude::*;

use crate::command::SandboxCommand;
use crate::events::SandboxStatus;
use crate::scope::Scope;
use crate::services::appimage::AppImageExtract;
use crate::services::dbus::DbusService;
use crate::services::env_mapper::EnvMapper;
use crate::services::seccomp::SeccompService;
use crate::services::slirp4netns::Slirp4netns;

verus! {

/// What services observe of the spawned sandbox: the helper's own pid and
/// the status event it emitted.
#[derive(Debug)]
pub struct BwrapInfo {
    pub pid: u32,
    pub sandbox: SandboxStatus,
}

/// One configured side-car service.
#[derive(Debug)]
pub enum ServiceKind {
    AppImage(AppImageExtract),
    EnvMapper(EnvMapper),
    Dbus(DbusService),
    Seccomp(SeccompService),
    Slirp(Slirp4netns),
}

/// What a service appends before the user's arguments.
pub open spec fn before_args_of(s: &ServiceKind) -> Seq<Seq<char>> {
    match s {
        ServiceKind::AppImage(x) => x.before_args(),
        ServiceKind::EnvMapper(x) => x.before_args(),
        ServiceKind::Dbus(x) => x.before_args(),
        ServiceKind::Seccomp(x) => x.before_args(),
        ServiceKind::Slirp(x) => x.before_args(),
    }
}

/// What a service appends after the user's arguments.
pub open spec fn after_args_of(s: &ServiceKind) -> Seq<Seq<char>> {
    match s {
        ServiceKind::AppImage(x) => x.after_args(),
        ServiceKind::EnvMapper(x) => x.after_args(),
        ServiceKind::Dbus(x) => x.after_args(),
        ServiceKind::Seccomp(x) => x.after_args(),
        ServiceKind::Slirp(x) => x.after_args(),
    }
}

/// The paths a service registers for deletion in its after pass.
pub open spec fn after_paths_of(s: &ServiceKind) -> Set<Seq<char>> {
    match s {
        ServiceKind::Dbus(x) => x.after_paths(),
        ServiceKind::Slirp(x) => x.after_paths(),
        _ => Set::empty(),
    }
}

impl ServiceKind {
    /// The before pass: appends the service's early arguments. No known
    /// service materialises anything in this pass, so the returned scope
    /// is empty.
    pub fn apply_before(&self, cmd: &mut SandboxCommand) -> (r: Scope)
        ensures
            final(cmd)@ =~= old(cmd)@ + before_args_of(self),
            final(cmd).program_view() == old(cmd).program_view(),
            r@ =~= Set::<Seq<char>>::empty(),
    {
        match self {
            ServiceKind::AppImage(x) => x.apply_before(cmd),
            ServiceKind::EnvMapper(x) => x.apply_before(cmd),
            ServiceKind::Dbus(x) => x.apply_before(cmd),
            ServiceKind::Seccomp(x) => x.apply_before(cmd),
            ServiceKind::Slirp(x) => x.apply_before(cmd),
        }
    }

    /// The after pass: appends the service's late arguments and registers
    /// its transient files for deletion.
    pub fn apply_after(&self, cmd: &mut SandboxCommand) -> (r: Scope)
        ensures
            final(cmd)@ =~= old(cmd)@ + after_args_of(self),
            final(cmd).program_view() == old(cmd).program_view(),
            r@ =~= after_paths_of(self),
    {
        match self {
            ServiceKind::AppImage(x) => x.apply_after(cmd),
            ServiceKind::EnvMapper(x) => x.apply_after(cmd),
            ServiceKind::Dbus(x) => x.apply_after(cmd),
            ServiceKind::Seccomp(x) => x.apply_after(cmd),
            ServiceKind::Slirp(x) => x.apply_after(cmd),
        }
    }
}

} // verus!
