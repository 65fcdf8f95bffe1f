//! Side-car that prepares the sandbox for AppImage payloads: it injects the
//! environment variable telling the AppImage runtime to extract and run,
//! since FUSE mounts are unavailable inside the sandbox.

use vstd::prelude::*;

use crate::command::SandboxCommand;
use crate::error::AppError;
use crate::scope::Scope;

verus! {

/// Configuration and state of the AppImage service.
#[derive(Debug)]
pub struct AppImageExtract {
    pub extract_and_run: bool,
}

/// The profile's default: extraction is on.
pub fn extract_and_run_default() -> (r: bool)
    ensures
        r == true,
{
    true
}

impl AppImageExtract {
    /// What the service appends before the user's arguments: nothing.
    pub open spec fn before_args(&self) -> Seq<Seq<char>> {
        Seq::empty()
    }

    /// What the service appends after the user's arguments.
    pub open spec fn after_args(&self) -> Seq<Seq<char>> {
        if self.extract_and_run {
            seq!["--setenv"@, "APPIMAGE_EXTRACT_AND_RUN"@, "1"@]
        } else {
            Seq::empty()
        }
    }

    /// The service's configuration is its state; it cannot fail to load.
    pub fn from_config(config: AppImageExtract) -> (r: Result<AppImageExtract, AppError>)
        ensures
            r matches Ok(s) && s == config,
    {
        Ok(config)
    }

    /// Appends nothing: the setting must land after the user's arguments.
    pub fn apply_before(&self, cmd: &mut SandboxCommand) -> (r: Scope)
        ensures
            final(cmd)@ =~= old(cmd)@ + self.before_args(),
            final(cmd).program_view() == old(cmd).program_view(),
            r@ =~= Set::<Seq<char>>::empty(),
    {
        proof {
            assert(old(cmd)@ + self.before_args() =~= old(cmd)@);
        }
        Scope::new()
    }

    /// Appends the environment setting when extraction is configured.
    pub fn apply_after(&self, cmd: &mut SandboxCommand) -> (r: Scope)
        ensures
            final(cmd)@ =~= old(cmd)@ + self.after_args(),
            final(cmd).program_view() == old(cmd).program_view(),
            r@ =~= Set::<Seq<char>>::empty(),
    {
        if self.extract_and_run {
            cmd.arg("--setenv".to_owned());
            cmd.arg("APPIMAGE_EXTRACT_AND_RUN".to_owned());
            cmd.arg("1".to_owned());
        }
        Scope::new()
    }
}

} // verus!
