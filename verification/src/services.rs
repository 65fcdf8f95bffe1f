//! The side-car services: each can mutate the forming `bwrap` command line
//! before and after the user's profile arguments, and may later be started
//! against the running sandbox's identity.

pub mod appimage;
pub mod dbus;
pub mod env_mapper;
pub mod seccomp;
pub mod slirp4netns;
