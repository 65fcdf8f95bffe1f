//! Core of a declarative front-end that launches an untrusted program inside a
//! Linux sandbox built on the `bwrap` helper. The library assembles the
//! `bwrap` argument vector through a two-phase service-application protocol,
//! manages the descriptor-sharing and pipe protocol used to hand seccomp
//! filters, readiness signals and status events across `fork`/`exec`, parses
//! the newline-delimited status events `bwrap` emits, and tracks the transient
//! files that must be deleted exactly once on teardown.

pub mod command;
pub mod config;
pub mod error;
pub mod events;
pub mod fd;
pub mod models;
pub mod numfmt;
pub mod bwrap;
pub mod scope;
pub mod service;
pub mod services;
pub mod util;
