//! Side-car that installs a seccomp/BPF filter in the sandbox. The rule
//! list of the profile is compiled into a flat sequence of filter-library
//! operations; the caller performs those calls against the filter library,
//! exports the program to a temporary file with close-on-exec cleared and
//! the offset rewound to zero, and hands the descriptor number back. The
//! service then appends `--seccomp <fd>` after the user's arguments.

use vstd::prelude::*;

use crate::command::SandboxCommand;
use crate::error::AppError;
use crate::numfmt::{fmt_i64, int_chars};
use crate::scope::Scope;

verus! {

/// A filter action, with the token values of the filter library.
#[derive(Debug, Clone, Copy, PartialEq, Eq, Structural)]
pub enum Action {
    /// Kill the offending thread.
    Kill,
    /// Fail the call with `EPERM`.
    Errno,
    /// Allow the call.
    Allow,
}

impl Action {
    /// The action's token as the filter library defines it.
    pub fn as_u32(self) -> (r: u32)
        ensures
            self is Kill ==> r == 0x80000000u32,
            self is Errno ==> r == 0x00050001u32,
            self is Allow ==> r == 0x7fff0000u32,
    {
        match self {
            Action::Kill => 0x80000000,
            Action::Errno => 0x00050001,
            Action::Allow => 0x7fff0000,
        }
    }

    /// The action's token, for specifications.
    pub open spec fn token(self) -> u32 {
        match self {
            Action::Kill => 0x80000000u32,
            Action::Errno => 0x00050001u32,
            Action::Allow => 0x7fff0000u32,
        }
    }
}

/// An architecture token, resolved by name through the filter library.
#[derive(Debug, Clone, Copy, PartialEq, Eq, Structural)]
pub struct Arch {
    raw: u32,
}

impl Arch {
    pub closed spec fn token(self) -> u32 {
        self.raw
    }

    pub fn from_raw(raw: u32) -> (r: Arch)
        ensures
            r.token() == raw,
    {
        Arch { raw }
    }

    pub fn raw(&self) -> (r: u32)
        ensures
            r == self.token(),
    {
        self.raw
    }
}

/// A syscall number, resolved by name through the filter library.
#[derive(Debug, Clone, Copy, PartialEq, Eq, Structural)]
pub struct Syscall {
    raw: i32,
}

impl Syscall {
    pub closed spec fn number(self) -> i32 {
        self.raw
    }

    pub fn from_raw(raw: i32) -> (r: Syscall)
        ensures
            r.number() == raw,
    {
        Syscall { raw }
    }

    pub fn raw(&self) -> (r: i32)
        ensures
            r == self.number(),
    {
        self.raw
    }
}

/// One profile rule: an action applied to a list of syscalls.
#[derive(Debug)]
pub struct SeccompRule {
    pub action: Action,
    pub syscalls: Vec<Syscall>,
}

/// The seccomp section of a profile.
#[derive(Debug)]
pub struct SeccompConfig {
    pub default_action: Action,
    pub extra_arch: Vec<Arch>,
    pub rules: Vec<SeccompRule>,
}

/// One call to make against a filter context initialised with the default
/// action.
#[derive(Debug, Clone, Copy, PartialEq, Eq, Structural)]
pub enum FilterOp {
    /// Register an extra architecture by its token.
    AddArch(u32),
    /// Add a zero-argument rule: the action token and the syscall number.
    AddRule(u32, i32),
}

/// The operations registering a list of architectures, in order.
pub open spec fn arch_ops(arches: Seq<Arch>) -> Seq<FilterOp>
    decreases arches.len(),
{
    if arches.len() == 0 {
        Seq::empty()
    } else {
        seq![FilterOp::AddArch(arches[0].token())] + arch_ops(arches.drop_first())
    }
}

/// The operations of one rule: one `AddRule` per syscall, in order.
pub open spec fn rule_ops(r: SeccompRule, from: int) -> Seq<FilterOp>
    decreases r.syscalls.len() - from,
{
    if from < 0 || from >= r.syscalls.len() {
        Seq::empty()
    } else {
        seq![FilterOp::AddRule(r.action.token(), r.syscalls[from].number())] + rule_ops(
            r,
            from + 1,
        )
    }
}

/// The operations of a list of rules, in order.
pub open spec fn rules_ops(rs: Seq<SeccompRule>) -> Seq<FilterOp>
    decreases rs.len(),
{
    if rs.len() == 0 {
        Seq::empty()
    } else {
        rule_ops(rs[0], 0) + rules_ops(rs.drop_first())
    }
}

/// The whole compilation plan of a configuration: all architecture
/// registrations, then every rule's operations, rule by rule.
pub open spec fn plan_of(cfg: SeccompConfig) -> Seq<FilterOp> {
    arch_ops(cfg.extra_arch@) + rules_ops(cfg.rules@)
}

proof fn lemma_arch_ops_take(arches: Seq<Arch>, i: int)
    requires
        0 <= i < arches.len(),
    ensures
        arch_ops(arches.take(i + 1)) =~= arch_ops(arches.take(i)).push(
            FilterOp::AddArch(arches[i].token()),
        ),
    decreases i,
{
    if i == 0 {
        assert(arches.take(1) =~= seq![arches[0]]);
        assert(arches.take(1).drop_first() =~= Seq::<Arch>::empty());
        assert(arches.take(0) =~= Seq::<Arch>::empty());
    } else {
        assert(arches.take(i + 1)[0] == arches[0]);
        assert(arches.take(i + 1).drop_first() =~= arches.drop_first().take(i));
        assert(arches.take(i)[0] == arches[0]);
        assert(arches.take(i).drop_first() =~= arches.drop_first().take(i - 1));
        lemma_arch_ops_take(arches.drop_first(), i - 1);
        assert(arches.drop_first()[i - 1] == arches[i]);
    }
}

proof fn lemma_rules_ops_take(rs: Seq<SeccompRule>, i: int)
    requires
        0 <= i < rs.len(),
    ensures
        rules_ops(rs.take(i + 1)) =~= rules_ops(rs.take(i)) + rule_ops(rs[i], 0),
    decreases i,
{
    if i == 0 {
        assert(rs.take(1) =~= seq![rs[0]]);
        assert(rs.take(1).drop_first() =~= Seq::<SeccompRule>::empty());
        assert(rs.take(0) =~= Seq::<SeccompRule>::empty());
    } else {
        assert(rs.take(i + 1)[0] == rs[0]);
        assert(rs.take(i + 1).drop_first() =~= rs.drop_first().take(i));
        assert(rs.take(i)[0] == rs[0]);
        assert(rs.take(i).drop_first() =~= rs.drop_first().take(i - 1));
        lemma_rules_ops_take(rs.drop_first(), i - 1);
        assert(rs.drop_first()[i - 1] == rs[i]);
    }
}

proof fn lemma_rule_ops_split(r: SeccompRule, from: int)
    requires
        0 <= from < r.syscalls.len(),
    ensures
        rule_ops(r, 0).take(from + 1) =~= rule_ops(r, 0).take(from).push(
            FilterOp::AddRule(r.action.token(), r.syscalls[from].number()),
        ),
        rule_ops(r, 0).len() == r.syscalls.len(),
{
    lemma_rule_ops_shape(r, 0);
}

/// `rule_ops(r, from)` lists exactly the remaining syscalls.
proof fn lemma_rule_ops_shape(r: SeccompRule, from: int)
    requires
        0 <= from <= r.syscalls.len(),
    ensures
        rule_ops(r, from).len() == r.syscalls.len() - from,
        forall|t: int|
            0 <= t < r.syscalls.len() - from ==> rule_ops(r, from)[t] == FilterOp::AddRule(
                r.action.token(),
                r.syscalls[from + t].number(),
            ),
    decreases r.syscalls.len() - from,
{
    if from < r.syscalls.len() {
        lemma_rule_ops_shape(r, from + 1);
    }
}

/// Compiles a configuration into its flat sequence of filter operations:
/// first every extra architecture, then, rule by rule, one operation per
/// syscall carrying that rule's action.
pub fn seccomp_plan(cfg: &SeccompConfig) -> (r: Vec<FilterOp>)
    ensures
        r@ =~= plan_of(*cfg),
{
    let mut out: Vec<FilterOp> = Vec::new();
    let an = cfg.extra_arch.len();
    let mut i: usize = 0;
    while i < an
        invariant
            i <= an,
            an == cfg.extra_arch@.len(),
            out@ =~= arch_ops(cfg.extra_arch@.take(i as int)),
        decreases an - i,
    {
        proof {
            lemma_arch_ops_take(cfg.extra_arch@, i as int);
        }
        out.push(FilterOp::AddArch(cfg.extra_arch[i].raw()));
        i = i + 1;
    }
    proof {
        assert(cfg.extra_arch@.take(an as int) =~= cfg.extra_arch@);
    }
    let rn = cfg.rules.len();
    let mut j: usize = 0;
    while j < rn
        invariant
            j <= rn,
            rn == cfg.rules@.len(),
            out@ =~= arch_ops(cfg.extra_arch@) + rules_ops(cfg.rules@.take(j as int)),
        decreases rn - j,
    {
        proof {
            lemma_rules_ops_take(cfg.rules@, j as int);
        }
        let sn = cfg.rules[j].syscalls.len();
        let mut k: usize = 0;
        while k < sn
            invariant
                k <= sn,
                j < rn,
                rn == cfg.rules@.len(),
                sn == cfg.rules@[j as int].syscalls@.len(),
                out@ =~= arch_ops(cfg.extra_arch@) + rules_ops(cfg.rules@.take(j as int))
                    + rule_ops(cfg.rules@[j as int], 0).take(k as int),
            decreases sn - k,
        {
            proof {
                lemma_rule_ops_split(cfg.rules@[j as int], k as int);
            }
            out.push(
                FilterOp::AddRule(cfg.rules[j].action.as_u32(), cfg.rules[j].syscalls[k].raw()),
            );
            k = k + 1;
        }
        proof {
            lemma_rule_ops_shape(cfg.rules@[j as int], 0);
            assert(rule_ops(cfg.rules@[j as int], 0).take(sn as int) =~= rule_ops(
                cfg.rules@[j as int],
                0,
            ));
        }
        j = j + 1;
    }
    proof {
        assert(cfg.rules@.take(rn as int) =~= cfg.rules@);
    }
    out
}

/// Whether the filter library resolved an architecture name: the zero
/// token is its failure value, every other token names an architecture.
pub fn arch_token_valid(token: u32) -> (r: bool)
    ensures
        r == (token != 0),
{
    token != 0
}

/// Whether the filter library resolved a syscall name: minus one is its
/// failure value, every other number names a syscall.
pub fn syscall_number_valid(number: i32) -> (r: bool)
    ensures
        r == (number != -1i32),
{
    number != -1
}

/// The filter library's version triple.
#[derive(Debug, Clone, Copy, PartialEq, Eq, Structural)]
pub struct Version {
    pub major: u32,
    pub minor: u32,
    pub micro: u32,
}

impl Version {
    /// Whether the library is at least the given major and minor version.
    /// The compiler refuses to run below version 2.5, which introduced the
    /// architecture multiplexing the filters depend on.
    pub fn verify_version(&self, major: u32, minor: u32) -> (r: bool)
        ensures
            r == (self.major > major || (self.major == major && self.minor >= minor)),
    {
        self.major > major || (self.major == major && self.minor >= minor)
    }
}

/// The seccomp service once the filter program has been exported: it only
/// holds the inheritable descriptor's number, open on the program's bytes
/// at offset zero.
#[derive(Debug)]
pub struct SeccompService {
    pub fd: i32,
}

impl SeccompService {
    /// Wraps the exported filter's descriptor number.
    pub fn new(fd: i32) -> (r: SeccompService)
        ensures
            r.fd == fd,
    {
        SeccompService { fd }
    }

    /// What the service appends before the user's arguments: nothing.
    pub open spec fn before_args(&self) -> Seq<Seq<char>> {
        Seq::empty()
    }

    /// What the service appends after the user's arguments: the filter
    /// descriptor, so a profile cannot displace it.
    pub open spec fn after_args(&self) -> Seq<Seq<char>> {
        seq!["--seccomp"@, int_chars(self.fd as int)]
    }

    /// Appends nothing before the user's arguments.
    pub fn apply_before(&self, cmd: &mut SandboxCommand) -> (r: Scope)
        ensures
            final(cmd)@ =~= old(cmd)@ + self.before_args(),
            final(cmd).program_view() == old(cmd).program_view(),
            r@ =~= Set::<Seq<char>>::empty(),
    {
        proof {
            assert(old(cmd)@ + self.before_args() =~= old(cmd)@);
        }
        Scope::new()
    }

    /// Appends `--seccomp` with the filter descriptor's number.
    pub fn apply_after(&self, cmd: &mut SandboxCommand) -> (r: Scope)
        ensures
            final(cmd)@ =~= old(cmd)@ + self.after_args(),
            final(cmd).program_view() == old(cmd).program_view(),
            r@ =~= Set::<Seq<char>>::empty(),
    {
        cmd.arg("--seccomp".to_owned());
        cmd.arg(fmt_i64(self.fd as i64));
        Scope::new()
    }
}

} // verus!
