//! Side-car that shapes the sandbox's environment: optionally clears it,
//! re-exports a chosen set of variables with the values they carried in the
//! parent, and unsets others. The caller resolves each kept variable from
//! the real environment; a variable absent there is silently dropped, as a
//! `--setenv` without a value would be meaningless.

use vstd::prelude::*;

use crate::command::SandboxCommand;
use crate::error::AppError;
use crate::scope::Scope;

verus! {

/// A variable to re-export: its name, and its value in the parent
/// environment if it was set there.
#[derive(Debug)]
pub struct EnvPair {
    pub name: String,
    pub value: Option<String>,
}

/// The profile's default: the environment is cleared.
pub fn unset_all_default() -> (r: bool)
    ensures
        r == true,
{
    true
}

/// Configuration and state of the environment mapper.
#[derive(Debug)]
pub struct EnvMapper {
    pub unset_all: bool,
    pub keep: Vec<EnvPair>,
    pub unset: Vec<String>,
}

/// The arguments re-exporting one kept variable.
pub open spec fn keep_args_one(p: EnvPair) -> Seq<Seq<char>> {
    match p.value {
        Some(v) => seq!["--setenv"@, p.name@, v@],
        None => Seq::empty(),
    }
}

/// The arguments re-exporting a list of kept variables, in order.
pub open spec fn keep_args(ps: Seq<EnvPair>) -> Seq<Seq<char>>
    decreases ps.len(),
{
    if ps.len() == 0 {
        Seq::empty()
    } else {
        keep_args_one(ps[0]) + keep_args(ps.drop_first())
    }
}

/// The arguments unsetting a list of variables, in order.
pub open spec fn unset_args(ns: Seq<String>) -> Seq<Seq<char>>
    decreases ns.len(),
{
    if ns.len() == 0 {
        Seq::empty()
    } else {
        seq!["--unsetenv"@, ns[0]@] + unset_args(ns.drop_first())
    }
}

proof fn lemma_keep_args_take(ps: Seq<EnvPair>, i: int)
    requires
        0 <= i < ps.len(),
    ensures
        keep_args(ps.take(i + 1)) =~= keep_args(ps.take(i)) + keep_args_one(ps[i]),
    decreases i,
{
    if i == 0 {
        assert(ps.take(1) =~= seq![ps[0]]);
        assert(ps.take(1).drop_first() =~= Seq::<EnvPair>::empty());
        assert(ps.take(0) =~= Seq::<EnvPair>::empty());
    } else {
        assert(ps.take(i + 1)[0] == ps[0]);
        assert(ps.take(i + 1).drop_first() =~= ps.drop_first().take(i));
        assert(ps.take(i).drop_first() =~= ps.drop_first().take(i - 1));
        assert(ps.take(i)[0] == ps[0]);
        lemma_keep_args_take(ps.drop_first(), i - 1);
        assert(ps.drop_first()[i - 1] == ps[i]);
    }
}

proof fn lemma_unset_args_take(ns: Seq<String>, i: int)
    requires
        0 <= i < ns.len(),
    ensures
        unset_args(ns.take(i + 1)) =~= unset_args(ns.take(i)) + seq!["--unsetenv"@, ns[i]@],
    decreases i,
{
    if i == 0 {
        assert(ns.take(1) =~= seq![ns[0]]);
        assert(ns.take(1).drop_first() =~= Seq::<String>::empty());
        assert(ns.take(0) =~= Seq::<String>::empty());
    } else {
        assert(ns.take(i + 1)[0] == ns[0]);
        assert(ns.take(i + 1).drop_first() =~= ns.drop_first().take(i));
        assert(ns.take(i).drop_first() =~= ns.drop_first().take(i - 1));
        assert(ns.take(i)[0] == ns[0]);
        lemma_unset_args_take(ns.drop_first(), i - 1);
        assert(ns.drop_first()[i - 1] == ns[i]);
    }
}

impl EnvMapper {
    /// What the service appends before the user's arguments: the clearing,
    /// the re-exports, the unsets, in that order. Running before the user's
    /// arguments lets a profile override what the mapper set.
    pub open spec fn before_args(&self) -> Seq<Seq<char>> {
        (if self.unset_all {
            seq!["--clearenv"@]
        } else {
            Seq::<Seq<char>>::empty()
        }) + keep_args(self.keep@) + unset_args(self.unset@)
    }

    /// What the service appends after the user's arguments: nothing.
    pub open spec fn after_args(&self) -> Seq<Seq<char>> {
        Seq::empty()
    }

    /// The service's configuration is its state; it cannot fail to load.
    pub fn from_config(config: EnvMapper) -> (r: Result<EnvMapper, AppError>)
        ensures
            r matches Ok(s) && s == config,
    {
        Ok(config)
    }

    /// Appends the environment arguments.
    pub fn apply_before(&self, cmd: &mut SandboxCommand) -> (r: Scope)
        ensures
            final(cmd)@ =~= old(cmd)@ + self.before_args(),
            final(cmd).program_view() == old(cmd).program_view(),
            r@ =~= Set::<Seq<char>>::empty(),
    {
        let ghost base = cmd@;
        if self.unset_all {
            cmd.arg("--clearenv".to_owned());
        }
        let ghost cleared = cmd@;
        let kn = self.keep.len();
        let mut i: usize = 0;
        while i < kn
            invariant
                i <= kn,
                kn == self.keep@.len(),
                cmd@ =~= cleared + keep_args(self.keep@.take(i as int)),
                cmd.program_view() == old(cmd).program_view(),
            decreases kn - i,
        {
            proof {
                lemma_keep_args_take(self.keep@, i as int);
            }
            match &self.keep[i].value {
                Some(v) => {
                    cmd.arg("--setenv".to_owned());
                    cmd.arg(self.keep[i].name.clone());
                    cmd.arg(v.clone());
                },
                None => {},
            }
            i = i + 1;
        }
        proof {
            assert(self.keep@.take(kn as int) =~= self.keep@);
        }
        let ghost kept = cmd@;
        let un = self.unset.len();
        let mut j: usize = 0;
        while j < un
            invariant
                j <= un,
                un == self.unset@.len(),
                cmd@ =~= kept + unset_args(self.unset@.take(j as int)),
                cmd.program_view() == old(cmd).program_view(),
            decreases un - j,
        {
            proof {
                lemma_unset_args_take(self.unset@, j as int);
            }
            cmd.arg("--unsetenv".to_owned());
            cmd.arg(self.unset[j].clone());
            j = j + 1;
        }
        proof {
            assert(self.unset@.take(un as int) =~= self.unset@);
            assert(cmd@ =~= old(cmd)@ + self.before_args());
        }
        Scope::new()
    }

    /// Appends nothing after the user's arguments.
    pub fn apply_after(&self, cmd: &mut SandboxCommand) -> (r: Scope)
        ensures
            final(cmd)@ =~= old(cmd)@ + self.after_args(),
            final(cmd).program_view() == old(cmd).program_view(),
            r@ =~= Set::<Seq<char>>::empty(),
    {
        proof {
            assert(old(cmd)@ + self.after_args() =~= old(cmd)@);
        }
        Scope::new()
    }
}

} // verus!
