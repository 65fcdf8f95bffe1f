//! Cleanup obligations accumulated while the sandbox is assembled: a set of
//! filesystem paths to delete on teardown. A `Scope` is viewed as the set of
//! its paths, so registering a path twice is the same as registering it once.
//! `ScopeCleanup` owns the combined scopes of a whole invocation and hands
//! them out exactly once, whether teardown comes from a normal exit, from a
//! signal, or from both racing.

use vstd::prelude::*;

verus! {

/// The set of paths denoted by a sequence of path strings.
pub open spec fn path_set(s: Seq<String>) -> Set<Seq<char>>
    decreases s.len(),
{
    if s.len() == 0 {
        Set::empty()
    } else {
        path_set(s.drop_last()).insert(s.last()@)
    }
}

/// The view of any element of the sequence is in its path set.
proof fn lemma_path_set_index(s: Seq<String>, i: int)
    requires
        0 <= i < s.len(),
    ensures
        path_set(s).contains(s[i]@),
    decreases s.len(),
{
    if i < s.len() - 1 {
        lemma_path_set_index(s.drop_last(), i);
        assert(s.drop_last()[i] == s[i]);
    }
}

/// A path that differs from every element of the sequence is not in its
/// path set.
proof fn lemma_path_set_not_contains(s: Seq<String>, p: Seq<char>)
    requires
        forall|k: int| 0 <= k < s.len() ==> (#[trigger] s[k]@) != p,
    ensures
        !path_set(s).contains(p),
    decreases s.len(),
{
    if s.len() > 0 {
        assert forall|k: int| 0 <= k < s.drop_last().len() implies (#[trigger] s.drop_last()[k]@)
            != p by {
            assert(s.drop_last()[k] == s[k]);
        }
        lemma_path_set_not_contains(s.drop_last(), p);
        assert(s[s.len() - 1]@ != p);
    }
}

/// A deduplicated set of absolute paths to delete on teardown.
#[derive(Debug)]
pub struct Scope {
    remove: Vec<String>,
}

impl Scope {
    /// The set of registered paths.
    pub closed spec fn view(&self) -> Set<Seq<char>> {
        path_set(self.remove@)
    }

    /// An empty scope.
    pub fn new() -> (r: Scope)
        ensures
            r@ =~= Set::<Seq<char>>::empty(),
    {
        Scope { remove: Vec::new() }
    }

    /// Whether `p` is already registered.
    fn contains_path(&self, p: &String) -> (r: bool)
        ensures
            r == self@.contains(p@),
    {
        let n = self.remove.len();
        let mut i: usize = 0;
        while i < n
            invariant
                i <= n,
                n == self.remove@.len(),
                forall|k: int| 0 <= k < i ==> (#[trigger] self.remove@[k]@) != p@,
            decreases n - i,
        {
            if self.remove[i].eq(p) {
                proof {
                    lemma_path_set_index(self.remove@, i as int);
                }
                return true;
            }
            i = i + 1;
        }
        proof {
            lemma_path_set_not_contains(self.remove@, p@);
        }
        false
    }

    /// Registers one path for deletion.
    pub fn remove_file(self, file: String) -> (r: Scope)
        ensures
            r@ =~= self@.insert(file@),
    {
        let mut s = self;
        s.insert_path(file);
        proof {
            assert(s@ =~= self@.insert(file@));
        }
        s
    }

    /// Registers one path in place.
    fn insert_path(&mut self, file: String)
        ensures
            final(self)@ =~= old(self)@.insert(file@),
    {
        if self.contains_path(&file) {
            proof {
                assert(old(self)@.insert(file@) =~= old(self)@);
            }
        } else {
            self.remove.push(file);
            proof {
                assert(self.remove@.drop_last() =~= old(self).remove@);
            }
        }
    }

    /// Unions another scope into this one.
    pub fn merge(&mut self, other: Scope)
        ensures
            final(self)@ =~= old(self)@.union(other@),
    {
        let n = other.remove.len();
        let mut i: usize = 0;
        while i < n
            invariant
                i <= n,
                n == other.remove@.len(),
                self@ =~= old(self)@.union(path_set(other.remove@.take(i as int))),
            decreases n - i,
        {
            let p = other.remove[i].clone();
            self.insert_path(p);
            proof {
                assert(other.remove@.take(i as int + 1).drop_last() =~= other.remove@.take(
                    i as int,
                ));
                assert(path_set(other.remove@.take(i as int + 1)) =~= path_set(
                    other.remove@.take(i as int),
                ).insert(other.remove@[i as int]@));
                assert(self@ =~= old(self)@.union(path_set(other.remove@.take(i as int + 1))));
            }
            i = i + 1;
        }
        proof {
            assert(other.remove@.take(n as int) =~= other.remove@);
        }
    }

    /// Whether no path is registered.
    pub fn is_empty(&self) -> (r: bool)
        ensures
            r == (self@ =~= Set::<Seq<char>>::empty()),
    {
        proof {
            if self.remove@.len() > 0 {
                lemma_path_set_index(self.remove@, 0);
            }
        }
        self.remove.len() == 0
    }

    /// The registered paths, for the teardown code that performs deletion.
    pub fn paths(&self) -> (r: &Vec<String>)
        ensures
            path_set(r@) == self@,
    {
        &self.remove
    }
}

/// Merging is idempotent in the set sense: merging the same scope twice
/// leaves the same path set as merging it once.
pub proof fn lemma_merge_idempotent(a: &Scope, b: &Scope)
    ensures
        a@.union(b@).union(b@) =~= a@.union(b@),
{
}

/// Merging is commutative in the set sense: the order of two merges does not
/// change the resulting path set.
pub proof fn lemma_merge_commutative(a: &Scope, b: &Scope)
    ensures
        a@.union(b@) =~= b@.union(a@),
{
}

/// The union of the path sets of a sequence of scopes.
pub open spec fn scopes_union(ss: Seq<Scope>) -> Set<Seq<char>>
    decreases ss.len(),
{
    if ss.len() == 0 {
        Set::empty()
    } else {
        ss[0]@.union(scopes_union(ss.drop_first()))
    }
}

/// Owns every scope of an invocation and hands the combined path set out at
/// most once. Both the drop path and the signal path go through `take`; only
/// the first caller receives the paths, so deletion runs exactly once.
#[derive(Debug)]
pub struct ScopeCleanup {
    pending: Option<Scope>,
}

impl ScopeCleanup {
    /// The paths still awaiting deletion, if they were not yet taken.
    pub closed spec fn pending_view(&self) -> Option<Set<Seq<char>>> {
        match self.pending {
            Some(s) => Some(s@),
            None => None,
        }
    }

    /// Combines all scopes into one pending cleanup.
    pub fn new(scopes: Vec<Scope>) -> (r: ScopeCleanup)
        ensures
            r.pending_view() matches Some(p) && p =~= scopes_union(scopes@),
    {
        let ghost orig = scopes@;
        let mut rest = scopes;
        let mut acc = Scope::new();
        while rest.len() > 0
            invariant
                acc@.union(scopes_union(rest@)) =~= scopes_union(orig),
            decreases rest@.len(),
        {
            let ghost pre = rest@;
            let s = rest.remove(0);
            acc.merge(s);
            proof {
                assert(pre.remove(0) =~= pre.drop_first());
                assert(acc@.union(scopes_union(rest@)) =~= scopes_union(orig));
            }
        }
        proof {
            assert(acc@ =~= acc@.union(scopes_union(rest@)));
        }
        ScopeCleanup { pending: Some(acc) }
    }

    /// Takes the pending paths. The first call returns them; every later
    /// call returns nothing.
    pub fn take(&mut self) -> (r: Option<Scope>)
        ensures
            final(self).pending_view() is None,
            r is Some <==> old(self).pending_view() is Some,
            r is Some ==> r->0@ == old(self).pending_view()->0,
            take_transition(*old(self), *final(self), r),
    {
        self.pending.take()
    }

    /// Whether the cleanup already ran.
    pub fn is_spent(&self) -> (r: bool)
        ensures
            r == (self.pending_view() is None),
    {
        self.pending.is_none()
    }
}

/// The state change `take` performs, as a relation between the cleanup
/// before the call, the cleanup after it, and what the call returned.
pub open spec fn take_transition(
    before: ScopeCleanup,
    after: ScopeCleanup,
    r: Option<Scope>,
) -> bool {
    &&& after.pending_view() is None
    &&& (r is Some <==> before.pending_view() is Some)
    &&& (r is Some ==> r->0@ == before.pending_view()->0)
}

/// Cleanup runs at most once: whichever of the drop path and the signal path
/// takes the scopes first receives them, and the other take, arriving on the
/// already-spent cleanup, receives nothing.
pub proof fn lemma_cleanup_runs_once(
    start: ScopeCleanup,
    mid: ScopeCleanup,
    end: ScopeCleanup,
    first: Option<Scope>,
    second: Option<Scope>,
)
    requires
        take_transition(start, mid, first),
        take_transition(mid, end, second),
    ensures
        second is None,
{
}

} // verus!
