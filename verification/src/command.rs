//! The command under construction: an executable name plus an accumulated
//! argument list. Services and the builder only ever append; the view of a
//! command is the sequence of its arguments' character sequences.

use vstd::prelude::*;

verus! {

/// The character sequences of a sequence of strings.
pub open spec fn views_of(s: Seq<String>) -> Seq<Seq<char>> {
    Seq::new(s.len(), |i: int| s[i]@)
}

/// A process invocation being assembled: program name and argument vector.
#[derive(Debug)]
pub struct SandboxCommand {
    program: String,
    args: Vec<String>,
}

impl SandboxCommand {
    /// The argument vector as character sequences, in order.
    pub closed spec fn view(&self) -> Seq<Seq<char>> {
        views_of(self.args@)
    }

    pub closed spec fn program_view(&self) -> Seq<char> {
        self.program@
    }

    /// An empty command for the given program.
    pub fn new(program: String) -> (r: SandboxCommand)
        ensures
            r@ =~= Seq::<Seq<char>>::empty(),
            r.program_view() == program@,
    {
        SandboxCommand { program, args: Vec::new() }
    }

    /// Appends one argument.
    pub fn arg(&mut self, a: String)
        ensures
            final(self)@ =~= old(self)@.push(a@),
            final(self).program_view() == old(self).program_view(),
    {
        self.args.push(a);
    }

    /// Appends a whole argument list, in order.
    pub fn args(&mut self, more: Vec<String>)
        ensures
            final(self)@ =~= old(self)@ + views_of(more@),
            final(self).program_view() == old(self).program_view(),
    {
        let n = more.len();
        let mut i: usize = 0;
        while i < n
            invariant
                i <= n,
                n == more@.len(),
                self@ =~= old(self)@ + views_of(more@.take(i as int)),
                self.program_view() == old(self).program_view(),
            decreases n - i,
        {
            let a = more[i].clone();
            self.arg(a);
            proof {
                assert(views_of(more@.take(i as int + 1)) =~= views_of(more@.take(i as int)).push(
                    more@[i as int]@,
                ));
            }
            i = i + 1;
        }
        proof {
            assert(more@.take(n as int) =~= more@);
        }
    }

    /// The program name.
    pub fn program(&self) -> (r: &String)
        ensures
            r@ == self.program_view(),
    {
        &self.program
    }

    /// The arguments accumulated so far.
    pub fn arg_list(&self) -> (r: &Vec<String>)
        ensures
            views_of(r@) == self@,
    {
        &self.args
    }

    /// Gives the command up as a plain program/argument pair.
    pub fn into_parts(self) -> (r: (String, Vec<String>))
        ensures
            r.0@ == self.program_view(),
            views_of(r.1@) == self@,
    {
        (self.program, self.args)
    }
}

} // verus!
