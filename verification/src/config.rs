//! Values carried by a parsed profile: plain strings whose
//! environment-variable expansion already happened at the edge, paths of
//! transient files, inline argument lists and rendered command templates.
//! The one computation here is `Cmd::collect_args`, which turns a command
//! block into the flat argument vector a side-car is spawned with.

use vstd::prelude::*;

use crate::command::views_of;
use crate::error::AppError;

verus! {

/// A value that went through environment-variable expansion when the
/// profile was read.
#[derive(Debug, PartialEq, Eq)]
pub struct EnvVal<T> {
    value: T,
}

impl<T> EnvVal<T> {
    /// The expanded value.
    pub closed spec fn inner(&self) -> &T {
        &self.value
    }

    /// Wraps an already expanded value.
    pub fn new(value: T) -> (r: EnvVal<T>)
        ensures
            r.inner() == value,
    {
        EnvVal { value }
    }

    /// The expanded value, by reference.
    pub fn as_inner(&self) -> (r: &T)
        ensures
            r == self.inner(),
    {
        &self.value
    }

    /// The expanded value, by move.
    pub fn into_inner(self) -> (r: T)
        ensures
            r == *self.inner(),
    {
        self.value
    }
}

/// The path a transient file of this invocation gets: the invocation's
/// random identifier keeps concurrent sandboxes apart, the context names
/// the file's role.
pub open spec fn temp_file_path(dir: Seq<char>, context: Seq<char>, id: Seq<char>) -> Seq<char> {
    dir + "/"@ + "bwrap_core-"@ + context + "-"@ + id
}

/// The path of a transient file, scoped to one invocation.
#[derive(Debug, PartialEq, Eq, Clone)]
pub struct TempFileVal {
    path: String,
}

impl TempFileVal {
    pub closed spec fn path_view(&self) -> Seq<char> {
        self.path@
    }

    /// Forms the file's path under the runtime directory `dir`, for the
    /// invocation identified by `id`.
    pub fn new(context: &str, dir: &str, id: &str) -> (r: TempFileVal)
        ensures
            r.path_view() == temp_file_path(dir@, context@, id@),
    {
        let mut path = dir.to_owned();
        path.append("/");
        path.append("bwrap_core-");
        path.append(context);
        path.append("-");
        path.append(id);
        TempFileVal { path }
    }

    /// The path, by reference.
    pub fn as_inner(&self) -> (r: &String)
        ensures
            r@ == self.path_view(),
    {
        &self.path
    }

    /// The path, by move.
    pub fn into_inner(self) -> (r: String)
        ensures
            r@ == self.path_view(),
    {
        self.path
    }
}

/// One argument in a profile's inline argument list.
#[derive(Debug, PartialEq, Eq)]
pub enum ArgVal {
    /// A literal string.
    Str { value: String },
    /// A string that went through environment expansion.
    Env { value: EnvVal<String> },
    /// The path of a transient file of this invocation.
    Tempfile { name: TempFileVal },
}

impl ArgVal {
    /// The characters the argument contributes to a command line.
    pub open spec fn str_view(&self) -> Seq<char> {
        match self {
            ArgVal::Str { value } => value@,
            ArgVal::Env { value } => value.inner()@,
            ArgVal::Tempfile { name } => name.path_view(),
        }
    }

    /// The argument as an owned string.
    pub fn to_str(&self) -> (r: String)
        ensures
            r@ == self.str_view(),
    {
        match self {
            ArgVal::Str { value } => value.clone(),
            ArgVal::Env { value } => value.as_inner().clone(),
            ArgVal::Tempfile { name } => name.as_inner().clone(),
        }
    }
}

/// A command template: rendering happens at the profile edge, the rendered
/// text is then split into words here.
#[derive(Debug)]
pub struct Template {
    pub name: EnvVal<String>,
    pub dir: EnvVal<String>,
    pub context: Vec<(String, ArgVal)>,
}

/// An inline section, or the path of a file holding it, as a profile entry.
#[derive(Debug)]
pub enum Entry<T> {
    Inline(T),
    File { path: EnvVal<String> },
}

/// What a word list splits a piece of shell-like text into.
pub uninterp spec fn shell_split(s: Seq<char>) -> Option<Seq<Seq<char>>>;

/// Relies on `shlex::split`: POSIX-like word splitting of a rendered
/// template; the result depends on the characters alone, and is `None` for
/// erroneous input such as an unclosed quote.
#[verifier::external_body]
fn split_shell_words(s: &str) -> (r: Option<Vec<String>>)
    ensures
        r is Some <==> shell_split(s@) is Some,
        r matches Some(v) ==> views_of(v@) == shell_split(s@)->0,
{
    shlex::split(s)
}

/// The rendered text of a command template, if the command has one.
#[derive(Debug)]
pub struct TemplateArgs {
    rendered: Option<String>,
}

impl TemplateArgs {
    pub closed spec fn rendered_view(&self) -> Option<Seq<char>> {
        match self.rendered {
            Some(s) => Some(s@),
            None => None,
        }
    }

    /// Whether the rendered text splits into words.
    pub open spec fn splits(&self) -> bool {
        match self.rendered_view() {
            None => true,
            Some(s) => shell_split(s) is Some,
        }
    }

    /// The words of the rendered text; none when there is no template.
    pub open spec fn words(&self) -> Seq<Seq<char>>
        recommends
            self.splits(),
    {
        match self.rendered_view() {
            None => Seq::empty(),
            Some(s) => shell_split(s)->0,
        }
    }

    /// Wraps rendered template text, or the absence of a template.
    pub fn new(rendered: Option<String>) -> (r: TemplateArgs)
        ensures
            r.rendered_view() == match rendered {
                Some(s) => Some(s@),
                None => None::<Seq<char>>,
            },
    {
        TemplateArgs { rendered }
    }

    /// Splits the rendered text into words. Fails exactly when the text
    /// does not split.
    pub fn to_args(&self) -> (r: Result<Vec<String>, AppError>)
        ensures
            r is Ok <==> self.splits(),
            r matches Ok(v) ==> views_of(v@) == self.words(),
    {
        match &self.rendered {
            None => {
                let empty: Vec<String> = Vec::new();
                proof {
                    assert(views_of(empty@) =~= Seq::<Seq<char>>::empty());
                }
                Ok(empty)
            },
            Some(text) => {
                match split_shell_words(text.as_str()) {
                    Some(words) => Ok(words),
                    None => Err(
                        AppError::Config("template text does not split into words".to_owned()),
                    ),
                }
            },
        }
    }
}

/// The argument views of an inline argument list.
pub open spec fn arg_views(args: Seq<ArgVal>) -> Seq<Seq<char>> {
    Seq::new(args.len(), |i: int| args[i].str_view())
}

/// The command block of a service: an optional executable override, an
/// optional template, an optional inline argument list.
#[derive(Debug)]
pub struct Cmd {
    pub bin: Option<EnvVal<String>>,
    pub template: Option<Template>,
    pub inline: Option<Vec<ArgVal>>,
}

impl Cmd {
    /// The inline arguments' views, in order.
    pub open spec fn inline_views(&self) -> Seq<Seq<char>> {
        match self.inline {
            Some(args) => arg_views(args@),
            None => Seq::empty(),
        }
    }

    /// The configured executable, if the profile overrides the default.
    pub fn bin(&self) -> (r: Option<&String>)
        ensures
            match self.bin {
                Some(b) => r matches Some(s) && s == b.inner(),
                None => r is None,
            },
    {
        match &self.bin {
            Some(b) => Some(b.as_inner()),
            None => None,
        }
    }

    /// The inline arguments as owned strings.
    pub fn iter_inline(&self) -> (r: Vec<String>)
        ensures
            views_of(r@) =~= self.inline_views(),
    {
        let mut out: Vec<String> = Vec::new();
        match &self.inline {
            None => {
                out
            },
            Some(args) => {
                let n = args.len();
                let mut i: usize = 0;
                while i < n
                    invariant
                        i <= n,
                        n == args@.len(),
                        self.inline matches Some(a) && a@ == args@,
                        out@.len() == i,
                        views_of(out@) =~= arg_views(args@).take(i as int),
                    decreases n - i,
                {
                    let ghost prev = out@;
                    out.push(args[i].to_str());
                    proof {
                        assert(out@.len() == i + 1);
                        assert forall|t: int| 0 <= t < i + 1 implies views_of(out@)[t]
                            == arg_views(args@).take(i as int + 1)[t] by {
                            if t < i {
                                assert(out@[t] == prev[t]);
                                assert(views_of(prev)[t] == arg_views(args@).take(i as int)[t]);
                            } else {
                                assert(out@[t] == prev.push(out@[i as int])[i as int]);
                            }
                        }
                        assert(views_of(out@) =~= arg_views(args@).take(i as int + 1));
                    }
                    i = i + 1;
                }
                proof {
                    assert(arg_views(args@).take(n as int) =~= arg_views(args@));
                }
                out
            },
        }
    }

    /// The flat argument vector of the command block: the inline arguments
    /// followed by the words of the rendered template. Fails exactly when
    /// the rendered text does not split into words.
    pub fn collect_args(&self, template: &TemplateArgs) -> (r: Result<Vec<String>, AppError>)
        ensures
            r is Ok <==> template.splits(),
            r matches Ok(v) ==> views_of(v@) =~= self.inline_views() + template.words(),
    {
        let mut items = self.iter_inline();
        let ghost inline_part = views_of(items@);
        match template.to_args() {
            Err(e) => Err(e),
            Ok(words) => {
                let ghost words_view = views_of(words@);
                let n = words.len();
                let mut i: usize = 0;
                while i < n
                    invariant
                        i <= n,
                        n == words@.len(),
                        items@.len() == inline_part.len() + i,
                        views_of(items@) =~= inline_part + views_of(words@).take(i as int),
                    decreases n - i,
                {
                    let ghost prev = items@;
                    items.push(words[i].clone());
                    proof {
                        let rhs = inline_part + views_of(words@).take(i as int + 1);
                        assert forall|t: int| 0 <= t < items@.len() implies views_of(items@)[t]
                            == rhs[t] by {
                            if t < prev.len() {
                                assert(items@[t] == prev[t]);
                                assert(views_of(prev)[t] == (inline_part + views_of(words@).take(
                                    i as int,
                                ))[t]);
                            } else {
                                assert(items@[t] == words@[i as int]);
                            }
                        }
                        assert(views_of(items@) =~= rhs);
                    }
                    i = i + 1;
                }
                proof {
                    assert(views_of(words@).take(n as int) =~= views_of(words@));
                }
                Ok(items)
            },
        }
    }
}

} // verus!
