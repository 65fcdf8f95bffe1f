//! The status protocol spoken by `bwrap` over its `--json-status-fd` pipe:
//! newline-delimited JSON objects whose members are string keys and integer
//! values. Two events are recognised, told apart by field presence: the
//! sandbox status (required `child-pid`, optional namespace inodes) emitted
//! once before the payload runs, and the exit status (`exit-code`) emitted
//! when the payload ends. The grammar is stated by spec functions over byte
//! sequences; the executable parser is proved to return exactly what the
//! spec parser returns.
//!
//! The protocol as stated here is deliberately narrow: member values are
//! integers of at most eighteen digits, keys carry no escapes, the first
//! occurrence of a duplicated key counts, a line is at most 65536 bytes.
//! `bwrap` emits two short events and stays well inside these bounds.

use vstd::prelude::*;
use vstd::string::StringSliceAdditionalSpecFns;

use crate::error::AppError;
use crate::fd::sys_read_byte;
use crate::numfmt::fmt_i64;

verus! {

/// JSON insignificant whitespace.
pub open spec fn is_ws(b: u8) -> bool {
    b == 32 || b == 9 || b == 13 || b == 10
}

/// An ASCII decimal digit.
pub open spec fn is_digit(b: u8) -> bool {
    48 <= b <= 57
}

/// The first position at or after `i` holding something other than
/// whitespace, or the end of the input.
pub open spec fn ws_end(s: Seq<u8>, i: int) -> int
    recommends
        0 <= i <= s.len(),
    decreases s.len() - i,
{
    if i < s.len() && is_ws(s[i]) {
        ws_end(s, i + 1)
    } else {
        i
    }
}

proof fn lemma_ws_end_bounds(s: Seq<u8>, i: int)
    requires
        0 <= i <= s.len(),
    ensures
        i <= ws_end(s, i) <= s.len(),
    decreases s.len() - i,
{
    if i < s.len() && is_ws(s[i]) {
        lemma_ws_end_bounds(s, i + 1);
    }
}

/// The end of the digit run starting at `i`.
pub open spec fn digits_end(s: Seq<u8>, i: int) -> int
    recommends
        0 <= i <= s.len(),
    decreases s.len() - i,
{
    if i < s.len() && is_digit(s[i]) {
        digits_end(s, i + 1)
    } else {
        i
    }
}

proof fn lemma_digits_end_bounds(s: Seq<u8>, i: int)
    requires
        0 <= i <= s.len(),
    ensures
        i <= digits_end(s, i) <= s.len(),
    decreases s.len() - i,
{
    if i < s.len() && is_digit(s[i]) {
        lemma_digits_end_bounds(s, i + 1);
    }
}

/// The end of a string body starting at `i`: the first quote or backslash,
/// or the end of the input. Escapes are not part of the protocol; a
/// backslash makes the line unparseable.
pub open spec fn str_end(s: Seq<u8>, i: int) -> int
    recommends
        0 <= i <= s.len(),
    decreases s.len() - i,
{
    if i < s.len() && s[i] != 34 && s[i] != 92 {
        str_end(s, i + 1)
    } else {
        i
    }
}

proof fn lemma_str_end_bounds(s: Seq<u8>, i: int)
    requires
        0 <= i <= s.len(),
    ensures
        i <= str_end(s, i) <= s.len(),
    decreases s.len() - i,
{
    if i < s.len() && s[i] != 34 && s[i] != 92 {
        lemma_str_end_bounds(s, i + 1);
    }
}

/// The value of the digit run `s[i..j)`, most significant digit first.
pub open spec fn num_val(s: Seq<u8>, i: int, j: int) -> int
    recommends
        0 <= i <= j <= s.len(),
    decreases j - i,
{
    if j <= i {
        0
    } else {
        num_val(s, i, j - 1) * 10 + (s[j - 1] - 48)
    }
}

/// Powers of ten, for bounding parsed values.
pub open spec fn pow10(n: nat) -> int
    decreases n,
{
    if n == 0 {
        1
    } else {
        10 * pow10((n - 1) as nat)
    }
}

proof fn lemma_num_val_bound(s: Seq<u8>, i: int, j: int)
    requires
        0 <= i <= j <= s.len(),
        forall|k: int| i <= k < j ==> is_digit(#[trigger] s[k]),
    ensures
        0 <= num_val(s, i, j) < pow10((j - i) as nat),
    decreases j - i,
{
    if j > i {
        lemma_num_val_bound(s, i, j - 1);
    }
}

/// A number at `i`: an optional minus sign then one to eighteen digits.
/// Longer digit runs are outside the protocol and rejected.
pub open spec fn spec_parse_number(s: Seq<u8>, i: int) -> Option<(int, int)>
    recommends
        0 <= i <= s.len(),
{
    let neg = i < s.len() && s[i] == 45;
    let d0 = if neg {
        i + 1
    } else {
        i
    };
    let j = digits_end(s, d0);
    if j == d0 || j - d0 > 18 {
        None
    } else {
        let v = num_val(s, d0, j);
        Some(
            (
                if neg {
                    -v
                } else {
                    v
                },
                j,
            ),
        )
    }
}

/// A quoted key at `i`: the bytes between two quotes, free of quotes and
/// backslashes.
pub open spec fn spec_parse_string(s: Seq<u8>, i: int) -> Option<(Seq<u8>, int)>
    recommends
        0 <= i <= s.len(),
{
    if i < s.len() && s[i] == 34 {
        let j = str_end(s, i + 1);
        if j < s.len() && s[j] == 34 {
            Some((s.subrange(i + 1, j), j + 1))
        } else {
            None
        }
    } else {
        None
    }
}

/// One `"key" : value` member starting at `i`.
pub open spec fn spec_parse_pair(s: Seq<u8>, i: int) -> Option<((Seq<u8>, int), int)>
    recommends
        0 <= i <= s.len(),
{
    match spec_parse_string(s, i) {
        None => None,
        Some((k, a)) => {
            let b = ws_end(s, a);
            if b < s.len() && s[b] == 58 {
                let c = ws_end(s, b + 1);
                match spec_parse_number(s, c) {
                    None => None,
                    Some((v, d)) => Some(((k, v), d)),
                }
            } else {
                None
            }
        },
    }
}

/// The members following a first pair: either the closing brace, or a comma
/// and a further pair, repeated. `gas` bounds the recursion; the input
/// cannot hold more members than bytes.
pub open spec fn spec_parse_more(s: Seq<u8>, i: int, gas: nat) -> Option<
    (Seq<(Seq<u8>, int)>, int),
>
    recommends
        0 <= i <= s.len(),
    decreases gas,
{
    if gas == 0 {
        None
    } else {
        let a = ws_end(s, i);
        if a < s.len() && s[a] == 125 {
            Some((Seq::empty(), a + 1))
        } else if a < s.len() && s[a] == 44 {
            let b = ws_end(s, a + 1);
            match spec_parse_pair(s, b) {
                None => None,
                Some(((k, v), c)) => match spec_parse_more(s, c, (gas - 1) as nat) {
                    None => None,
                    Some((rest, d)) => Some((seq![(k, v)] + rest, d)),
                },
            }
        } else {
            None
        }
    }
}

/// A whole object starting at `i`: `{`, optionally a first pair and further
/// members, `}`.
pub open spec fn spec_parse_object(s: Seq<u8>, i: int, gas: nat) -> Option<
    (Seq<(Seq<u8>, int)>, int),
>
    recommends
        0 <= i <= s.len(),
{
    if i < s.len() && s[i] == 123 {
        let a = ws_end(s, i + 1);
        if a < s.len() && s[a] == 125 {
            Some((Seq::empty(), a + 1))
        } else {
            match spec_parse_pair(s, a) {
                None => None,
                Some(((k, v), b)) => match spec_parse_more(s, b, gas) {
                    None => None,
                    Some((rest, c)) => Some((seq![(k, v)] + rest, c)),
                },
            }
        }
    } else {
        None
    }
}

/// The members of a status line: exactly one object, surrounded by nothing
/// but whitespace.
pub open spec fn line_fields(s: Seq<u8>) -> Option<Seq<(Seq<u8>, int)>> {
    let i = ws_end(s, 0);
    match spec_parse_object(s, i, s.len()) {
        None => None,
        Some((fs, j)) => if 0 <= j <= s.len() && ws_end(s, j) == s.len() {
            Some(fs)
        } else {
            None
        },
    }
}

/// The parsed members as mathematical pairs.
pub open spec fn fields_view(v: Seq<(Vec<u8>, i64)>) -> Seq<(Seq<u8>, int)> {
    Seq::new(v.len(), |i: int| (v[i].0@, v[i].1 as int))
}

/// Byte-for-byte slice equality.
pub fn bytes_eq(a: &[u8], b: &[u8]) -> (r: bool)
    ensures
        r == (a@ == b@),
{
    let n = a.len();
    if n != b.len() {
        proof {
            assert(a@ != b@);
        }
        return false;
    }
    let mut i: usize = 0;
    while i < n
        invariant
            i <= n,
            n == a@.len(),
            n == b@.len(),
            forall|k: int| 0 <= k < i ==> a@[k] == b@[k],
        decreases n - i,
    {
        if a[i] != b[i] {
            proof {
                assert(a@ != b@);
            }
            return false;
        }
        i = i + 1;
    }
    proof {
        assert(a@ =~= b@);
    }
    true
}

/// Advances past whitespace.
fn skip_ws(s: &[u8], i: usize) -> (r: usize)
    requires
        i <= s@.len(),
    ensures
        r == ws_end(s@, i as int),
        i <= r <= s@.len(),
    decreases s@.len() - i,
{
    proof {
        lemma_ws_end_bounds(s@, i as int);
    }
    let mut j = i;
    while j < s.len() && (s[j] == 32 || s[j] == 9 || s[j] == 13 || s[j] == 10)
        invariant
            i <= j <= s@.len(),
            ws_end(s@, i as int) == ws_end(s@, j as int),
        decreases s@.len() - j,
    {
        j = j + 1;
    }
    j
}

/// Advances past the digits of a number.
fn skip_digits(s: &[u8], i: usize) -> (r: usize)
    requires
        i <= s@.len(),
    ensures
        r == digits_end(s@, i as int),
        i <= r <= s@.len(),
{
    proof {
        lemma_digits_end_bounds(s@, i as int);
    }
    let mut j = i;
    while j < s.len() && 48 <= s[j] && s[j] <= 57
        invariant
            i <= j <= s@.len(),
            digits_end(s@, i as int) == digits_end(s@, j as int),
        decreases s@.len() - j,
    {
        j = j + 1;
    }
    j
}

/// Advances past the body of a quoted string.
fn skip_str(s: &[u8], i: usize) -> (r: usize)
    requires
        i <= s@.len(),
    ensures
        r == str_end(s@, i as int),
        i <= r <= s@.len(),
{
    proof {
        lemma_str_end_bounds(s@, i as int);
    }
    let mut j = i;
    while j < s.len() && s[j] != 34 && s[j] != 92
        invariant
            i <= j <= s@.len(),
            str_end(s@, i as int) == str_end(s@, j as int),
        decreases s@.len() - j,
    {
        j = j + 1;
    }
    j
}

/// Parses a number, returning its value and the position after it.
fn parse_number(s: &[u8], i: usize) -> (r: Option<(i64, usize)>)
    requires
        i <= s@.len(),
    ensures
        spec_parse_number(s@, i as int) is None ==> r is None,
        spec_parse_number(s@, i as int) matches Some((v, n)) ==> r matches Some(p) && p.0 as int
            == v && p.1 as int == n && i <= n <= s@.len(),
{
    let neg = i < s.len() && s[i] == 45;
    let d0 = if neg {
        i + 1
    } else {
        i
    };
    let j = skip_digits(s, d0);
    if j == d0 || j - d0 > 18 {
        return None;
    }
    let mut acc: i64 = 0;
    let mut k = d0;
    proof {
        assert(forall|t: int| d0 <= t < j ==> is_digit(#[trigger] s@[t])) by {
            assert forall|t: int| d0 <= t < j implies is_digit(#[trigger] s@[t]) by {
                lemma_digits_run(s@, d0 as int, t);
            }
        }
    }
    while k < j
        invariant
            d0 <= k <= j,
            j <= s@.len(),
            j - d0 <= 18,
            forall|t: int| d0 <= t < j ==> is_digit(#[trigger] s@[t]),
            acc == num_val(s@, d0 as int, k as int),
            0 <= acc < pow10((k - d0) as nat),
        decreases j - k,
    {
        proof {
            lemma_pow10_le_18((k - d0) as nat);
        }
        let d = s[k] - 48;
        acc = acc * 10 + (d as i64);
        k = k + 1;
    }
    let value: i64 = if neg {
        -acc
    } else {
        acc
    };
    Some((value, j))
}

/// Every position inside a digit run holds a digit.
proof fn lemma_digits_run(s: Seq<u8>, i: int, t: int)
    requires
        0 <= i <= s.len(),
        i <= t < digits_end(s, i),
    ensures
        is_digit(s[t]),
    decreases t - i,
{
    lemma_digits_end_bounds(s, i);
    if t > i {
        lemma_digits_run(s, i + 1, t);
    }
}

/// Powers of ten grow with the exponent.
proof fn lemma_pow10_mono(a: nat, b: nat)
    requires
        a <= b,
    ensures
        pow10(a) <= pow10(b),
    decreases b,
{
    if a < b {
        lemma_pow10_mono(a, (b - 1) as nat);
        lemma_pow10_pos((b - 1) as nat);
        assert(pow10(b) == 10 * pow10((b - 1) as nat));
    }
}

/// Concrete bound for the digit cap: eighteen digits stay below `i64::MAX`.
proof fn lemma_pow10_le_18(n: nat)
    requires
        n <= 17,
    ensures
        pow10(n) <= 100000000000000000,
{
    lemma_pow10_mono(n, 17);
    reveal_with_fuel(pow10, 19);
    assert(pow10(17) == 100000000000000000);
}

proof fn lemma_pow10_pos(n: nat)
    ensures
        pow10(n) >= 1,
    decreases n,
{
    if n > 0 {
        lemma_pow10_pos((n - 1) as nat);
    }
}

/// Parses a quoted key, returning its bytes and the position after the
/// closing quote.
fn parse_string(s: &[u8], i: usize) -> (r: Option<(Vec<u8>, usize)>)
    requires
        i <= s@.len(),
    ensures
        spec_parse_string(s@, i as int) is None ==> r is None,
        spec_parse_string(s@, i as int) matches Some((k, n)) ==> r matches Some(p) && p.0@ == k
            && p.1 as int == n && i <= n <= s@.len(),
{
    if i < s.len() && s[i] == 34 {
        let j = skip_str(s, i + 1);
        if j < s.len() && s[j] == 34 {
            let key_slice = vstd::slice::slice_subrange(s, i + 1, j);
            let key = vstd::slice::slice_to_vec(key_slice);
            Some((key, j + 1))
        } else {
            None
        }
    } else {
        None
    }
}

/// Parses one `"key": value` member.
fn parse_pair(s: &[u8], i: usize) -> (r: Option<((Vec<u8>, i64), usize)>)
    requires
        i <= s@.len(),
    ensures
        spec_parse_pair(s@, i as int) is None ==> r is None,
        spec_parse_pair(s@, i as int) matches Some(((k, v), n)) ==> r matches Some(p) && p.0.0@ == k
            && p.0.1 as int == v && p.1 as int == n && i <= n <= s@.len(),
{
    match parse_string(s, i) {
        None => None,
        Some((k, a)) => {
            let b = skip_ws(s, a);
            if b < s.len() && s[b] == 58 {
                let c = skip_ws(s, b + 1);
                match parse_number(s, c) {
                    None => None,
                    Some((v, d)) => Some(((k, v), d)),
                }
            } else {
                None
            }
        },
    }
}

/// Parses the members after the first pair, mirroring `spec_parse_more`.
fn parse_more(s: &[u8], i: usize, gas: usize) -> (r: Option<(Vec<(Vec<u8>, i64)>, usize)>)
    requires
        i <= s@.len(),
    ensures
        spec_parse_more(s@, i as int, gas as nat) is None ==> r is None,
        spec_parse_more(s@, i as int, gas as nat) matches Some((fs, n)) ==> r matches Some(p)
            && fields_view(p.0@) == fs && p.1 as int == n && i <= n <= s@.len(),
    decreases gas,
{
    if gas == 0 {
        return None;
    }
    let a = skip_ws(s, i);
    if a < s.len() && s[a] == 125 {
        let out: Vec<(Vec<u8>, i64)> = Vec::new();
        proof {
            assert(fields_view(out@) =~= Seq::<(Seq<u8>, int)>::empty());
        }
        Some((out, a + 1))
    } else if a < s.len() && s[a] == 44 {
        let b = skip_ws(s, a + 1);
        match parse_pair(s, b) {
            None => None,
            Some(((k, v), c)) => {
                match parse_more(s, c, gas - 1) {
                    None => None,
                    Some((rest, d)) => {
                        let ghost k_view = k@;
                        let ghost rest_view = rest@;
                        let mut out = rest;
                        out.insert(0, (k, v));
                        proof {
                            assert forall|t: int| 0 <= t < out@.len() implies fields_view(out@)[t]
                                == (seq![(k_view, v as int)] + fields_view(rest_view))[t] by {
                                if t > 0 {
                                    assert(out@[t] == rest_view[t - 1]);
                                }
                            }
                            assert(fields_view(out@) =~= seq![(k_view, v as int)] + fields_view(
                                rest_view,
                            ));
                        }
                        Some((out, d))
                    },
                }
            },
        }
    } else {
        None
    }
}

/// Parses a whole object, mirroring `spec_parse_object`.
fn parse_object(s: &[u8], i: usize, gas: usize) -> (r: Option<(Vec<(Vec<u8>, i64)>, usize)>)
    requires
        i <= s@.len(),
    ensures
        spec_parse_object(s@, i as int, gas as nat) is None ==> r is None,
        spec_parse_object(s@, i as int, gas as nat) matches Some((fs, n)) ==> r matches Some(p)
            && fields_view(p.0@) == fs && p.1 as int == n && i <= n <= s@.len(),
{
    if i < s.len() && s[i] == 123 {
        let a = skip_ws(s, i + 1);
        if a < s.len() && s[a] == 125 {
            let out: Vec<(Vec<u8>, i64)> = Vec::new();
            proof {
                assert(fields_view(out@) =~= Seq::<(Seq<u8>, int)>::empty());
            }
            Some((out, a + 1))
        } else {
            match parse_pair(s, a) {
                None => None,
                Some(((k, v), b)) => {
                    match parse_more(s, b, gas) {
                        None => None,
                        Some((rest, c)) => {
                            let ghost k_view = k@;
                            let ghost rest_view = rest@;
                            let mut out = rest;
                            out.insert(0, (k, v));
                            proof {
                                assert forall|t: int| 0 <= t < out@.len() implies fields_view(
                                    out@,
                                )[t] == (seq![(k_view, v as int)] + fields_view(rest_view))[t] by {
                                    if t > 0 {
                                        assert(out@[t] == rest_view[t - 1]);
                                    }
                                }
                                assert(fields_view(out@) =~= seq![(k_view, v as int)]
                                    + fields_view(rest_view));
                            }
                            Some((out, c))
                        },
                    }
                },
            }
        }
    } else {
        None
    }
}

/// Parses one status line into its members. Returns exactly what the
/// specification grammar `line_fields` assigns to the line.
pub fn parse_status_line(s: &[u8]) -> (r: Option<Vec<(Vec<u8>, i64)>>)
    ensures
        line_fields(s@) is None ==> r is None,
        line_fields(s@) matches Some(fs) ==> r matches Some(v) && fields_view(v@) == fs,
{
    let i = skip_ws(s, 0);
    match parse_object(s, i, s.len()) {
        None => None,
        Some((v, j)) => {
            let t = skip_ws(s, j);
            if t == s.len() {
                Some(v)
            } else {
                None
            }
        },
    }
}

/// The first value stored under the given key, if any.
pub open spec fn lookup_field(fs: Seq<(Seq<u8>, int)>, k: Seq<u8>) -> Option<int>
    decreases fs.len(),
{
    if fs.len() == 0 {
        None
    } else if fs[0].0 == k {
        Some(fs[0].1)
    } else {
        lookup_field(fs.drop_first(), k)
    }
}

/// Looks a key up among parsed members.
pub fn lookup(v: &Vec<(Vec<u8>, i64)>, k: &[u8]) -> (r: Option<i64>)
    ensures
        match lookup_field(fields_view(v@), k@) {
            None => r is None,
            Some(x) => r matches Some(y) && y as int == x,
        },
{
    let n = v.len();
    let mut i: usize = 0;
    proof {
        assert(fields_view(v@).skip(0) =~= fields_view(v@));
    }
    while i < n
        invariant
            i <= n,
            n == v@.len(),
            lookup_field(fields_view(v@), k@) == lookup_field(
                fields_view(v@).skip(i as int),
                k@,
            ),
        decreases n - i,
    {
        proof {
            assert(fields_view(v@).skip(i as int)[0] == (v@[i as int].0@, v@[i as int].1 as int));
            assert(fields_view(v@).skip(i as int).drop_first() =~= fields_view(v@).skip(
                i as int + 1,
            ));
        }
        if bytes_eq(v[i].0.as_slice(), k) {
            let value = v[i].1;
            return Some(value);
        }
        i = i + 1;
    }
    proof {
        assert(fields_view(v@).skip(n as int) =~= Seq::<(Seq<u8>, int)>::empty());
    }
    None
}

/// The record `bwrap` emits once its namespaces stand but before the payload
/// is executed: the inner child pid plus optional namespace inode numbers.
#[derive(Debug, Clone, Copy, PartialEq, Eq)]
pub struct SandboxStatus {
    pub child_pid: u32,
    pub cgroup_namespace: Option<u32>,
    pub ipc_namespace: Option<u32>,
    pub mnt_namespace: Option<u32>,
    pub net_namespace: Option<u32>,
    pub pid_namespace: Option<u32>,
    pub uts_namespace: Option<u32>,
}

/// The record `bwrap` emits when the payload exits.
#[derive(Debug, Clone, Copy, PartialEq, Eq)]
pub struct ExitStatus {
    pub exit_code: i32,
}

/// A recognised status event.
#[derive(Debug, Clone, Copy, PartialEq, Eq)]
pub enum Events {
    Status(SandboxStatus),
    Exit(ExitStatus),
}

pub open spec fn key_child_pid() -> Seq<u8> {
    "child-pid".spec_bytes()
}

pub open spec fn key_cgroup_ns() -> Seq<u8> {
    "cgroup-namespace".spec_bytes()
}

pub open spec fn key_ipc_ns() -> Seq<u8> {
    "ipc-namespace".spec_bytes()
}

pub open spec fn key_mnt_ns() -> Seq<u8> {
    "mnt-namespace".spec_bytes()
}

pub open spec fn key_net_ns() -> Seq<u8> {
    "net-namespace".spec_bytes()
}

pub open spec fn key_pid_ns() -> Seq<u8> {
    "pid-namespace".spec_bytes()
}

pub open spec fn key_uts_ns() -> Seq<u8> {
    "uts-namespace".spec_bytes()
}

pub open spec fn key_exit_code() -> Seq<u8> {
    "exit-code".spec_bytes()
}

/// Whether an optional namespace member, if present, carries an unsigned
/// 32-bit inode number.
pub open spec fn ns_field_ok(fs: Seq<(Seq<u8>, int)>, k: Seq<u8>) -> bool {
    match lookup_field(fs, k) {
        None => true,
        Some(v) => 0 <= v <= u32::MAX,
    }
}

/// An optional member narrowed to `u32`.
pub open spec fn ns_field(fs: Seq<(Seq<u8>, int)>, k: Seq<u8>) -> Option<u32>
    recommends
        ns_field_ok(fs, k),
{
    match lookup_field(fs, k) {
        None => None,
        Some(v) => Some(v as u32),
    }
}

/// The sandbox status denoted by the members, when `child-pid` is present
/// and every inode member that is present fits an unsigned 32-bit number.
pub open spec fn status_of_fields(fs: Seq<(Seq<u8>, int)>) -> Option<SandboxStatus> {
    match lookup_field(fs, key_child_pid()) {
        None => None,
        Some(pid) => if 0 <= pid <= u32::MAX && ns_field_ok(fs, key_cgroup_ns()) && ns_field_ok(
            fs,
            key_ipc_ns(),
        ) && ns_field_ok(fs, key_mnt_ns()) && ns_field_ok(fs, key_net_ns()) && ns_field_ok(
            fs,
            key_pid_ns(),
        ) && ns_field_ok(fs, key_uts_ns()) {
            Some(
                SandboxStatus {
                    child_pid: pid as u32,
                    cgroup_namespace: ns_field(fs, key_cgroup_ns()),
                    ipc_namespace: ns_field(fs, key_ipc_ns()),
                    mnt_namespace: ns_field(fs, key_mnt_ns()),
                    net_namespace: ns_field(fs, key_net_ns()),
                    pid_namespace: ns_field(fs, key_pid_ns()),
                    uts_namespace: ns_field(fs, key_uts_ns()),
                },
            )
        } else {
            None
        },
    }
}

/// The exit status denoted by the members, when `exit-code` is present and
/// fits a signed 32-bit number.
pub open spec fn exit_of_fields(fs: Seq<(Seq<u8>, int)>) -> Option<ExitStatus> {
    match lookup_field(fs, key_exit_code()) {
        None => None,
        Some(c) => if i32::MIN <= c <= i32::MAX {
            Some(ExitStatus { exit_code: c as i32 })
        } else {
            None
        },
    }
}

/// Events are an untagged union told apart by field presence: a member set
/// that reads as a sandbox status is one; otherwise one that reads as an
/// exit status is that; anything else is unrecognised.
pub open spec fn classify_fields(fs: Seq<(Seq<u8>, int)>) -> Option<Events> {
    match status_of_fields(fs) {
        Some(s) => Some(Events::Status(s)),
        None => match exit_of_fields(fs) {
            Some(e) => Some(Events::Exit(e)),
            None => None,
        },
    }
}

/// The event denoted by one line of the status pipe, if any.
pub open spec fn event_of_line(s: Seq<u8>) -> Option<Events> {
    match line_fields(s) {
        None => None,
        Some(fs) => classify_fields(fs),
    }
}

/// Narrows an optional member to `u32`, reporting whether it was present
/// but out of range.
fn lookup_ns(v: &Vec<(Vec<u8>, i64)>, k: &[u8]) -> (r: Result<Option<u32>, ()>)
    ensures
        r matches Ok(o) ==> ns_field_ok(fields_view(v@), k@) && o == ns_field(
            fields_view(v@),
            k@,
        ),
        r is Err ==> !ns_field_ok(fields_view(v@), k@),
{
    match lookup(v, k) {
        None => Ok(None),
        Some(x) => {
            if 0 <= x && x <= u32::MAX as i64 {
                Ok(Some(x as u32))
            } else {
                Err(())
            }
        },
    }
}

/// Classifies parsed members into a recognised event.
pub fn classify(v: &Vec<(Vec<u8>, i64)>) -> (r: Option<Events>)
    ensures
        r == classify_fields(fields_view(v@)),
{
    let status = classify_status(v);
    match status {
        Some(s) => Some(Events::Status(s)),
        None => {
            match lookup(v, "exit-code".as_bytes()) {
                Some(c) => {
                    if i32::MIN as i64 <= c && c <= i32::MAX as i64 {
                        Some(Events::Exit(ExitStatus { exit_code: c as i32 }))
                    } else {
                        None
                    }
                },
                None => None,
            }
        },
    }
}

/// Reads the members as a sandbox status, if they form one.
fn classify_status(v: &Vec<(Vec<u8>, i64)>) -> (r: Option<SandboxStatus>)
    ensures
        r == status_of_fields(fields_view(v@)),
{
    let pid = match lookup(v, "child-pid".as_bytes()) {
        Some(p) => p,
        None => {
            return None;
        },
    };
    if !(0 <= pid && pid <= u32::MAX as i64) {
        return None;
    }
    let cgroup = match lookup_ns(v, "cgroup-namespace".as_bytes()) {
        Ok(o) => o,
        Err(()) => {
            return None;
        },
    };
    let ipc = match lookup_ns(v, "ipc-namespace".as_bytes()) {
        Ok(o) => o,
        Err(()) => {
            return None;
        },
    };
    let mnt = match lookup_ns(v, "mnt-namespace".as_bytes()) {
        Ok(o) => o,
        Err(()) => {
            return None;
        },
    };
    let net = match lookup_ns(v, "net-namespace".as_bytes()) {
        Ok(o) => o,
        Err(()) => {
            return None;
        },
    };
    let pid_ns = match lookup_ns(v, "pid-namespace".as_bytes()) {
        Ok(o) => o,
        Err(()) => {
            return None;
        },
    };
    let uts = match lookup_ns(v, "uts-namespace".as_bytes()) {
        Ok(o) => o,
        Err(()) => {
            return None;
        },
    };
    Some(
        SandboxStatus {
            child_pid: pid as u32,
            cgroup_namespace: cgroup,
            ipc_namespace: ipc,
            mnt_namespace: mnt,
            net_namespace: net,
            pid_namespace: pid_ns,
            uts_namespace: uts,
        },
    )
}

/// Parses one line of the status pipe into an event. Returns exactly the
/// event the protocol specification assigns to the line.
pub fn parse_event(line: &[u8]) -> (r: Option<Events>)
    ensures
        r == event_of_line(line@),
{
    match parse_status_line(line) {
        None => None,
        Some(fields) => classify(&fields),
    }
}

/// Reads newline-delimited status events from the parent-side end of the
/// status pipe.
#[derive(Debug)]
pub struct EventsReader {
    rx: rustix::fd::OwnedFd,
}

impl EventsReader {
    /// Wraps the parent-side read end of the status pipe.
    pub fn new(rx: rustix::fd::OwnedFd) -> EventsReader {
        EventsReader { rx }
    }

    /// Reads one line, ending at a newline or at end-of-file. `Ok(None)`
    /// is end-of-file with nothing read. A line longer than 65536 bytes is
    /// outside the protocol and an error.
    fn read_line(&mut self) -> (r: Result<Option<Vec<u8>>, AppError>)
        ensures
            r matches Ok(Some(l)) ==> l@.len() > 0,
            r matches Err(e) ==> (e matches AppError::Io(_, _) || e matches AppError::BwrapEvent(
                _,
            )),
    {
        let mut buf: Vec<u8> = Vec::new();
        while buf.len() < 65536
            decreases 65536 - buf.len(),
        {
            match sys_read_byte(&self.rx) {
                Err(errno) => {
                    return Err(AppError::Io("bwrap status".to_owned(), fmt_i64(errno as i64)));
                },
                Ok(None) => {
                    if buf.len() == 0 {
                        return Ok(None);
                    }
                    return Ok(Some(buf));
                },
                Ok(Some(b)) => {
                    buf.push(b);
                    if b == 10 {
                        return Ok(Some(buf));
                    }
                },
            }
        }
        Err(AppError::BwrapEvent("status line too long".to_owned()))
    }

    /// Reads the next event. `Ok(None)` is end-of-file: `bwrap` went away
    /// without a further event. A line that is not a recognised event is an
    /// error. Every event returned is the reading of some status line under
    /// the protocol grammar, and every failure is an I/O error or a
    /// status-protocol error.
    pub fn try_next(&mut self) -> (r: Result<Option<Events>, AppError>)
        ensures
            r matches Ok(Some(e)) ==> exists|l: Seq<u8>| event_of_line(l) == Some(e),
            r matches Err(e) ==> (e matches AppError::Io(_, _) || e matches AppError::BwrapEvent(
                _,
            )),
    {
        match self.read_line() {
            Err(e) => Err(e),
            Ok(None) => Ok(None),
            Ok(Some(line)) => {
                match parse_event(line.as_slice()) {
                    Some(ev) => {
                        proof {
                            assert(event_of_line(line@) == Some(ev));
                        }
                        Ok(Some(ev))
                    },
                    None => Err(AppError::BwrapEvent("unrecognised status line".to_owned())),
                }
            },
        }
    }
}

} // verus!

