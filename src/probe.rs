//! Reading the answer of the dependency probe: the probe prints `OK` and
//! exits with success, or prints `MISSING:` followed by the missing packages,
//! separated by commas, and fails.

use vstd::prelude::*;
use crate::job::texts;
use crate::protocol::{is_white, white_space};

verus! {

broadcast use vstd::seq_lib::group_seq_properties;

/// The word that opens the list of missing packages.
pub open spec fn marker() -> Seq<char> {
    "MISSING:"@
}

/// The entry reported when the probe failed without naming what is missing.
pub open spec fn unknown_failure() -> Seq<char> {
    "Error desconocido al verificar dependencias"@
}

pub open spec fn has_prefix(s: Seq<char>, p: Seq<char>) -> bool {
    p.len() <= s.len() && s.take(p.len() as int) == p
}

/// `s` without every leading copy of the marker.
pub open spec fn strip_markers(s: Seq<char>) -> Seq<char>
    decreases s.len(),
{
    if has_prefix(s, marker()) && marker().len() > 0 {
        strip_markers(s.skip(marker().len() as int))
    } else {
        s
    }
}

/// `s` without leading white space.
pub open spec fn trim_start(s: Seq<char>) -> Seq<char>
    decreases s.len(),
{
    if s.len() > 0 && white_space(s[0]) {
        trim_start(s.skip(1))
    } else {
        s
    }
}

/// `s` without trailing white space.
pub open spec fn trim_end(s: Seq<char>) -> Seq<char>
    decreases s.len(),
{
    if s.len() > 0 && white_space(s.last()) {
        trim_end(s.drop_last())
    } else {
        s
    }
}

/// `s` without leading or trailing white space.
pub open spec fn trimmed(s: Seq<char>) -> Seq<char> {
    trim_end(trim_start(s))
}

/// The pieces of `s` between the occurrences of `sep`: one more than there are occurrences.
pub open spec fn fields(s: Seq<char>, sep: char) -> Seq<Seq<char>>
    decreases s.len(),
{
    if s.len() == 0 {
        seq![Seq::empty()]
    } else {
        let f = fields(s.drop_last(), sep);
        if s.last() == sep {
            f.push(Seq::empty())
        } else {
            f.update(f.len() - 1, f.last().push(s.last()))
        }
    }
}

/// The packages that the probe's standard output `out` names as missing.
pub open spec fn missing_of(out: Seq<char>) -> Seq<Seq<char>> {
    if has_prefix(out, marker()) {
        fields(strip_markers(out), ',').map_values(|f: Seq<char>| trimmed(f))
    } else {
        seq![unknown_failure()]
    }
}

/// Drops leading and trailing white space.
pub fn trim_text(s: &str) -> (r: String)
    ensures
        r@ == trimmed(s@),
{
    let n = s.unicode_len();
    let mut a: usize = 0;
    while a < n && is_white(s.get_char(a))
        invariant
            n == s@.len(),
            a <= n,
            trim_start(s@) == trim_start(s@.skip(a as int)),
        decreases n - a,
    {
        assert(s@.skip(a as int).skip(1) == s@.skip(a + 1));
        a = a + 1;
    }
    let ghost rest = s@.skip(a as int);
    let mut b: usize = n;
    while b > a && is_white(s.get_char(b - 1))
        invariant
            n == s@.len(),
            a <= b <= n,
            trim_start(s@) == rest,
            rest == s@.skip(a as int),
            trimmed(s@) == trim_end(s@.subrange(a as int, b as int)),
        decreases b - a,
    {
        assert(s@.subrange(a as int, b as int).drop_last() == s@.subrange(a as int, b - 1));
        b = b - 1;
    }
    String::from_str(s.substring_char(a, b))
}

/// Whether the marker stands in `s` at character index `i`.
fn marker_at(s: &str, i: usize) -> (r: bool)
    requires
        i <= s@.len(),
    ensures
        r == has_prefix(s@.skip(i as int), marker()),
{
    let m = "MISSING:";
    proof {
        reveal_strlit("MISSING:");
    }
    let k = m.unicode_len();
    let n = s.unicode_len();
    if n - i < k {
        return false;
    }
    let mut j: usize = 0;
    while j < k
        invariant
            k == m@.len(),
            m@ == marker(),
            n == s@.len(),
            i + k <= n,
            j <= k,
            forall|t: int| 0 <= t < j ==> s@[i + t] == m@[t],
        decreases k - j,
    {
        if s.get_char(i + j) != m.get_char(j) {
            assert(s@.skip(i as int).take(k as int)[j as int] != m@[j as int]);
            return false;
        }
        j = j + 1;
    }
    assert(s@.skip(i as int).take(k as int) == m@);
    true
}

/// The packages that the probe's standard output `out` names as missing, or
/// a single entry saying that the failure is unexplained.
pub fn missing_dependencies(out: &str) -> (r: Vec<String>)
    ensures
        texts(r@) == missing_of(out@),
{
    proof {
        reveal_strlit("MISSING:");
    }
    let n = out.unicode_len();
    if !marker_at(out, 0) {
        assert(out@.skip(0) == out@);
        let mut r: Vec<String> = Vec::new();
        r.push(String::from_str("Error desconocido al verificar dependencias"));
        assert(texts(r@) == seq![unknown_failure()]);
        return r;
    }
    assert(out@.skip(0) == out@);
    let mut start: usize = 0;
    while marker_at(out, start)
        invariant
            n == out@.len(),
            start <= n,
            marker().len() == 8,
            strip_markers(out@) == strip_markers(out@.skip(start as int)),
        decreases n - start,
    {
        assert(out@.skip(start as int).skip(8) == out@.skip(start + 8));
        start = start + 8;
    }
    let ghost body = out@.skip(start as int);
    let ghost mut done: Seq<Seq<char>> = Seq::empty();
    let mut r: Vec<String> = Vec::new();
    let mut from: usize = start;
    let mut i: usize = start;
    assert(body.take(0) == Seq::<char>::empty());
    assert(out@.subrange(start as int, start as int) == Seq::<char>::empty());
    assert(done.push(Seq::<char>::empty()) == seq![Seq::<char>::empty()]);
    while i < n
        invariant
            n == out@.len(),
            start <= from <= i <= n,
            body == out@.skip(start as int),
            strip_markers(out@) == body,
            fields(body.take(i - start), ',') == done.push(out@.subrange(from as int, i as int)),
            r@.len() == done.len(),
            forall|t: int| 0 <= t < r@.len() ==> #[trigger] r@[t]@ == trimmed(done[t]),
        decreases n - i,
    {
        let ghost cur = out@.subrange(from as int, i as int);
        proof {
            lemma_fields_push(body.take(i - start), out@[i as int], ',');
            assert(body.take(i + 1 - start) == body.take(i - start).push(out@[i as int]));
        }
        if out.get_char(i) == ',' {
            let piece = trim_text(out.substring_char(from, i));
            r.push(piece);
            proof {
                done = done.push(cur);
                assert(out@.subrange(i + 1, i + 1) == Seq::<char>::empty());
            }
            from = i + 1;
        } else {
            assert(out@.subrange(from as int, i + 1) == cur.push(out@[i as int]));
            assert(done.push(cur).update(done.len() as int, cur.push(out@[i as int])) == done.push(
                cur.push(out@[i as int]),
            ));
        }
        i = i + 1;
    }
    assert(body.take(n - start) == body);
    let last = trim_text(out.substring_char(from, n));
    r.push(last);
    assert(texts(r@) =~= fields(body, ',').map_values(|f: Seq<char>| trimmed(f)));
    r
}

proof fn lemma_fields_push(s: Seq<char>, c: char, sep: char)
    ensures
        fields(s.push(c), sep) == if c == sep {
            fields(s, sep).push(Seq::empty())
        } else {
            fields(s, sep).update(fields(s, sep).len() - 1, fields(s, sep).last().push(c))
        },
{
    assert(s.push(c).drop_last() == s);
}

/// What the probe found.
#[derive(Debug, Clone, PartialEq, Eq)]
pub struct DependencyStatus {
    pub python_version: String,
    pub dependencies_ok: bool,
    pub missing_dependencies: Vec<String>,
}

/// The probe's findings from the runtime's version output, whether the probe
/// succeeded, and the probe's standard output.
pub fn dependency_status(version_output: &str, probe_succeeded: bool, probe_output: &str) -> (r: DependencyStatus)
    ensures
        r.python_version@ == trimmed(version_output@),
        r.dependencies_ok == probe_succeeded,
        probe_succeeded ==> r.missing_dependencies@.len() == 0,
        !probe_succeeded ==> texts(r.missing_dependencies@) == missing_of(probe_output@),
{
    let python_version = trim_text(version_output);
    if probe_succeeded {
        DependencyStatus { python_version, dependencies_ok: true, missing_dependencies: Vec::new() }
    } else {
        DependencyStatus {
            python_version,
            dependencies_ok: false,
            missing_dependencies: missing_dependencies(probe_output),
        }
    }
}

} // verus!
