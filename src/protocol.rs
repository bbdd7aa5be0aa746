//! The worker's line protocol on standard output: a line whose content,
//! after leading white space, starts with `{` carries the final result;
//! every other line is a progress message.

use vstd::prelude::*;

verus! {

/// Whether `c` has the Unicode `White_Space` property, the set that
/// `char::is_whitespace` tests.
pub open spec fn white_space(c: char) -> bool {
    let u = c as u32;
    ||| 0x9 <= u <= 0xD
    ||| u == 0x20
    ||| u == 0x85
    ||| u == 0xA0
    ||| u == 0x1680
    ||| 0x2000 <= u <= 0x200A
    ||| u == 0x2028
    ||| u == 0x2029
    ||| u == 0x202F
    ||| u == 0x205F
    ||| u == 0x3000
}

/// Whether `c` is white space.
pub(crate) fn is_white(c: char) -> (r: bool)
    ensures
        r == white_space(c),
{
    let u = c as u32;
    (0x9 <= u && u <= 0xD) || u == 0x20 || u == 0x85 || u == 0xA0 || u == 0x1680 || (0x2000 <= u
        && u <= 0x200A) || u == 0x2028 || u == 0x2029 || u == 0x202F || u == 0x205F || u == 0x3000
}

/// The line, once leading white space is dropped, begins with `{`.
pub open spec fn terminal_line(s: Seq<char>) -> bool {
    exists|i: int|
        0 <= i < s.len() && s[i] == '{' && (forall|j: int| 0 <= j < i ==> white_space(#[trigger] s[j]))
}

/// The progress messages among `lines`, in their order.
pub open spec fn progress_lines(lines: Seq<Seq<char>>) -> Seq<Seq<char>> {
    lines.filter(|l: Seq<char>| !terminal_line(l))
}

/// The last result line among `lines`, if any.
pub open spec fn last_terminal(lines: Seq<Seq<char>>) -> Option<Seq<char>>
    decreases lines.len(),
{
    if lines.len() == 0 {
        None
    } else if terminal_line(lines.last()) {
        Some(lines.last())
    } else {
        last_terminal(lines.drop_last())
    }
}

/// Decides whether `line` is the worker's result line.
pub fn is_terminal_line(line: &str) -> (r: bool)
    ensures
        r == terminal_line(line@),
{
    let n = line.unicode_len();
    let mut i: usize = 0;
    while i < n
        invariant
            n == line@.len(),
            i <= n,
            forall|j: int| 0 <= j < i ==> white_space(#[trigger] line@[j]) && line@[j] != '{',
        decreases n - i,
    {
        let c = line.get_char(i);
        if c == '{' {
            return true;
        }
        if !is_white(c) {
            assert(!white_space(line@[i as int]));
            return false;
        }
        i = i + 1;
    }
    false
}

} // verus!
