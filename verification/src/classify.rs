//! Per-line and per-block classification: the shell-escape marker, the
//! shell-invoked cell directive, and the printout heuristic, together with
//! the generated print line.

use crate::text::{strip_bangs_spec, trim_of, trim_spec};
use crate::unicode::alphabetic_char;
use vstd::prelude::*;
use vstd::string::StrSliceExecFns;
use vstd::string::StringExecFns;

verus! {

/// A line is a printout candidate when, trimmed of surrounding whitespace,
/// it is non-empty and consists of alphabetic characters alone.
pub open spec fn is_printout_spec(line: Seq<char>) -> bool {
    let t = trim_spec(line);
    t.len() > 0 && (forall|i: int| 0 <= i < t.len() ==> alphabetic_char(t[i]))
}

/// A line is shell-escaped when, trimmed of surrounding whitespace, it
/// starts with `!` or `%`.
pub open spec fn is_shell_line_spec(line: Seq<char>) -> bool {
    let t = trim_spec(line);
    t.len() > 0 && (t[0] == '!' || t[0] == '%')
}

/// The first line of a block, or the empty line if the block has none.
pub open spec fn first_line_spec(lines: Seq<Seq<char>>) -> Seq<char> {
    if lines.len() == 0 {
        Seq::empty()
    } else {
        lines[0]
    }
}

/// A code block is a shell-invoked cell when its first line, trimmed of
/// surrounding whitespace, starts with the marker `%%`.
pub open spec fn is_shell_cell_spec(lines: Seq<Seq<char>>) -> bool {
    let t = trim_spec(first_line_spec(lines));
    t.len() >= 2 && t[0] == '%' && t[1] == '%'
}

/// What the shell-escape rule writes for a line: every leading `!` removed,
/// with the removal applied a second time, which by then strips nothing.
pub open spec fn shell_chunk_spec(line: Seq<char>) -> Seq<char> {
    strip_bangs_spec(strip_bangs_spec(line))
}

pub open spec fn printout_prefix() -> Seq<char> {
    seq!['p', 'r', 'i', 'n', 't', '(', '"']
}

pub open spec fn printout_mid() -> Seq<char> {
    seq![' ', '=', ' ', '"', ',', ' ']
}

pub open spec fn printout_end() -> Seq<char> {
    seq![')', '\n']
}

/// The generated print statement for a printout line: the raw line is
/// spliced in twice, surrounding whitespace and all.
pub open spec fn printout_line_spec(line: Seq<char>) -> Seq<char> {
    printout_prefix() + line + printout_mid() + line + printout_end()
}

/// Decides the printout heuristic for one line.
pub fn is_printout(line: &str) -> (r: bool)
    ensures
        r == is_printout_spec(line@),
{
    let t = trim_of(line);
    let n = t.unicode_len();
    if n == 0 {
        return false;
    }
    let mut i: usize = 0;
    while i < n
        invariant
            i <= n,
            n == t@.len(),
            t@ == trim_spec(line@),
            forall|j: int| 0 <= j < i ==> alphabetic_char(t@[j]),
        decreases n - i,
    {
        if !t.get_char(i).is_alphabetic() {
            return false;
        }
        i += 1;
    }
    true
}

/// Decides whether one line carries the shell-escape marker.
pub fn is_shell_code(line: &str) -> (r: bool)
    ensures
        r == is_shell_line_spec(line@),
{
    let t = trim_of(line);
    if t.unicode_len() == 0 {
        return false;
    }
    let c = t.get_char(0);
    c == '!' || c == '%'
}

/// Decides whether a code block is a shell-invoked cell by its first line.
pub fn is_shell_code_cell(block: &Vec<String>) -> (r: bool)
    ensures
        r == is_shell_cell_spec(block.deep_view()),
{
    if block.len() == 0 {
        proof {
            assert(first_line_spec(block.deep_view()) =~= Seq::<char>::empty());
        }
        return false;
    }
    let first: &String = &block[0];
    proof {
        assert(first@ == first_line_spec(block.deep_view()));
    }
    let t = trim_of(first.as_str());
    if t.unicode_len() < 2 {
        return false;
    }
    let c0 = t.get_char(0);
    let c1 = t.get_char(1);
    c0 == '%' && c1 == '%'
}

/// Builds the generated print statement for a printout line.
pub fn printout_line(line: &str) -> (r: String)
    ensures
        r@ == printout_line_spec(line@),
{
    let mut s = String::from_str("print(\"");
    s.append(line);
    s.append(" = \", ");
    s.append(line);
    s.append(")\n");
    proof {
        reveal_strlit("print(\"");
        reveal_strlit(" = \", ");
        reveal_strlit(")\n");
        assert("print(\""@ =~= printout_prefix());
        assert(" = \", "@ =~= printout_mid());
        assert(")\n"@ =~= printout_end());
        assert(s@ =~= printout_line_spec(line@));
    }
    s
}

} // verus!
