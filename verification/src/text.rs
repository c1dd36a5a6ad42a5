//! Character-level text primitives used by line classification: trimming
//! surrounding whitespace and stripping leading `!` markers.

use crate::unicode::whitespace_char;
use vstd::prelude::*;
use vstd::string::StrSliceExecFns;

verus! {

/// The sequence with its leading whitespace characters removed.
pub open spec fn trim_start_spec(s: Seq<char>) -> Seq<char>
    decreases s.len(),
{
    if s.len() > 0 && whitespace_char(s[0]) {
        trim_start_spec(s.drop_first())
    } else {
        s
    }
}

/// The sequence with its trailing whitespace characters removed.
pub open spec fn trim_end_spec(s: Seq<char>) -> Seq<char>
    decreases s.len(),
{
    if s.len() > 0 && whitespace_char(s.last()) {
        trim_end_spec(s.drop_last())
    } else {
        s
    }
}

/// The sequence with whitespace removed from both ends.
pub open spec fn trim_spec(s: Seq<char>) -> Seq<char> {
    trim_end_spec(trim_start_spec(s))
}

/// The sequence with its leading `!` characters removed.
pub open spec fn strip_bangs_spec(s: Seq<char>) -> Seq<char>
    decreases s.len(),
{
    if s.len() > 0 && s[0] == '!' {
        strip_bangs_spec(s.drop_first())
    } else {
        s
    }
}

/// If the first `k` characters are whitespace and the `k`-th is not (or the
/// end is reached), trimming the start keeps exactly the suffix from `k`.
proof fn lemma_trim_start_at(s: Seq<char>, k: int)
    requires
        0 <= k <= s.len(),
        forall|j: int| 0 <= j < k ==> whitespace_char(s[j]),
        k == s.len() || !whitespace_char(s[k]),
    ensures
        trim_start_spec(s) == s.subrange(k, s.len() as int),
    decreases k,
{
    if k == 0 {
        assert(s.subrange(0, s.len() as int) =~= s);
    } else {
        let t = s.drop_first();
        lemma_trim_start_at(t, k - 1);
        assert(t.subrange(k - 1, t.len() as int) =~= s.subrange(k, s.len() as int));
    }
}

/// If the characters from `k` on are whitespace and the one before `k` is
/// not (or `k` is zero), trimming the end keeps exactly the prefix up to `k`.
proof fn lemma_trim_end_at(s: Seq<char>, k: int)
    requires
        0 <= k <= s.len(),
        forall|j: int| k <= j < s.len() ==> whitespace_char(s[j]),
        k == 0 || !whitespace_char(s[k - 1]),
    ensures
        trim_end_spec(s) == s.subrange(0, k),
    decreases s.len() - k,
{
    if k == s.len() {
        assert(s.subrange(0, k) =~= s);
    } else {
        let t = s.drop_last();
        lemma_trim_end_at(t, k);
        assert(t.subrange(0, k) =~= s.subrange(0, k));
    }
}

/// If the first `k` characters are `!` and the `k`-th is not (or the end is
/// reached), stripping leading bangs keeps exactly the suffix from `k`.
proof fn lemma_strip_bangs_at(s: Seq<char>, k: int)
    requires
        0 <= k <= s.len(),
        forall|j: int| 0 <= j < k ==> s[j] == '!',
        k == s.len() || s[k] != '!',
    ensures
        strip_bangs_spec(s) == s.subrange(k, s.len() as int),
    decreases k,
{
    if k == 0 {
        assert(s.subrange(0, s.len() as int) =~= s);
    } else {
        let t = s.drop_first();
        lemma_strip_bangs_at(t, k - 1);
        assert(t.subrange(k - 1, t.len() as int) =~= s.subrange(k, s.len() as int));
    }
}

/// Stripping leading bangs a second time changes nothing.
pub proof fn lemma_strip_bangs_idempotent(s: Seq<char>)
    ensures
        strip_bangs_spec(strip_bangs_spec(s)) == strip_bangs_spec(s),
    decreases s.len(),
{
    if s.len() > 0 && s[0] == '!' {
        lemma_strip_bangs_idempotent(s.drop_first());
    }
}

/// Stripping leading bangs yields a suffix of the input, and only `!`
/// characters are dropped.
pub proof fn lemma_strip_bangs_suffix(s: Seq<char>)
    ensures
        exists|k: int|
            0 <= k <= s.len() && strip_bangs_spec(s) == s.subrange(k, s.len() as int) && (forall|
                j: int,
            | 0 <= j < k ==> s[j] == '!'),
    decreases s.len(),
{
    if s.len() > 0 && s[0] == '!' {
        lemma_strip_bangs_suffix(s.drop_first());
        let t = s.drop_first();
        let k0 = choose|k: int|
            0 <= k <= t.len() && strip_bangs_spec(t) == t.subrange(k, t.len() as int) && (forall|
                j: int,
            | 0 <= j < k ==> t[j] == '!');
        assert(t.subrange(k0, t.len() as int) =~= s.subrange(k0 + 1, s.len() as int));
        assert forall|j: int| 0 <= j < k0 + 1 implies s[j] == '!' by {
            if j > 0 {
                assert(t[j - 1] == s[j]);
            }
        }
        assert(0 <= k0 + 1 <= s.len() && strip_bangs_spec(s) == s.subrange(k0 + 1, s.len() as int)
            && (forall|j: int| 0 <= j < k0 + 1 ==> s[j] == '!'));
    } else {
        assert(s.subrange(0, s.len() as int) =~= s);
        assert(0 <= 0 <= s.len() && strip_bangs_spec(s) == s.subrange(0, s.len() as int) && (forall|
            j: int,
        | 0 <= j < 0 ==> s[j] == '!'));
    }
}

/// Removes the whitespace at both ends of a line.
pub fn trim_of(s: &str) -> (r: &str)
    ensures
        r@ == trim_spec(s@),
{
    let n = s.unicode_len();
    let mut start: usize = 0;
    while start < n && s.get_char(start).is_whitespace()
        invariant
            start <= n,
            n == s@.len(),
            forall|j: int| 0 <= j < start ==> whitespace_char(s@[j]),
        decreases n - start,
    {
        start += 1;
    }
    let mut end: usize = n;
    while end > start && s.get_char(end - 1).is_whitespace()
        invariant
            start <= end <= n,
            n == s@.len(),
            forall|j: int| end <= j < n ==> whitespace_char(s@[j]),
        decreases end,
    {
        end -= 1;
    }
    proof {
        lemma_trim_start_at(s@, start as int);
        let t1 = s@.subrange(start as int, s@.len() as int);
        lemma_trim_end_at(t1, end - start);
        assert(t1.subrange(0, end - start) =~= s@.subrange(start as int, end as int));
    }
    s.substring_char(start, end)
}

/// Removes every leading `!` of a line, as the shell-escape rule asks.
pub fn strip_bangs_of(s: &str) -> (r: &str)
    ensures
        r@ == strip_bangs_spec(s@),
{
    let n = s.unicode_len();
    let mut start: usize = 0;
    while start < n && s.get_char(start) == '!'
        invariant
            start <= n,
            n == s@.len(),
            forall|j: int| 0 <= j < start ==> s@[j] == '!',
        decreases n - start,
    {
        start += 1;
    }
    proof {
        lemma_strip_bangs_at(s@, start as int);
    }
    s.substring_char(start, n)
}

} // verus!
