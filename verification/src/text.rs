//! Trimming leading and trailing whitespace from character sequences.

use vstd::prelude::*;
use vstd::string::StrSliceExecFns;

verus! {

/// A whitespace character: the Unicode White_Space set — the ASCII blanks
/// (tab through carriage return, space), next line, no-break space, ogham
/// space mark, the en-quad..hair-space range, line and paragraph separators,
/// narrow no-break space, medium mathematical space, and ideographic space.
pub open spec fn is_blank(c: char) -> bool {
    let v = c as int;
    ||| v == 0x09
    ||| v == 0x0A
    ||| v == 0x0B
    ||| v == 0x0C
    ||| v == 0x0D
    ||| v == 0x20
    ||| v == 0x85
    ||| v == 0xA0
    ||| v == 0x1680
    ||| (0x2000 <= v && v <= 0x200A)
    ||| v == 0x2028
    ||| v == 0x2029
    ||| v == 0x202F
    ||| v == 0x205F
    ||| v == 0x3000
}

/// The sequence with every leading and trailing whitespace character removed.
pub open spec fn trim_spec(s: Seq<char>) -> Seq<char>
    decreases s.len(),
{
    if s.len() == 0 {
        s
    } else if is_blank(s[0]) {
        trim_spec(s.drop_first())
    } else if is_blank(s.last()) {
        trim_spec(s.drop_last())
    } else {
        s
    }
}

proof fn lemma_trim_spec_all_blank(s: Seq<char>)
    requires
        forall|k: int| 0 <= k < s.len() ==> is_blank(s[k]),
    ensures
        trim_spec(s) =~= Seq::<char>::empty(),
    decreases s.len(),
{
    if s.len() > 0 {
        let t = s.drop_first();
        assert(forall|k: int| 0 <= k < t.len() ==> is_blank(#[trigger] t[k]));
        lemma_trim_spec_all_blank(t);
    }
}

proof fn lemma_trim_spec_subrange(s: Seq<char>, i: int, j: int)
    requires
        0 <= i <= j <= s.len(),
        forall|k: int| 0 <= k < i ==> is_blank(s[k]),
        forall|k: int| j <= k < s.len() ==> is_blank(s[k]),
        i < j ==> !is_blank(s[i]) && !is_blank(s[j - 1]),
    ensures
        trim_spec(s) =~= s.subrange(i, j),
    decreases s.len(),
{
    if i == j {
        assert(forall|k: int| 0 <= k < s.len() ==> is_blank(s[k]));
        lemma_trim_spec_all_blank(s);
    } else if is_blank(s[0]) {
        assert(i > 0);
        let t = s.drop_first();
        assert(forall|k: int| 0 <= k < i - 1 ==> is_blank(#[trigger] t[k]));
        assert(forall|k: int| j - 1 <= k < t.len() ==> is_blank(#[trigger] t[k]));
        lemma_trim_spec_subrange(t, i - 1, j - 1);
        assert(t.subrange(i - 1, j - 1) =~= s.subrange(i, j));
    } else if is_blank(s.last()) {
        assert(j < s.len());
        let t = s.drop_last();
        assert(forall|k: int| 0 <= k < i ==> is_blank(#[trigger] t[k]));
        assert(forall|k: int| j <= k < t.len() ==> is_blank(#[trigger] t[k]));
        lemma_trim_spec_subrange(t, i, j);
        assert(t.subrange(i, j) =~= s.subrange(i, j));
    } else {
        assert(i == 0);
        assert(j == s.len());
        assert(s.subrange(0, s.len() as int) =~= s);
    }
}

fn is_blank_char(c: char) -> (r: bool)
    ensures
        r == is_blank(c),
{
    let v: u32 = c as u32;
    v == 0x09 || v == 0x0A || v == 0x0B || v == 0x0C || v == 0x0D || v == 0x20 || v == 0x85
        || v == 0xA0 || v == 0x1680 || (0x2000 <= v && v <= 0x200A) || v == 0x2028 || v == 0x2029
        || v == 0x202F || v == 0x205F || v == 0x3000
}

/// Returns the slice of `s` with leading and trailing whitespace removed.
pub fn trim_str<'a>(s: &'a str) -> (r: &'a str)
    ensures
        r@ == trim_spec(s@),
{
    let n: usize = s.unicode_len();
    let mut start: usize = 0;
    while start < n && is_blank_char(s.get_char(start))
        invariant
            n == s@.len(),
            start <= n,
            forall|k: int| 0 <= k < start ==> is_blank(s@[k]),
        decreases n - start,
    {
        start = start + 1;
    }
    let mut end: usize = n;
    while end > start && is_blank_char(s.get_char(end - 1))
        invariant
            n == s@.len(),
            start <= end <= n,
            forall|k: int| end <= k < n ==> is_blank(s@[k]),
            start == n || !is_blank(s@[start as int]),
        decreases end,
    {
        end = end - 1;
    }
    let r = s.substring_char(start, end);
    proof {
        lemma_trim_spec_subrange(s@, start as int, end as int);
    }
    r
}

} // verus!
