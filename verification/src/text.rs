//! Whitespace and its removal from both ends of a text.

use vstd::prelude::*;

verus! {

/// The characters that carry the Unicode property `White_Space`.
pub open spec fn is_whitespace(c: char) -> bool {
    let u = c as u32;
    ||| 0x09 <= u <= 0x0D
    ||| u == 0x20
    ||| u == 0x85
    ||| u == 0xA0
    ||| u == 0x1680
    ||| 0x2000 <= u <= 0x200A
    ||| u == 0x2028
    ||| u == 0x2029
    ||| u == 0x202F
    ||| u == 0x205F
    ||| u == 0x3000
}

/// Every character of `s` is whitespace.
pub open spec fn all_whitespace(s: Seq<char>) -> bool {
    forall|i: int| 0 <= i < s.len() ==> is_whitespace(#[trigger] s[i])
}

/// `s` without its leading whitespace.
pub open spec fn trim_start(s: Seq<char>) -> Seq<char>
    decreases s.len(),
{
    if s.len() > 0 && is_whitespace(s.first()) {
        trim_start(s.drop_first())
    } else {
        s
    }
}

/// `s` without its trailing whitespace.
pub open spec fn trim_end(s: Seq<char>) -> Seq<char>
    decreases s.len(),
{
    if s.len() > 0 && is_whitespace(s.last()) {
        trim_end(s.drop_last())
    } else {
        s
    }
}

/// `s` without its leading and trailing whitespace.
pub open spec fn trimmed(s: Seq<char>) -> Seq<char> {
    trim_end(trim_start(s))
}

/// `s` neither starts nor ends with whitespace.
pub open spec fn is_trimmed(s: Seq<char>) -> bool {
    s.len() > 0 ==> !is_whitespace(s.first()) && !is_whitespace(s.last())
}

/// Tells whether `c` is whitespace.
pub fn char_is_whitespace(c: char) -> (r: bool)
    ensures
        r == is_whitespace(c),
{
    let u: u32 = c as u32;
    (0x09 <= u && u <= 0x0D) || u == 0x20 || u == 0x85 || u == 0xA0 || u == 0x1680 || (0x2000 <= u
        && u <= 0x200A) || u == 0x2028 || u == 0x2029 || u == 0x202F || u == 0x205F || u == 0x3000
}

/// Leading whitespace can be cut off before `trim_start` is applied.
pub proof fn lemma_trim_start_skips(s: Seq<char>, i: int)
    requires
        0 <= i <= s.len(),
        all_whitespace(s.subrange(0, i)),
    ensures
        trim_start(s) == trim_start(s.subrange(i, s.len() as int)),
    decreases i,
{
    if i == 0 {
        assert(s.subrange(0, s.len() as int) =~= s);
    } else {
        assert(s.subrange(0, i)[0] == s[0]);
        let rest = s.drop_first();
        assert forall|k: int| 0 <= k < i - 1 implies is_whitespace(
            #[trigger] rest.subrange(0, i - 1)[k],
        ) by {
            assert(rest.subrange(0, i - 1)[k] == s.subrange(0, i)[k + 1]);
        }
        lemma_trim_start_skips(rest, i - 1);
        assert(rest.subrange(i - 1, rest.len() as int) =~= s.subrange(i, s.len() as int));
    }
}

/// Trailing whitespace can be cut off before `trim_end` is applied.
pub proof fn lemma_trim_end_skips(s: Seq<char>, j: int)
    requires
        0 <= j <= s.len(),
        all_whitespace(s.subrange(j, s.len() as int)),
    ensures
        trim_end(s) == trim_end(s.subrange(0, j)),
    decreases s.len() - j,
{
    if j == s.len() {
        assert(s.subrange(0, j) =~= s);
    } else {
        assert(s.subrange(j, s.len() as int)[s.len() - j - 1] == s.last());
        let rest = s.drop_last();
        assert forall|k: int| 0 <= k < rest.len() - j implies is_whitespace(
            #[trigger] rest.subrange(j, rest.len() as int)[k],
        ) by {
            assert(rest.subrange(j, rest.len() as int)[k] == s.subrange(j, s.len() as int)[k]);
        }
        lemma_trim_end_skips(rest, j);
        assert(rest.subrange(0, j) =~= s.subrange(0, j));
    }
}

/// Where `s[i..j]` is free of whitespace at both ends and only whitespace
/// stands before `i` and from `j` on, `s[i..j]` is `s` trimmed.
pub proof fn lemma_trimmed_is_subrange(s: Seq<char>, i: int, j: int)
    requires
        0 <= i <= j <= s.len(),
        all_whitespace(s.subrange(0, i)),
        all_whitespace(s.subrange(j, s.len() as int)),
        is_trimmed(s.subrange(i, j)),
    ensures
        trimmed(s) == s.subrange(i, j),
{
    let n = s.len() as int;
    let t = s.subrange(i, n);
    let m = s.subrange(i, j);
    lemma_trim_start_skips(s, i);
    if i < j {
        assert(m.first() == t.first());
    } else {
        // everything from i on is whitespace
        if i < n {
            assert(s.subrange(j, n)[0] == t.first());
            assert(t.subrange(0, n - i) =~= s.subrange(j, n));
            lemma_trim_start_skips(t, n - i);
            assert(t.subrange(n - i, t.len() as int) =~= Seq::<char>::empty());
            assert(m =~= Seq::<char>::empty());
        } else {
            assert(t =~= m);
        }
    }
    if i < j {
        assert(trim_start(t) == t);
        assert(t.subrange(j - i, t.len() as int) =~= s.subrange(j, n));
        lemma_trim_end_skips(t, j - i);
        assert(t.subrange(0, j - i) =~= m);
        assert(trim_end(m) == m);
    } else {
        assert(trim_start(t) == m);
        assert(trim_end(m) == m);
    }
}

/// What `trim_start` leaves does not start with whitespace and ends as `s` does.
pub proof fn lemma_trim_start_ends(s: Seq<char>)
    ensures
        trim_start(s).len() <= s.len(),
        trim_start(s).len() > 0 ==> !is_whitespace(trim_start(s).first()) && trim_start(s).last()
            == s.last(),
    decreases s.len(),
{
    if s.len() > 0 && is_whitespace(s.first()) {
        lemma_trim_start_ends(s.drop_first());
    }
}

/// What `trim_end` leaves does not end with whitespace and starts as `s` does.
pub proof fn lemma_trim_end_ends(s: Seq<char>)
    ensures
        trim_end(s).len() <= s.len(),
        trim_end(s).len() > 0 ==> !is_whitespace(trim_end(s).last()) && trim_end(s).first()
            == s.first(),
    decreases s.len(),
{
    if s.len() > 0 && is_whitespace(s.last()) {
        lemma_trim_end_ends(s.drop_last());
    }
}

/// Trimming leaves a text that neither starts nor ends with whitespace.
pub proof fn lemma_trimmed_is_trimmed(s: Seq<char>)
    ensures
        is_trimmed(trimmed(s)),
        trimmed(s).len() <= s.len(),
{
    lemma_trim_start_ends(s);
    lemma_trim_end_ends(trim_start(s));
}

/// Trimming changes nothing in a text that neither starts nor ends with
/// whitespace, and changes every other text.
pub proof fn lemma_trimmed_fixes_trimmed(s: Seq<char>)
    ensures
        is_trimmed(s) <==> trimmed(s) == s,
{
    if is_trimmed(s) {
        assert(trim_start(s) == s);
        assert(trim_end(s) == s);
    } else {
        lemma_trimmed_is_trimmed(s);
    }
}

/// Trimming twice gives what trimming once gives.
pub proof fn lemma_trimmed_idempotent(s: Seq<char>)
    ensures
        trimmed(trimmed(s)) == trimmed(s),
{
    lemma_trimmed_is_trimmed(s);
    lemma_trimmed_fixes_trimmed(trimmed(s));
}

/// A text that neither starts nor ends with whitespace comes back unchanged
/// when whitespace is put before and after it and the whole is trimmed.
pub proof fn lemma_trimmed_strips_padding(before: Seq<char>, x: Seq<char>, after: Seq<char>)
    requires
        all_whitespace(before),
        all_whitespace(after),
        is_trimmed(x),
    ensures
        trimmed(before + x + after) == x,
{
    let s = before + x + after;
    let i = before.len() as int;
    let j = i + x.len();
    assert(s.subrange(0, i) =~= before);
    assert(s.subrange(i, j) =~= x);
    assert(s.subrange(j, s.len() as int) =~= after);
    lemma_trimmed_is_subrange(s, i, j);
}

/// A text that neither starts nor ends with whitespace comes back unchanged
/// from two spaces, the text, two spaces and a line feed.
pub proof fn lemma_trimmed_of_padded_line(x: Seq<char>)
    requires
        is_trimmed(x),
    ensures
        trimmed(seq![' ', ' '] + x + seq![' ', ' ', '\n']) == x,
{
    lemma_trimmed_strips_padding(seq![' ', ' '], x, seq![' ', ' ', '\n']);
}

/// Removes the whitespace at both ends of `raw`.
pub fn normalize(raw: &str) -> (text: String)
    ensures
        text@ == trimmed(raw@),
        is_trimmed(text@),
{
    let n: usize = raw.unicode_len();
    // the characters seen, and the part of them that is kept: from `start` to `end`
    let mut seen: usize = 0;
    let mut start: usize = 0;
    let mut end: usize = 0;
    for c in it: raw.chars()
        invariant
            it.seq() == raw@,
            seen == it.index(),
            n == raw@.len(),
            start <= end <= seen <= n,
            forall|k: int| 0 <= k < start ==> is_whitespace(#[trigger] raw@[k]),
            forall|k: int| end <= k < seen ==> is_whitespace(#[trigger] raw@[k]),
            start < end ==> !is_whitespace(raw@[start as int]) && !is_whitespace(raw@[end - 1]),
            start == end ==> start == 0,
    {
        if !char_is_whitespace(c) {
            if end == 0 {
                start = seen;
            }
            end = seen + 1;
        }
        seen += 1;
    }
    proof {
        assert(seen == n);
        lemma_trimmed_is_subrange(raw@, start as int, end as int);
        lemma_trimmed_is_trimmed(raw@);
    }
    raw.substring_char(start, end).to_owned()
}

} // verus!
