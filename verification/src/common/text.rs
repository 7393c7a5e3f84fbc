//! Whitespace and trimming over sequences of characters.

use vstd::prelude::*;

verus! {

/// Whether `c` carries the Unicode property `White_Space`.
pub open spec fn is_whitespace(c: char) -> bool {
    let n = c as u32;
    ||| 0x09 <= n <= 0x0D
    ||| n == 0x20
    ||| n == 0x85
    ||| n == 0xA0
    ||| n == 0x1680
    ||| 0x2000 <= n <= 0x200A
    ||| n == 0x2028
    ||| n == 0x2029
    ||| n == 0x202F
    ||| n == 0x205F
    ||| n == 0x3000
}

/// Whether `s` holds nothing but whitespace; the empty sequence does.
pub open spec fn is_blank(s: Seq<char>) -> bool {
    forall|i: int| 0 <= i < s.len() ==> is_whitespace(#[trigger] s[i])
}

/// `s` without its leading whitespace.
pub open spec fn trim_start(s: Seq<char>) -> Seq<char>
    decreases s.len(),
{
    if s.len() > 0 && is_whitespace(s[0]) {
        trim_start(s.drop_first())
    } else {
        s
    }
}

/// `s` without its trailing whitespace.
pub open spec fn trim_end(s: Seq<char>) -> Seq<char>
    decreases s.len(),
{
    if s.len() > 0 && is_whitespace(s.last()) {
        trim_end(s.drop_last())
    } else {
        s
    }
}

/// `s` without its leading and trailing whitespace.
pub open spec fn trimmed(s: Seq<char>) -> Seq<char> {
    trim_end(trim_start(s))
}

/// Whether trimming would leave `s` as it is: it neither starts nor ends
/// with whitespace.
pub open spec fn is_trimmed(s: Seq<char>) -> bool {
    s.len() > 0 ==> !is_whitespace(s[0]) && !is_whitespace(s.last())
}

/// `trim_start(s)` is the part of `s` behind its longest whitespace prefix.
pub proof fn lemma_trim_start(s: Seq<char>)
    ensures
        trim_start(s).len() <= s.len(),
        trim_start(s) == s.subrange(s.len() - trim_start(s).len(), s.len() as int),
        is_blank(s.subrange(0, s.len() - trim_start(s).len())),
        trim_start(s).len() > 0 ==> !is_whitespace(trim_start(s)[0]),
    decreases s.len(),
{
    if s.len() > 0 && is_whitespace(s[0]) {
        let rest = s.drop_first();
        lemma_trim_start(rest);
        let kept = trim_start(rest);
        let cut = rest.len() - kept.len();
        assert(kept =~= s.subrange(s.len() - kept.len(), s.len() as int));
        assert forall|i: int| 0 <= i < s.len() - kept.len() implies is_whitespace(
            #[trigger] s.subrange(0, s.len() - kept.len())[i],
        ) by {
            if i > 0 {
                assert(rest.subrange(0, cut)[i - 1] == s[i]);
            }
        }
    } else {
        assert(s =~= s.subrange(0, s.len() as int));
    }
}

/// `trim_end(s)` is the part of `s` before its longest whitespace suffix.
pub proof fn lemma_trim_end(s: Seq<char>)
    ensures
        trim_end(s).len() <= s.len(),
        trim_end(s) == s.subrange(0, trim_end(s).len() as int),
        is_blank(s.subrange(trim_end(s).len() as int, s.len() as int)),
        trim_end(s).len() > 0 ==> !is_whitespace(trim_end(s).last()),
    decreases s.len(),
{
    if s.len() > 0 && is_whitespace(s.last()) {
        let rest = s.drop_last();
        lemma_trim_end(rest);
        let kept = trim_end(rest);
        assert(kept =~= s.subrange(0, kept.len() as int));
        assert forall|i: int| 0 <= i < s.len() - kept.len() implies is_whitespace(
            #[trigger] s.subrange(kept.len() as int, s.len() as int)[i],
        ) by {
            if i < rest.len() - kept.len() {
                assert(rest.subrange(kept.len() as int, rest.len() as int)[i] == s[kept.len() + i]);
            }
        }
    } else {
        assert(s =~= s.subrange(0, s.len() as int));
    }
}

/// Trimming returns a contiguous part of its argument that neither starts
/// nor ends with whitespace, and what it cuts off on either side is blank.
pub proof fn lemma_trimmed(s: Seq<char>)
    ensures
        is_trimmed(trimmed(s)),
        trimmed(s).len() <= s.len(),
        exists|from: int|
            0 <= from <= s.len() - trimmed(s).len() && trimmed(s) == #[trigger] s.subrange(
                from,
                from + trimmed(s).len(),
            ) && is_blank(s.subrange(0, from)) && is_blank(
                s.subrange(from + trimmed(s).len(), s.len() as int),
            ),
{
    let tail = trim_start(s);
    let kept = trimmed(s);
    lemma_trim_start(s);
    lemma_trim_end(tail);
    let from = s.len() - tail.len();
    assert(kept =~= s.subrange(from, from + kept.len()));
    assert(tail.subrange(kept.len() as int, tail.len() as int) =~= s.subrange(
        from + kept.len(),
        s.len() as int,
    ));
    if kept.len() > 0 {
        assert(kept[0] == tail[0]);
    }
}

/// A sequence that neither starts nor ends with whitespace is its own
/// trimming.
pub proof fn lemma_trimmed_fixes_trimmed(s: Seq<char>)
    requires
        is_trimmed(s),
    ensures
        trimmed(s) == s,
{
}

/// Trimming twice is trimming once.
pub proof fn lemma_trimmed_idempotent(s: Seq<char>)
    ensures
        trimmed(trimmed(s)) == trimmed(s),
{
    lemma_trimmed(s);
    lemma_trimmed_fixes_trimmed(trimmed(s));
}

/// Trimming leaves nothing exactly of the blank sequences.
pub proof fn lemma_trimmed_empty_iff_blank(s: Seq<char>)
    ensures
        trimmed(s).len() == 0 <==> is_blank(s),
{
    let tail = trim_start(s);
    let kept = trimmed(s);
    lemma_trim_start(s);
    lemma_trim_end(tail);
    let from = s.len() - tail.len();
    if kept.len() == 0 {
        assert forall|i: int| 0 <= i < s.len() implies is_whitespace(#[trigger] s[i]) by {
            if i < from {
                assert(s.subrange(0, from)[i] == s[i]);
            } else {
                assert(tail.subrange(0, tail.len() as int)[i - from] == s[i]);
            }
        }
    } else {
        assert(kept[0] == tail[0]);
        assert(tail[0] == s[from]);
    }
}

/// Calls `str::trim`, which returns the slice of `s` that is left once
/// leading and trailing whitespace, as Unicode's `White_Space` defines it, is
/// removed.
#[verifier::external_body]
pub(crate) fn trim(s: &str) -> (t: &str)
    ensures
        t@ == trimmed(s@),
{
    s.trim()
}

} // verus!
