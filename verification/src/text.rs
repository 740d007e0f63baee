//! Whitespace and trimming over sequences of characters.

use vstd::prelude::*;
use vstd::string::*;

verus! {

/// Whether `c` has the Unicode property `White_Space`.
pub open spec fn is_whitespace(c: char) -> bool {
    let code = c as u32;
    ||| 0x09 <= code <= 0x0D
    ||| code == 0x20
    ||| code == 0x85
    ||| code == 0xA0
    ||| code == 0x1680
    ||| 0x2000 <= code <= 0x200A
    ||| code == 0x2028
    ||| code == 0x2029
    ||| code == 0x202F
    ||| code == 0x205F
    ||| code == 0x3000
}

/// `s` without its leading whitespace.
pub open spec fn trim_start(s: Seq<char>) -> Seq<char>
    decreases s.len(),
{
    if s.len() > 0 && is_whitespace(s[0]) {
        trim_start(s.drop_first())
    } else {
        s
    }
}

/// `s` without its trailing whitespace.
pub open spec fn trim_end(s: Seq<char>) -> Seq<char>
    decreases s.len(),
{
    if s.len() > 0 && is_whitespace(s.last()) {
        trim_end(s.drop_last())
    } else {
        s
    }
}

/// `s` without its leading and trailing whitespace.
pub open spec fn trimmed(s: Seq<char>) -> Seq<char> {
    trim_end(trim_start(s))
}

/// Whether every character of `s` from `from` up to `to` is whitespace.
pub open spec fn all_whitespace(s: Seq<char>, from: int, to: int) -> bool {
    forall|i: int| from <= i < to ==> is_whitespace(#[trigger] s[i])
}

/// Whether `s` neither starts nor ends with whitespace.
pub open spec fn is_trimmed(s: Seq<char>) -> bool {
    s.len() > 0 ==> !is_whitespace(s.first()) && !is_whitespace(s.last())
}

/// `trim_start` drops exactly the whitespace before the first character
/// that is none.
pub proof fn lemma_trim_start_skips(s: Seq<char>, k: int)
    requires
        0 <= k <= s.len(),
        all_whitespace(s, 0, k),
        k < s.len() ==> !is_whitespace(s[k]),
    ensures
        trim_start(s) == s.skip(k),
    decreases k,
{
    if k == 0 {
        assert(s.skip(0) =~= s);
    } else {
        assert(is_whitespace(s[0]));
        let rest = s.drop_first();
        assert forall|i: int| 0 <= i < k - 1 implies is_whitespace(#[trigger] rest[i]) by {
            assert(rest[i] == s[i + 1]);
        }
        lemma_trim_start_skips(rest, k - 1);
        assert(rest.skip(k - 1) =~= s.skip(k));
    }
}

/// `trim_end` drops exactly the whitespace after the last character that
/// is none.
pub proof fn lemma_trim_end_takes(s: Seq<char>, k: int)
    requires
        0 <= k <= s.len(),
        all_whitespace(s, k, s.len() as int),
        k > 0 ==> !is_whitespace(s[k - 1]),
    ensures
        trim_end(s) == s.take(k),
    decreases s.len() - k,
{
    if k == s.len() {
        assert(s.take(k) =~= s);
    } else {
        assert(is_whitespace(s[s.len() - 1]));
        let rest = s.drop_last();
        assert forall|i: int| k <= i < rest.len() implies is_whitespace(#[trigger] rest[i]) by {
            assert(rest[i] == s[i]);
        }
        lemma_trim_end_takes(rest, k);
        assert(rest.take(k) =~= s.take(k));
    }
}

/// Trimming keeps the characters from the first to the last one that is no
/// whitespace, and nothing else.
pub proof fn lemma_trimmed_is_subrange(s: Seq<char>, from: int, to: int)
    requires
        0 <= from <= to <= s.len(),
        all_whitespace(s, 0, from),
        all_whitespace(s, to, s.len() as int),
        from < to ==> !is_whitespace(s[from]) && !is_whitespace(s[to - 1]),
    ensures
        trimmed(s) == s.subrange(from, to),
{
    if from < to {
        lemma_trim_start_skips(s, from);
        let rest = s.skip(from);
        assert forall|i: int| to - from <= i < rest.len() implies is_whitespace(
            #[trigger] rest[i],
        ) by {
            assert(rest[i] == s[i + from]);
        }
        assert(rest[to - from - 1] == s[to - 1]);
        lemma_trim_end_takes(rest, to - from);
        assert(rest.take(to - from) =~= s.subrange(from, to));
    } else {
        assert(all_whitespace(s, 0, s.len() as int)) by {
            assert forall|i: int| 0 <= i < s.len() implies is_whitespace(#[trigger] s[i]) by {
                if i < from {
                } else {
                }
            }
        }
        lemma_trim_start_skips(s, s.len() as int);
        assert(s.skip(s.len() as int) =~= Seq::<char>::empty());
        assert(s.subrange(from, to) =~= Seq::<char>::empty());
    }
}

/// What `trim_start` returns does not start with whitespace, and is the end
/// of its argument.
pub proof fn lemma_trim_start_result(s: Seq<char>)
    ensures
        trim_start(s).len() > 0 ==> !is_whitespace(trim_start(s).first()),
        trim_start(s).len() <= s.len(),
        trim_start(s) == s.skip(s.len() - trim_start(s).len()),
        all_whitespace(s, 0, s.len() - trim_start(s).len()),
    decreases s.len(),
{
    if s.len() > 0 && is_whitespace(s[0]) {
        let rest = s.drop_first();
        lemma_trim_start_result(rest);
        let dropped = rest.len() - trim_start(rest).len();
        assert(rest.skip(dropped) =~= s.skip(dropped + 1));
        assert forall|i: int| 0 <= i < dropped + 1 implies is_whitespace(#[trigger] s[i]) by {
            if i > 0 {
                assert(s[i] == rest[i - 1]);
            }
        }
    } else {
        assert(s.skip(0) =~= s);
    }
}

/// What `trim_end` returns does not end with whitespace, and is the start
/// of its argument.
pub proof fn lemma_trim_end_result(s: Seq<char>)
    ensures
        trim_end(s).len() > 0 ==> !is_whitespace(trim_end(s).last()),
        trim_end(s).len() <= s.len(),
        trim_end(s) == s.take(trim_end(s).len() as int),
        all_whitespace(s, trim_end(s).len() as int, s.len() as int),
    decreases s.len(),
{
    if s.len() > 0 && is_whitespace(s.last()) {
        let rest = s.drop_last();
        lemma_trim_end_result(rest);
        let kept = trim_end(rest).len() as int;
        assert(rest.take(kept) =~= s.take(kept));
        assert forall|i: int| kept <= i < s.len() implies is_whitespace(#[trigger] s[i]) by {
            if i < rest.len() {
                assert(s[i] == rest[i]);
            }
        }
    } else {
        assert(s.take(s.len() as int) =~= s);
    }
}

/// A trimmed text neither starts nor ends with whitespace.
pub proof fn lemma_trimmed_is_trimmed(s: Seq<char>)
    ensures
        is_trimmed(trimmed(s)),
{
    let inner = trim_start(s);
    lemma_trim_start_result(s);
    lemma_trim_end_result(inner);
    if trimmed(s).len() > 0 {
        assert(trimmed(s).first() == inner.first());
    }
}

/// A text neither starts nor ends with whitespace exactly when trimming
/// leaves it as it is.
pub proof fn lemma_is_trimmed_iff_unchanged(s: Seq<char>)
    ensures
        is_trimmed(s) <==> trimmed(s) == s,
{
    if trimmed(s) == s {
        lemma_trimmed_is_trimmed(s);
    }
}

/// Trimming a text twice gives what trimming it once gives.
pub proof fn lemma_trimmed_idempotent(s: Seq<char>)
    ensures
        trimmed(trimmed(s)) == trimmed(s),
{
    lemma_trimmed_is_trimmed(s);
}

/// A trimmed text is a part of the text it was made from, and all that was
/// left out is whitespace.
pub proof fn lemma_trimmed_drops_only_whitespace(s: Seq<char>) -> (bounds: (int, int))
    ensures
        0 <= bounds.0 <= bounds.1 <= s.len(),
        trimmed(s) == s.subrange(bounds.0, bounds.1),
        all_whitespace(s, 0, bounds.0),
        all_whitespace(s, bounds.1, s.len() as int),
{
    let inner = trim_start(s);
    lemma_trim_start_result(s);
    lemma_trim_end_result(inner);
    let from = s.len() - inner.len();
    let to = from + trimmed(s).len();
    assert(inner.take(trimmed(s).len() as int) =~= s.subrange(from, to));
    assert forall|i: int| to <= i < s.len() implies is_whitespace(#[trigger] s[i]) by {
        assert(s[i] == inner[i - from]);
    }
    (from, to)
}

/// Tests a character for the Unicode property `White_Space`.
pub fn char_is_whitespace(c: char) -> (white: bool)
    ensures
        white == is_whitespace(c),
{
    let code: u32 = c as u32;
    (0x09 <= code && code <= 0x0D) || code == 0x20 || code == 0x85 || code == 0xA0
        || code == 0x1680 || (0x2000 <= code && code <= 0x200A) || code == 0x2028
        || code == 0x2029 || code == 0x202F || code == 0x205F || code == 0x3000
}

/// Returns `s` without its leading and trailing whitespace.
pub fn trim(s: &str) -> (text: String)
    ensures
        text@ == trimmed(s@),
{
    let count: usize = s.unicode_len();
    let mut from: usize = 0;
    let mut to: usize = 0;
    let mut at: usize = 0;
    for c in chars: s.chars()
        invariant
            chars.seq() == s@,
            at == chars.index(),
            count == s@.len(),
            from <= to <= at <= count,
            from == to ==> from == 0 && all_whitespace(s@, 0, at as int),
            from < to ==> {
                &&& all_whitespace(s@, 0, from as int)
                &&& !is_whitespace(s@[from as int])
                &&& !is_whitespace(s@[to - 1])
                &&& all_whitespace(s@, to as int, at as int)
            },
    {
        if !char_is_whitespace(c) {
            if from == to {
                from = at;
            }
            to = at + 1;
        }
        at = at + 1;
    }
    proof {
        if from == to {
            lemma_trimmed_is_subrange(s@, count as int, count as int);
            assert(s@.subrange(count as int, count as int) =~= s@.subrange(0, 0));
        } else {
            lemma_trimmed_is_subrange(s@, from as int, to as int);
        }
    }
    String::from_str(s.substring_char(from, to))
}

} // verus!
