//! Whitespace and trimming.

use vstd::prelude::*;

verus! {

/// Whether `c` is a whitespace character: one of the 25 code points that have
/// the Unicode property `White_Space`, among them space, tab and newline.
pub open spec fn is_whitespace(c: char) -> bool {
    let code = c as u32;
    ||| 0x09 <= code <= 0x0D
    ||| code == 0x20
    ||| code == 0x85
    ||| code == 0xA0
    ||| code == 0x1680
    ||| 0x2000 <= code <= 0x200A
    ||| code == 0x2028
    ||| code == 0x2029
    ||| code == 0x202F
    ||| code == 0x205F
    ||| code == 0x3000
}

/// Whether every character of `s` is whitespace.
pub open spec fn all_whitespace(s: Seq<char>) -> bool {
    forall|i: int| 0 <= i < s.len() ==> is_whitespace(#[trigger] s[i])
}

/// `s` without its leading whitespace.
pub open spec fn trim_start(s: Seq<char>) -> Seq<char>
    decreases s.len(),
{
    if s.len() > 0 && is_whitespace(s.first()) {
        trim_start(s.drop_first())
    } else {
        s
    }
}

/// `s` without its trailing whitespace.
pub open spec fn trim_end(s: Seq<char>) -> Seq<char>
    decreases s.len(),
{
    if s.len() > 0 && is_whitespace(s.last()) {
        trim_end(s.drop_last())
    } else {
        s
    }
}

/// `s` without its leading and trailing whitespace.
pub open spec fn trimmed(s: Seq<char>) -> Seq<char> {
    trim_end(trim_start(s))
}

/// Whether `c` is a whitespace character.
pub fn char_is_whitespace(c: char) -> (yes: bool)
    ensures
        yes == is_whitespace(c),
{
    let code = c as u32;
    (0x09 <= code && code <= 0x0D) || code == 0x20 || code == 0x85 || code == 0xA0 || code
        == 0x1680 || (0x2000 <= code && code <= 0x200A) || code == 0x2028 || code == 0x2029
        || code == 0x202F || code == 0x205F || code == 0x3000
}

/// `text` without its leading and trailing whitespace.
pub fn trim(text: &str) -> (out: String)
    ensures
        out@ == trimmed(text@),
{
    let count = text.unicode_len();
    let mut found = false;
    let mut start: usize = 0;
    let mut end: usize = 0;
    let mut index: usize = 0;
    for c in it: text.chars()
        invariant
            count == text@.len(),
            it.seq() == text@,
            index == it.index(),
            all_whitespace(text@.take(start as int)),
            all_whitespace(text@.subrange(end as int, index as int)),
            !found ==> start == index && end == index,
            found ==> start < end <= index,
            found ==> !is_whitespace(text@[start as int]),
            found ==> !is_whitespace(text@[end - 1]),
    {
        if char_is_whitespace(c) {
            if !found {
                start = index + 1;
                end = index + 1;
            }
        } else {
            if !found {
                found = true;
                start = index;
            }
            end = index + 1;
        }
        index = index + 1;
    }
    proof {
        let s = text@;
        lemma_trim_start_skips(s, start as int);
        let tail = s.skip(start as int);
        assert(tail.skip(end - start) =~= s.subrange(end as int, s.len() as int));
        lemma_trim_end_takes(tail, end - start);
    }
    text.substring_char(start, end).to_string()
}

/// Where trimming cuts: the trimmed text is one contiguous piece of `s`, from
/// index `cut.0` up to index `cut.1`. What is cut away, before it and after it,
/// is whitespace only, and if anything is left, it neither begins nor ends with
/// whitespace.
pub proof fn law_trim_cut(s: Seq<char>) -> (cut: (int, int))
    ensures
        0 <= cut.0 <= cut.1 <= s.len(),
        trimmed(s) == s.subrange(cut.0, cut.1),
        all_whitespace(s.take(cut.0)),
        all_whitespace(s.skip(cut.1)),
        cut.0 < cut.1 ==> !is_whitespace(s[cut.0]) && !is_whitespace(s[cut.1 - 1]),
        cut.0 == cut.1 ==> all_whitespace(s),
{
    let from = lemma_trim_start_cut(s);
    let tail = s.skip(from);
    let kept = lemma_trim_end_cut(tail);
    let to = from + kept;
    assert(tail.skip(kept) =~= s.skip(to));
    if from < s.len() {
        if kept == 0 {
            assert(tail.skip(0)[0] == tail[0]);
        }
    } else {
        assert(s.take(from) =~= s);
    }
    (from, to)
}

/// Whitespace around a text does not change what trimming leaves of it.
pub proof fn law_trim_ignores_outer_whitespace(
    lead: Seq<char>,
    s: Seq<char>,
    trail: Seq<char>,
)
    requires
        all_whitespace(lead),
        all_whitespace(trail),
    ensures
        trimmed(lead + s + trail) == trimmed(s),
{
    let whole = lead + s + trail;
    let (from, to) = law_trim_cut(s);
    if from < to {
        let start = lead.len() + from;
        assert forall|i: int| 0 <= i < start implies is_whitespace(
            #[trigger] whole.take(start)[i],
        ) by {
            if i >= lead.len() {
                assert(whole.take(start)[i] == s.take(from)[i - lead.len()]);
            }
        }
        lemma_trim_start_skips(whole, start);
        let tail = whole.skip(start);
        let kept = to - from;
        assert forall|i: int| 0 <= i < tail.len() - kept implies is_whitespace(
            #[trigger] tail.skip(kept)[i],
        ) by {
            if i < s.len() - to {
                assert(tail.skip(kept)[i] == s.skip(to)[i]);
            }
        }
        lemma_trim_end_takes(tail, kept);
    } else {
        assert forall|i: int| 0 <= i < whole.len() implies is_whitespace(
            #[trigger] whole.take(whole.len() as int)[i],
        ) by {}
        lemma_trim_start_skips(whole, whole.len() as int);
    }
}

/// A text of whitespace only trims to the empty text.
pub proof fn law_trim_whitespace_is_empty(s: Seq<char>)
    requires
        all_whitespace(s),
    ensures
        trimmed(s) == Seq::<char>::empty(),
{
    law_trim_cut(s);
}

/// A text that neither begins nor ends with whitespace is left as it is.
pub proof fn law_trim_keeps_trimmed(s: Seq<char>)
    requires
        s.len() > 0 ==> !is_whitespace(s.first()) && !is_whitespace(s.last()),
    ensures
        trimmed(s) == s,
{
}

/// Trimming twice is trimming once.
pub proof fn law_trim_idempotent(s: Seq<char>)
    ensures
        trimmed(trimmed(s)) == trimmed(s),
{
    law_trim_cut(s);
    law_trim_keeps_trimmed(trimmed(s));
}

/// If the first `k` characters of `s` are whitespace and the next one, if
/// there is one, is not, then trimming the start of `s` drops exactly those
/// `k` characters.
proof fn lemma_trim_start_skips(s: Seq<char>, k: int)
    requires
        0 <= k <= s.len(),
        all_whitespace(s.take(k)),
        k < s.len() ==> !is_whitespace(s[k]),
    ensures
        trim_start(s) == s.skip(k),
    decreases k,
{
    if k > 0 {
        assert(s.first() == s.take(k)[0]);
        let rest = s.drop_first();
        assert forall|i: int| 0 <= i < k - 1 implies is_whitespace(
            #[trigger] rest.take(k - 1)[i],
        ) by {
            assert(rest.take(k - 1)[i] == s.take(k)[i + 1]);
        }
        lemma_trim_start_skips(rest, k - 1);
    }
}

/// If the characters of `s` from index `k` on are whitespace and the one
/// before them, if there is one, is not, then trimming the end of `s` keeps
/// exactly the first `k` characters.
proof fn lemma_trim_end_takes(s: Seq<char>, k: int)
    requires
        0 <= k <= s.len(),
        all_whitespace(s.skip(k)),
        k > 0 ==> !is_whitespace(s[k - 1]),
    ensures
        trim_end(s) == s.take(k),
    decreases s.len() - k,
{
    if k < s.len() {
        assert(s.last() == s.skip(k)[s.len() - k - 1]);
        let rest = s.drop_last();
        assert forall|i: int| 0 <= i < rest.len() - k implies is_whitespace(
            #[trigger] rest.skip(k)[i],
        ) by {
            assert(rest.skip(k)[i] == s.skip(k)[i]);
        }
        lemma_trim_end_takes(rest, k);
    }
}

/// The number of whitespace characters at the start of `s`.
proof fn lemma_trim_start_cut(s: Seq<char>) -> (k: int)
    ensures
        0 <= k <= s.len(),
        all_whitespace(s.take(k)),
        k < s.len() ==> !is_whitespace(s[k]),
        trim_start(s) == s.skip(k),
    decreases s.len(),
{
    if s.len() > 0 && is_whitespace(s.first()) {
        let rest = s.drop_first();
        let k = lemma_trim_start_cut(rest);
        assert forall|i: int| 0 <= i < k + 1 implies is_whitespace(
            #[trigger] s.take(k + 1)[i],
        ) by {
            if i > 0 {
                assert(s.take(k + 1)[i] == rest.take(k)[i - 1]);
            }
        }
        k + 1
    } else {
        0
    }
}

/// The number of characters of `s` before the whitespace at its end.
proof fn lemma_trim_end_cut(s: Seq<char>) -> (k: int)
    ensures
        0 <= k <= s.len(),
        all_whitespace(s.skip(k)),
        k > 0 ==> !is_whitespace(s[k - 1]),
        trim_end(s) == s.take(k),
    decreases s.len(),
{
    if s.len() > 0 && is_whitespace(s.last()) {
        let rest = s.drop_last();
        let k = lemma_trim_end_cut(rest);
        assert forall|i: int| 0 <= i < s.len() - k implies is_whitespace(
            #[trigger] s.skip(k)[i],
        ) by {
            if i < rest.len() - k {
                assert(s.skip(k)[i] == rest.skip(k)[i]);
            }
        }
        k
    } else {
        s.len() as int
    }
}

} // verus!
