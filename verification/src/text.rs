use vstd::prelude::*;
use vstd::string::StrSliceExecFns;

verus! {

/// Whether `char::is_whitespace` holds of `c`: the Unicode white-space
/// property, a fixed function of the character alone.
pub uninterp spec fn char_is_unicode_whitespace(c: char) -> bool;

/// Relies on char::is_whitespace: true exactly for characters with the
/// Unicode white-space property, which includes the ASCII space.
pub assume_specification[ char::is_whitespace ](c: char) -> (r: bool)
    ensures
        r == char_is_unicode_whitespace(c),
        c == ' ' ==> r,
;

/// How many leading whitespace characters `s` starts with.
pub open spec fn ws_prefix_len(s: Seq<char>) -> nat
    decreases s.len(),
{
    if s.len() == 0 || !char_is_unicode_whitespace(s[0]) {
        0
    } else {
        1 + ws_prefix_len(s.drop_first())
    }
}

/// How many trailing whitespace characters `s` ends with.
pub open spec fn ws_suffix_len(s: Seq<char>) -> nat
    decreases s.len(),
{
    if s.len() == 0 || !char_is_unicode_whitespace(s[s.len() - 1]) {
        0
    } else {
        1 + ws_suffix_len(s.drop_last())
    }
}

/// `s` with leading whitespace removed.
pub open spec fn trim_start_spec(s: Seq<char>) -> Seq<char> {
    s.subrange(ws_prefix_len(s) as int, s.len() as int)
}

/// `s` with trailing whitespace removed.
pub open spec fn trim_end_spec(s: Seq<char>) -> Seq<char> {
    s.subrange(0, s.len() - ws_suffix_len(s))
}

/// `s` with leading and trailing whitespace removed.
pub open spec fn trim_spec(s: Seq<char>) -> Seq<char> {
    trim_end_spec(trim_start_spec(s))
}

proof fn lemma_ws_prefix_le_len(s: Seq<char>)
    ensures
        ws_prefix_len(s) <= s.len(),
    decreases s.len(),
{
    if s.len() != 0 && char_is_unicode_whitespace(s[0]) {
        lemma_ws_prefix_le_len(s.drop_first());
    }
}

/// A scan that saw only whitespace before position `i`, and either hit the
/// end or a non-whitespace character at `i`, found the whitespace prefix.
proof fn lemma_ws_prefix_from_scan(s: Seq<char>, i: int)
    requires
        0 <= i <= s.len(),
        forall|k: int| 0 <= k < i ==> char_is_unicode_whitespace(#[trigger] s[k]),
        i < s.len() ==> !char_is_unicode_whitespace(s[i]),
    ensures
        ws_prefix_len(s) == i,
    decreases i,
{
    if i == 0 {
    } else {
        assert(char_is_unicode_whitespace(s[0]));
        let t = s.drop_first();
        assert(forall|k: int| 0 <= k < i - 1 ==> #[trigger] t[k] == s[k + 1]);
        lemma_ws_prefix_from_scan(t, i - 1);
    }
}

/// The mirror of `lemma_ws_prefix_from_scan` for a scan from the end.
proof fn lemma_ws_suffix_from_scan(s: Seq<char>, j: int)
    requires
        0 <= j <= s.len(),
        forall|k: int| j <= k < s.len() ==> char_is_unicode_whitespace(#[trigger] s[k]),
        j > 0 ==> !char_is_unicode_whitespace(s[j - 1]),
    ensures
        ws_suffix_len(s) == s.len() - j,
    decreases s.len() - j,
{
    if j == s.len() {
    } else {
        let t = s.drop_last();
        lemma_ws_suffix_from_scan(t, j);
    }
}

/// The number of leading whitespace characters of `text`, and `text` with
/// leading and trailing whitespace stripped. Stripping happens before
/// shaping because whitespace-only glyph runs are costly and never
/// visible; the caller compensates with a horizontal shift.
pub fn trim_whitespace<'a>(text: &'a str) -> (r: (usize, &'a str))
    ensures
        r.0 == ws_prefix_len(text@),
        r.0 <= text@.len(),
        r.1@ == trim_spec(text@),
{
    broadcast use vstd::string::group_string_axioms;

    let len = text.unicode_len();
    let mut start: usize = 0;
    while start < len && text.get_char(start).is_whitespace()
        invariant
            0 <= start <= len,
            len == text@.len(),
            forall|k: int| 0 <= k < start ==> char_is_unicode_whitespace(#[trigger] text@[k]),
        decreases len - start,
    {
        start = start + 1;
    }
    proof {
        lemma_ws_prefix_from_scan(text@, start as int);
    }
    let mut end: usize = len;
    while end > start && text.get_char(end - 1).is_whitespace()
        invariant
            start <= end <= len,
            len == text@.len(),
            ws_prefix_len(text@) == start,
            forall|k: int| end <= k < len ==> char_is_unicode_whitespace(#[trigger] text@[k]),
        decreases end,
    {
        end = end - 1;
    }
    let trimmed = text.substring_char(start, end);
    proof {
        let fronted = trim_start_spec(text@);
        assert(forall|k: int|
            end - start <= k < fronted.len() ==> char_is_unicode_whitespace(#[trigger] fronted[k]));
        if end > start {
            assert(!char_is_unicode_whitespace(fronted[end - start - 1]));
        }
        lemma_ws_suffix_from_scan(fronted, end - start);
        assert(trimmed@ =~= trim_spec(text@));
        lemma_ws_prefix_le_len(text@);
    }
    (start, trimmed)
}

} // verus!
