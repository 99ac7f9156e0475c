//! Comparing and searching texts.

use vstd::prelude::*;

verus! {

/// `needle` stands in `text` as a run of consecutive characters.
pub open spec fn contains_run(text: Seq<char>, needle: Seq<char>) -> bool {
    exists|at: int|
        0 <= at <= text.len() - needle.len() && #[trigger] text.subrange(at, at + needle.len())
            == needle
}

/// A text is found in another exactly where the other is that text with something, or nothing,
/// before and after it.
pub proof fn law_text_is_found_between_others(text: Seq<char>, needle: Seq<char>)
    ensures
        contains_run(text, needle) <==> exists|before: Seq<char>, after: Seq<char>|
            text == #[trigger] (before + needle + after),
{
    if contains_run(text, needle) {
        let at = choose|at: int|
            0 <= at <= text.len() - needle.len() && #[trigger] text.subrange(
                at,
                at + needle.len(),
            ) == needle;
        let before = text.take(at);
        let after = text.skip(at + needle.len());
        assert forall|i: int| 0 <= i < text.len() implies text[i] == (before + needle + after)[i] by {
            if at <= i < at + needle.len() {
                assert(text.subrange(at, at + needle.len())[i - at] == needle[i - at]);
            }
        }
        assert(text =~= before + needle + after);
    }
    if exists|before: Seq<char>, after: Seq<char>| text == #[trigger] (before + needle + after) {
        let (before, after) = choose|before: Seq<char>, after: Seq<char>|
            text == #[trigger] (before + needle + after);
        let at = before.len() as int;
        assert(text.subrange(at, at + needle.len()) =~= needle);
    }
}

/// Whether two texts hold the same characters.
pub fn same_text(a: &str, b: &str) -> (same: bool)
    ensures
        same == (a@ == b@),
{
    a.to_owned() == b.to_owned()
}

/// Whether `needle` stands in `text`.
pub fn contains_text(text: &str, needle: &str) -> (found: bool)
    ensures
        found == contains_run(text@, needle@),
{
    let n: usize = needle.unicode_len();
    let len: usize = text.unicode_len();
    if len < n {
        return false;
    }
    let last: usize = len - n;
    let mut at: usize = 0;
    loop
        invariant
            n == needle@.len(),
            len == text@.len(),
            last == len - n,
            at <= last,
            forall|i: int|
                0 <= i < at ==> #[trigger] text@.subrange(i, i + needle@.len()) != needle@,
        decreases last - at,
    {
        let run: &str = text.substring_char(at, at + n);
        if same_text(run, needle) {
            assert(text@.subrange(at as int, at + needle@.len()) == needle@);
            return true;
        }
        if at == last {
            return false;
        }
        at = at + 1;
    }
}

} // verus!
