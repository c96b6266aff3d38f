//! Removal of markup tags from descriptions.

use regex::Regex;
use vstd::prelude::*;

verus! {

/// The pattern of one markup tag: `<`, then anything but `>`, then `>`.
pub const TAG_PATTERN: &'static str = "<[^>]*>";

/// The index of the first `>` in `s`, or `s.len()` where it holds none.
pub open spec fn first_close(s: Seq<char>) -> int
    decreases s.len(),
{
    if s.len() == 0 {
        0
    } else if s[0] == '>' {
        0
    } else {
        1 + first_close(s.skip(1))
    }
}

/// `s` without its tags. Reading from the left, a `<` that has a `>`
/// somewhere after it starts a tag, which ends at the first such `>`; the tag
/// is dropped. Every other character is kept, a `<` that is never closed too.
pub open spec fn without_tags(s: Seq<char>) -> Seq<char>
    decreases s.len(),
{
    if s.len() == 0 {
        s
    } else if s[0] == '<' && 0 < first_close(s) < s.len() {
        without_tags(s.skip(first_close(s) + 1))
    } else {
        seq![s[0]] + without_tags(s.skip(1))
    }
}

/// Whether `s` holds a tag: a `<` with a `>` somewhere after it.
pub open spec fn has_tag(s: Seq<char>) -> bool {
    exists|i: int, j: int| 0 <= i < j < s.len() && s[i] == '<' && s[j] == '>'
}

/// `first_close` is the index of a `>` unless it is the length, and no `>`
/// stands before it.
pub proof fn first_close_is_first(s: Seq<char>)
    ensures
        0 <= first_close(s) <= s.len(),
        first_close(s) < s.len() ==> s[first_close(s)] == '>',
        forall|k: int| 0 <= k < first_close(s) ==> s[k] != '>',
    decreases s.len(),
{
    if s.len() > 0 && s[0] != '>' {
        let rest = s.skip(1);
        first_close_is_first(rest);
        assert forall|k: int| 0 <= k < first_close(s) implies s[k] != '>' by {
            if k > 0 {
                assert(rest[k - 1] == s[k]);
            }
        }
    }
}

/// Every character of the result stood in the input.
pub proof fn without_tags_keeps_only_input(s: Seq<char>, c: char)
    ensures
        without_tags(s).contains(c) ==> s.contains(c),
    decreases s.len(),
{
    if s.len() == 0 {
    } else if s[0] == '<' && 0 < first_close(s) < s.len() {
        let rest = s.skip(first_close(s) + 1);
        without_tags_keeps_only_input(rest, c);
        if without_tags(rest).contains(c) {
            let k = choose|k: int| 0 <= k < rest.len() && rest[k] == c;
            assert(s[k + first_close(s) + 1] == c);
        }
    } else {
        let rest = s.skip(1);
        let tail = without_tags(rest);
        without_tags_keeps_only_input(rest, c);
        if without_tags(s).contains(c) {
            let k = choose|k: int| 0 <= k < without_tags(s).len() && without_tags(s)[k] == c;
            if k == 0 {
                assert(s[0] == c);
            } else {
                assert(tail[k - 1] == c);
                let m = choose|m: int| 0 <= m < rest.len() && rest[m] == c;
                assert(s[m + 1] == c);
            }
        }
    }
}

/// Stripping removes every tag: none is left in the result.
pub proof fn without_tags_leaves_no_tag(s: Seq<char>)
    ensures
        !has_tag(without_tags(s)),
    decreases s.len(),
{
    if s.len() == 0 {
    } else if s[0] == '<' && 0 < first_close(s) < s.len() {
        without_tags_leaves_no_tag(s.skip(first_close(s) + 1));
    } else {
        let rest = s.skip(1);
        let tail = without_tags(rest);
        let out = without_tags(s);
        without_tags_leaves_no_tag(rest);
        first_close_is_first(s);
        if has_tag(out) {
            let (i, j) = choose|i: int, j: int|
                0 <= i < j < out.len() && out[i] == '<' && out[j] == '>';
            assert(out[j] == tail[j - 1]);
            if i > 0 {
                assert(out[i] == tail[i - 1]);
                assert(0 <= i - 1 < j - 1 < tail.len() && tail[i - 1] == '<' && tail[j - 1] == '>');
                assert(false);
            } else {
                // The kept `<` has no `>` after it in the input, so none can follow it here.
                assert(tail.contains('>'));
                without_tags_keeps_only_input(rest, '>');
                let m = choose|m: int| 0 <= m < rest.len() && rest[m] == '>';
                assert(s[m + 1] == '>');
                assert(false);
            }
        }
    }
}

/// Stripping changes nothing in a text that holds no tag.
pub proof fn without_tags_keeps_text_without_tag(s: Seq<char>)
    requires
        !has_tag(s),
    ensures
        without_tags(s) == s,
    decreases s.len(),
{
    if s.len() == 0 {
    } else {
        first_close_is_first(s);
        if s[0] == '<' && 0 < first_close(s) < s.len() {
            assert(0 <= 0 < first_close(s) < s.len() && s[0] == '<' && s[first_close(s)] == '>');
            assert(false);
        } else {
            let rest = s.skip(1);
            if has_tag(rest) {
                let (i, j) = choose|i: int, j: int|
                    0 <= i < j < rest.len() && rest[i] == '<' && rest[j] == '>';
                assert(0 <= i + 1 < j + 1 < s.len() && s[i + 1] == '<' && s[j + 1] == '>');
                assert(false);
            }
            without_tags_keeps_text_without_tag(rest);
            assert(seq![s[0]] + rest =~= s);
        }
    }
}

/// Stripping twice is stripping once.
pub proof fn without_tags_is_idempotent(s: Seq<char>)
    ensures
        without_tags(without_tags(s)) == without_tags(s),
{
    without_tags_leaves_no_tag(s);
    without_tags_keeps_text_without_tag(without_tags(s));
}

/// `Regex::new(pattern)` and `Regex::replace_all` of the `regex` crate, for
/// the tag pattern and an empty replacement. The crate replaces the
/// non-overlapping matches that it finds from the left, each starting at the
/// leftmost position where the pattern matches. For this pattern a match
/// starts at a `<` that has a `>` after it and, since `[^>]*` cannot pass a
/// `>`, ends at the first one; the contract says that what is left is
/// `without_tags` of the text. The pattern is valid, so compiling it does not
/// fail.
#[verifier::external_body]
fn replace_tags(pattern: &str, text: &str, replacement: &str) -> (stripped: String)
    requires
        pattern@ == TAG_PATTERN@,
        replacement@.len() == 0,
    ensures
        stripped@ == without_tags(text@),
{
    Regex::new(pattern).unwrap().replace_all(text, replacement).into_owned()
}

/// Removes every markup tag from `text`.
pub fn strip_tags(text: &str) -> (stripped: String)
    ensures
        stripped@ == without_tags(text@),
        !has_tag(stripped@),
        !has_tag(text@) ==> stripped@ == text@,
{
    proof {
        reveal_strlit("");
        without_tags_leaves_no_tag(text@);
        if !has_tag(text@) {
            without_tags_keeps_text_without_tag(text@);
        }
    }
    replace_tags(TAG_PATTERN, text, "")
}

} // verus!
