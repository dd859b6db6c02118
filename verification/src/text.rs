//! Small operations on text that the rest of the library is built from.

use vstd::prelude::*;
use vstd::string::*;

verus! {

/// `text` with every occurrence of `pattern` replaced by `value`, the
/// occurrences taken from the left and never overlapping. An empty pattern
/// replaces nothing.
pub open spec fn replaced(text: Seq<char>, pattern: Seq<char>, value: Seq<char>) -> Seq<char>
    decreases text.len(),
{
    if pattern.len() == 0 || text.len() < pattern.len() {
        text
    } else if text.subrange(0, pattern.len() as int) == pattern {
        value + replaced(text.subrange(pattern.len() as int, text.len() as int), pattern, value)
    } else {
        seq![text[0]] + replaced(text.subrange(1, text.len() as int), pattern, value)
    }
}

/// The views of a list of texts.
pub open spec fn text_views(list: Seq<String>) -> Seq<Seq<char>> {
    list.map_values(|item: String| item@)
}

/// The empty text.
pub fn nothing() -> (r: &'static str)
    ensures
        r@ == Seq::<char>::empty(),
{
    proof {
        reveal_strlit("");
    }
    assert(""@ =~= Seq::<char>::empty());
    ""
}

/// Tells whether two pieces of text hold the same characters.
pub fn same_text(a: &str, b: &str) -> (r: bool)
    ensures
        r == (a@ == b@),
{
    let left = a.to_owned();
    let right = b.to_owned();
    left == right
}

/// Joins two pieces of text.
pub fn joined(head: &str, tail: &str) -> (r: String)
    ensures
        r@ == head@ + tail@,
{
    let mut out = head.to_owned();
    out.append(tail);
    out
}

/// Replaces every occurrence of `pattern` in `text` by `value`.
pub fn substitute(text: &str, pattern: &str, value: &str) -> (out: String)
    ensures
        out@ == replaced(text@, pattern@, value@),
{
    let n = text.unicode_len();
    let m = pattern.unicode_len();
    if m == 0 {
        return text.to_owned();
    }
    let mut out = String::new();
    let mut i: usize = 0;
    assert(text@.subrange(0, n as int) == text@);
    while i < n
        invariant
            i <= n,
            n == text@.len(),
            m == pattern@.len(),
            m > 0,
            out@ + replaced(text@.subrange(i as int, n as int), pattern@, value@) == replaced(
                text@,
                pattern@,
                value@,
            ),
        decreases n - i,
    {
        let ghost rest = text@.subrange(i as int, n as int);
        if m <= n - i && same_text(text.substring_char(i, i + m), pattern) {
            proof {
                assert(rest.subrange(0, m as int) == text@.subrange(i as int, i + m));
                assert(rest.subrange(m as int, rest.len() as int) == text@.subrange(
                    i + m,
                    n as int,
                ));
                lemma_unfold_at_occurrence(rest, pattern@, value@);
            }
            out.append(value);
            i = i + m;
        } else {
            let one = text.substring_char(i, i + 1);
            proof {
                if m <= n - i {
                    assert(rest.subrange(0, m as int) == text@.subrange(i as int, i + m));
                }
                assert(one@ == seq![rest[0]]);
                assert(rest.subrange(1, rest.len() as int) == text@.subrange(i + 1, n as int));
                lemma_unfold_elsewhere(rest, pattern@, value@);
            }
            out.append(one);
            i = i + 1;
        }
    }
    assert(text@.subrange(n as int, n as int) == Seq::<char>::empty());
    out
}

/// Where the text begins with the pattern, the value comes first and the
/// rest of the text is gone through behind the occurrence.
proof fn lemma_unfold_at_occurrence(text: Seq<char>, pattern: Seq<char>, value: Seq<char>)
    requires
        0 < pattern.len() <= text.len(),
        text.subrange(0, pattern.len() as int) == pattern,
    ensures
        forall|head: Seq<char>|
            head + replaced(text, pattern, value) == (#[trigger] (head + value)) + replaced(
                text.subrange(pattern.len() as int, text.len() as int),
                pattern,
                value,
            ),
{
    assert forall|head: Seq<char>|
        head + replaced(text, pattern, value) == (#[trigger] (head + value)) + replaced(
            text.subrange(pattern.len() as int, text.len() as int),
            pattern,
            value,
        ) by {
        let tail = replaced(
            text.subrange(pattern.len() as int, text.len() as int),
            pattern,
            value,
        );
        assert(head + (value + tail) == (head + value) + tail);
    }
}

/// Where the text does not begin with the pattern, its first character
/// stays and the rest of the text is gone through behind it.
proof fn lemma_unfold_elsewhere(text: Seq<char>, pattern: Seq<char>, value: Seq<char>)
    requires
        0 < pattern.len(),
        0 < text.len(),
        text.len() < pattern.len() || text.subrange(0, pattern.len() as int) != pattern,
    ensures
        forall|head: Seq<char>|
            head + replaced(text, pattern, value) == (#[trigger] (head + seq![text[0]]))
                + replaced(text.subrange(1, text.len() as int), pattern, value),
{
    let rest = text.subrange(1, text.len() as int);
    if text.len() < pattern.len() {
        assert(replaced(rest, pattern, value) == rest);
        assert(seq![text[0]] + rest == text);
    }
    assert forall|head: Seq<char>|
        head + replaced(text, pattern, value) == (#[trigger] (head + seq![text[0]])) + replaced(
            rest,
            pattern,
            value,
        ) by {
        let tail = replaced(rest, pattern, value);
        assert(head + (seq![text[0]] + tail) == (head + seq![text[0]]) + tail);
    }
}

} // verus!
