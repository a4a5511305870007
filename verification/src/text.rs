//! Whitespace in typed text: when a text is blank, and what is left of it once
//! the whitespace at both ends is taken away.

use vstd::prelude::*;
use vstd::string::StrSliceExecFns;

verus! {

/// What `char::is_whitespace` answers for a character: whether it carries the
/// Unicode `White_Space` property.
pub uninterp spec fn char_is_whitespace(c: char) -> bool;

/// Calls `char::is_whitespace`. The answer is known by the name above and by
/// nothing else: no character is claimed to be whitespace, or not to be.
#[verifier::external_body]
fn is_whitespace(c: char) -> (b: bool)
    ensures
        b == char_is_whitespace(c),
{
    c.is_whitespace()
}

/// A text is blank when every character in it is whitespace. The empty text is blank.
pub open spec fn blank(s: Seq<char>) -> bool {
    forall|i: int| 0 <= i < s.len() ==> char_is_whitespace(#[trigger] s[i])
}

/// How many whitespace characters stand at the front of `s`.
pub open spec fn leading_blank(s: Seq<char>) -> nat
    decreases s.len(),
{
    if s.len() > 0 && char_is_whitespace(s.first()) {
        1 + leading_blank(s.drop_first())
    } else {
        0
    }
}

/// How many whitespace characters stand at the back of `s`.
pub open spec fn trailing_blank(s: Seq<char>) -> nat
    decreases s.len(),
{
    if s.len() > 0 && char_is_whitespace(s.last()) {
        1 + trailing_blank(s.drop_last())
    } else {
        0
    }
}

/// `s` without the whitespace at its two ends. A blank text trims to the empty text.
pub open spec fn trimmed(s: Seq<char>) -> Seq<char> {
    if blank(s) {
        Seq::empty()
    } else {
        s.subrange(leading_blank(s) as int, s.len() - trailing_blank(s))
    }
}

/// `leading_blank(s)` is the position of the first character that is not
/// whitespace, or the length of `s` where there is none.
pub proof fn lemma_leading_blank(s: Seq<char>, a: int)
    requires
        0 <= a <= s.len(),
        forall|j: int| 0 <= j < a ==> char_is_whitespace(#[trigger] s[j]),
        a < s.len() ==> !char_is_whitespace(s[a]),
    ensures
        leading_blank(s) == a,
    decreases a,
{
    if a > 0 {
        let rest = s.drop_first();
        assert forall|j: int| 0 <= j < a - 1 implies char_is_whitespace(#[trigger] rest[j]) by {
            assert(rest[j] == s[j + 1]);
        }
        lemma_leading_blank(rest, a - 1);
    }
}

/// `s.len() - trailing_blank(s)` is the position just behind the last character
/// that is not whitespace, or zero where there is none.
pub proof fn lemma_trailing_blank(s: Seq<char>, b: int)
    requires
        0 <= b <= s.len(),
        forall|j: int| b <= j < s.len() ==> char_is_whitespace(#[trigger] s[j]),
        0 < b ==> !char_is_whitespace(s[b - 1]),
    ensures
        trailing_blank(s) == s.len() - b,
    decreases s.len() - b,
{
    if b < s.len() {
        let rest = s.drop_last();
        assert forall|j: int| b <= j < rest.len() implies char_is_whitespace(#[trigger] rest[j]) by {
            assert(rest[j] == s[j]);
        }
        lemma_trailing_blank(rest, b);
    }
}

/// Of a text that is not blank, what is cut off at either end is whitespace,
/// and what is left is a part of the text that neither starts nor ends with
/// whitespace: so it is not blank itself.
pub proof fn lemma_trimmed_is_tight(s: Seq<char>)
    requires
        !blank(s),
    ensures
        leading_blank(s) + trimmed(s).len() + trailing_blank(s) == s.len(),
        blank(s.take(leading_blank(s) as int)),
        blank(s.skip(s.len() - trailing_blank(s))),
        trimmed(s).len() > 0,
        !char_is_whitespace(trimmed(s).first()),
        !char_is_whitespace(trimmed(s).last()),
        !blank(trimmed(s)),
{
    lemma_leading_blank_bounds(s);
    lemma_trailing_blank_bounds(s);
    let k = choose|k: int| 0 <= k < s.len() && !char_is_whitespace(s[k]);
    let a = leading_blank(s) as int;
    let b = s.len() - trailing_blank(s);
    assert(a <= k) by {
        if k < a {
            assert(s.take(a)[k] == s[k]);
        }
    }
    assert(k < b) by {
        if b <= k {
            assert(s.skip(b)[k - b] == s[k]);
        }
    }
    assert(trimmed(s)[0] == s[a]);
}

/// A blank text trims to nothing, and only a blank text does.
pub proof fn lemma_trimmed_of_blank(s: Seq<char>)
    ensures
        trimmed(s).len() == 0 <==> blank(s),
{
    if !blank(s) {
        lemma_trimmed_is_tight(s);
    }
}

/// The whitespace counted at the front is whitespace, and the character behind it is not.
proof fn lemma_leading_blank_bounds(s: Seq<char>)
    ensures
        leading_blank(s) <= s.len(),
        blank(s.take(leading_blank(s) as int)),
        leading_blank(s) < s.len() ==> !char_is_whitespace(s[leading_blank(s) as int]),
    decreases s.len(),
{
    if s.len() > 0 && char_is_whitespace(s.first()) {
        let rest = s.drop_first();
        lemma_leading_blank_bounds(rest);
        let a = leading_blank(s) as int;
        assert forall|j: int| 0 <= j < a implies char_is_whitespace(#[trigger] s.take(a)[j]) by {
            if j > 0 {
                assert(rest.take(a - 1)[j - 1] == s.take(a)[j]);
            }
        }
        if a < s.len() {
            assert(s[a] == rest[a - 1]);
        }
    }
}

/// The whitespace counted at the back is whitespace, and the character before it is not.
proof fn lemma_trailing_blank_bounds(s: Seq<char>)
    ensures
        trailing_blank(s) <= s.len(),
        blank(s.skip(s.len() - trailing_blank(s))),
        trailing_blank(s) < s.len() ==> !char_is_whitespace(s[s.len() - trailing_blank(s) - 1]),
    decreases s.len(),
{
    if s.len() > 0 && char_is_whitespace(s.last()) {
        let rest = s.drop_last();
        lemma_trailing_blank_bounds(rest);
        let b = s.len() - trailing_blank(s);
        let tail = s.skip(b);
        assert forall|j: int| 0 <= j < tail.len() implies char_is_whitespace(#[trigger] tail[j]) by {
            if j < tail.len() - 1 {
                assert(rest.skip(b)[j] == tail[j]);
            }
        }
        if trailing_blank(s) < s.len() {
            assert(s[b - 1] == rest[b - 1]);
        }
    }
}

/// Trimming twice is trimming once.
pub proof fn lemma_trimmed_twice(s: Seq<char>)
    ensures
        trimmed(trimmed(s)) == trimmed(s),
{
    let t = trimmed(s);
    if blank(s) {
        assert(blank(t));
    } else {
        lemma_trimmed_is_tight(s);
        lemma_leading_blank(t, 0);
        lemma_trailing_blank(t, t.len() as int);
        assert(t.subrange(0, t.len() as int) =~= t);
    }
}

/// Whether every character of `s` is whitespace.
pub fn is_blank(s: &str) -> (b: bool)
    ensures
        b == blank(s@),
{
    let mut all_blank = true;
    for c in it: s.chars()
        invariant
            it.seq() == s@,
            all_blank == blank(s@.take(it.index())),
    {
        proof {
            let before = s@.take(it.index());
            let after = s@.take(it.index() + 1);
            assert(after =~= before.push(c));
            if blank(after) {
                assert forall|i: int| 0 <= i < before.len() implies char_is_whitespace(
                    #[trigger] before[i],
                ) by {
                    assert(before[i] == after[i]);
                }
            }
            assert(after[after.len() - 1] == c);
        }
        if !is_whitespace(c) {
            all_blank = false;
        }
    }
    proof {
        assert(s@.take(s@.len() as int) =~= s@);
    }
    all_blank
}

/// The part of `s` between its leading and its trailing whitespace.
pub fn trim(s: &str) -> (t: &str)
    ensures
        t@ == trimmed(s@),
{
    let n: usize = s.unicode_len();
    let mut start: usize = 0;
    let mut end: usize = 0;
    let mut i: usize = 0;
    for c in it: s.chars()
        invariant
            it.seq() == s@,
            n == s@.len(),
            i == it.index(),
            start <= end <= i,
            end == 0 ==> start == 0,
            forall|j: int| 0 <= j < start ==> char_is_whitespace(#[trigger] s@[j]),
            forall|j: int| end <= j < i ==> char_is_whitespace(#[trigger] s@[j]),
            end > 0 ==> !char_is_whitespace(s@[start as int]) && !char_is_whitespace(s@[end - 1]),
    {
        assert(c == s@[i as int]);
        if !is_whitespace(c) {
            if end == 0 {
                start = i;
            }
            end = i + 1;
        }
        i = i + 1;
    }
    proof {
        if end == 0 {
            assert(blank(s@));
            assert(s@.subrange(0, 0) =~= Seq::<char>::empty());
        } else {
            assert(!blank(s@));
            lemma_leading_blank(s@, start as int);
            lemma_trailing_blank(s@, end as int);
        }
    }
    s.substring_char(start, end)
}

} // verus!
