//! Searching and cutting text, stated over sequences of characters.

use vstd::prelude::*;

verus! {

/// Whether `c` has the Unicode property `White_Space`.
pub open spec fn is_space(c: char) -> bool {
    let u = c as u32;
    ||| 0x09 <= u <= 0x0D
    ||| u == 0x20
    ||| u == 0x85
    ||| u == 0xA0
    ||| u == 0x1680
    ||| 0x2000 <= u <= 0x200A
    ||| u == 0x2028
    ||| u == 0x2029
    ||| u == 0x202F
    ||| u == 0x205F
    ||| u == 0x3000
}

/// Whether `pattern` stands in `text` at position `at`.
pub open spec fn occurs_at(text: Seq<char>, pattern: Seq<char>, at: int) -> bool {
    &&& 0 <= at
    &&& at + pattern.len() <= text.len()
    &&& text.subrange(at, at + pattern.len()) == pattern
}

/// Whether `text` begins with `pattern`.
pub open spec fn has_prefix(text: Seq<char>, pattern: Seq<char>) -> bool {
    occurs_at(text, pattern, 0)
}

/// The first position at or after `from` where `pattern` stands in `text`,
/// or the length of `text` where there is none.
pub open spec fn find(text: Seq<char>, pattern: Seq<char>, from: int) -> int
    decreases text.len() - from,
{
    if from >= text.len() {
        text.len() as int
    } else if occurs_at(text, pattern, from) {
        from
    } else {
        find(text, pattern, from + 1)
    }
}

/// The pieces that remain of `text` when every occurrence of `pattern` is cut
/// out, the occurrences taken from left to right without overlap. There is
/// always at least one piece.
pub open spec fn split(text: Seq<char>, pattern: Seq<char>) -> Seq<Seq<char>>
    decreases text.len(),
{
    let at = find(text, pattern, 0);
    if pattern.len() > 0 && occurs_at(text, pattern, at) {
        seq![text.take(at)] + split(text.skip(at + pattern.len()), pattern)
    } else {
        seq![text]
    }
}

/// The first position at or after `from` that holds whitespace, or the length
/// of `text` where there is none.
pub open spec fn find_space(text: Seq<char>, from: int) -> int
    decreases text.len() - from,
{
    if from >= text.len() {
        text.len() as int
    } else if 0 <= from && is_space(text[from]) {
        from
    } else {
        find_space(text, from + 1)
    }
}

/// `find` answers with a position between `from` and the end, and with one
/// short of the end only where the pattern stands.
pub proof fn lemma_find_range(text: Seq<char>, pattern: Seq<char>, from: int)
    requires
        0 <= from <= text.len(),
    ensures
        from <= find(text, pattern, from) <= text.len(),
        find(text, pattern, from) < text.len() ==> occurs_at(
            text,
            pattern,
            find(text, pattern, from),
        ),
        forall|k: int| from <= k < find(text, pattern, from) ==> !occurs_at(text, pattern, k),
    decreases text.len() - from,
{
    if from < text.len() && !occurs_at(text, pattern, from) {
        lemma_find_range(text, pattern, from + 1);
    }
}

/// Searching what is left after the first `cut` characters finds the same
/// occurrence as searching the whole text from `cut` on.
pub proof fn lemma_find_skip(text: Seq<char>, pattern: Seq<char>, cut: int, from: int)
    requires
        0 <= cut <= text.len(),
        0 <= from,
    ensures
        find(text.skip(cut), pattern, from) + cut == find(text, pattern, cut + from),
    decreases text.len() - cut - from,
{
    let rest = text.skip(cut);
    if from < rest.len() {
        assert(occurs_at(rest, pattern, from) == occurs_at(text, pattern, cut + from)) by {
            if from + pattern.len() <= rest.len() {
                assert(rest.subrange(from, from + pattern.len()) =~= text.subrange(
                    cut + from,
                    cut + from + pattern.len(),
                ));
            }
        }
        if !occurs_at(rest, pattern, from) {
            lemma_find_skip(text, pattern, cut, from + 1);
        }
    }
}

/// `find` answers with `at` where the pattern stands at `at` and nowhere
/// from `from` up to it.
pub proof fn lemma_find_is(text: Seq<char>, pattern: Seq<char>, from: int, at: int)
    requires
        0 <= from <= at < text.len(),
        occurs_at(text, pattern, at),
        forall|k: int| from <= k < at ==> !occurs_at(text, pattern, k),
    ensures
        find(text, pattern, from) == at,
    decreases at - from,
{
    if from < at {
        lemma_find_is(text, pattern, from + 1, at);
    }
}

/// Cutting `text` off behind the occurrence that `find` answers with does
/// not change the answer.
pub proof fn lemma_find_take(text: Seq<char>, pattern: Seq<char>, from: int, end: int)
    requires
        0 <= from <= text.len(),
        find(text, pattern, from) + pattern.len() <= end <= text.len(),
    ensures
        find(text.take(end), pattern, from) == find(text, pattern, from),
    decreases text.len() - from,
{
    let cut = text.take(end);
    lemma_find_range(text, pattern, from);
    if from < text.len() {
        if from + pattern.len() <= end {
            assert(cut.subrange(from, from + pattern.len()) =~= text.subrange(
                from,
                from + pattern.len(),
            ));
        }
        if !occurs_at(text, pattern, from) {
            lemma_find_take(text, pattern, from + 1, end);
        }
    }
}

/// What `split` makes of the rest of `text` from `cut` on, by the next place
/// at or after `cut` where the pattern stands.
pub proof fn lemma_split_from(text: Seq<char>, pattern: Seq<char>, cut: int)
    requires
        pattern.len() > 0,
        0 <= cut <= text.len(),
    ensures
        ({
            let at = find(text, pattern, cut);
            &&& cut <= at <= text.len()
            &&& at < text.len() ==> at + pattern.len() <= text.len() && split(
                text.skip(cut),
                pattern,
            ) == seq![text.subrange(cut, at)] + split(text.skip(at + pattern.len()), pattern)
            &&& at == text.len() ==> split(text.skip(cut), pattern) == seq![text.skip(cut)]
        }),
{
    let rest = text.skip(cut);
    let at = find(text, pattern, cut);
    lemma_find_skip(text, pattern, cut, 0);
    lemma_find_range(rest, pattern, 0);
    if at < text.len() {
        assert(rest.take(at - cut) =~= text.subrange(cut, at));
        assert(rest.skip(at - cut + pattern.len()) =~= text.skip(at + pattern.len()));
    }
}

/// `find_space` answers with a position between `from` and the end; nothing
/// before it is whitespace, and what stands there is.
pub proof fn lemma_find_space_range(text: Seq<char>, from: int)
    requires
        0 <= from <= text.len(),
    ensures
        from <= find_space(text, from) <= text.len(),
        find_space(text, from) < text.len() ==> is_space(text[find_space(text, from)]),
        forall|k: int| from <= k < find_space(text, from) ==> !is_space(text[k]),
    decreases text.len() - from,
{
    if from < text.len() && !is_space(text[from]) {
        lemma_find_space_range(text, from + 1);
    }
}

/// Whether `c` is whitespace.
pub fn is_whitespace(c: char) -> (b: bool)
    ensures
        b == is_space(c),
{
    let u: u32 = c as u32;
    (0x09 <= u && u <= 0x0D) || u == 0x20 || u == 0x85 || u == 0xA0 || u == 0x1680 || (0x2000 <= u
        && u <= 0x200A) || u == 0x2028 || u == 0x2029 || u == 0x202F || u == 0x205F || u == 0x3000
}

/// The characters of `s`, in order.
pub fn chars_of(s: &str) -> (chars: Vec<char>)
    ensures
        chars@ == s@,
{
    let mut chars: Vec<char> = Vec::new();
    for c in it: s.chars()
        invariant
            it.seq() == s@,
            chars@ == s@.take(it.index() as int),
    {
        chars.push(c);
    }
    chars
}

/// Whether `pattern` stands in `text` at position `at`.
pub fn matches_at(text: &Vec<char>, pattern: &Vec<char>, at: usize) -> (b: bool)
    ensures
        b == occurs_at(text@, pattern@, at as int),
{
    if at > text.len() || pattern.len() > text.len() - at {
        return false;
    }
    let mut k: usize = 0;
    while k < pattern.len()
        invariant
            k <= pattern.len(),
            at + pattern.len() <= text.len(),
            forall|j: int| 0 <= j < k ==> text@[at + j] == pattern@[j],
        decreases pattern.len() - k,
    {
        if text[at + k] != pattern[k] {
            return false;
        }
        k += 1;
    }
    assert(text@.subrange(at as int, at + pattern.len()) =~= pattern@);
    true
}

/// Whether `text` begins with `pattern`.
pub fn starts_with(text: &Vec<char>, pattern: &str) -> (b: bool)
    ensures
        b == has_prefix(text@, pattern@),
{
    let pattern = chars_of(pattern);
    matches_at(text, &pattern, 0)
}

/// The first position at or after `from` where `pattern` stands in `text`,
/// or the length of `text` where there is none.
pub fn find_from(text: &Vec<char>, pattern: &Vec<char>, from: usize) -> (at: usize)
    ensures
        at == find(text@, pattern@, from as int),
{
    let mut at: usize = from;
    while at < text.len()
        invariant
            find(text@, pattern@, from as int) == find(text@, pattern@, at as int),
        decreases text.len() - at,
    {
        if matches_at(text, pattern, at) {
            return at;
        }
        at += 1;
    }
    text.len()
}

/// The first position at or after `from` that holds whitespace, or the length
/// of `text` where there is none.
pub fn find_space_from(text: &Vec<char>, from: usize) -> (at: usize)
    ensures
        at == find_space(text@, from as int),
{
    let mut at: usize = from;
    while at < text.len()
        invariant
            find_space(text@, from as int) == find_space(text@, at as int),
        decreases text.len() - at,
    {
        if is_whitespace(text[at]) {
            return at;
        }
        at += 1;
    }
    text.len()
}

} // verus!
