//! Character-level helpers shared by the parsers: indexing a string by
//! character, trimming white space, and searching for a fixed pattern.

use vstd::prelude::*;

verus! {

/// The characters of `s`, in order, as a vector that can be indexed in
/// constant time.
pub fn chars_of(s: &str) -> (v: Vec<char>)
    ensures
        v@ == s@,
{
    let mut v: Vec<char> = Vec::new();
    for c in it: s.chars()
        invariant
            v@ == it.seq().take(it.index() as int),
    {
        v.push(c);
    }
    v
}

/// The characters that carry the Unicode property `White_Space`.
pub open spec fn is_space(c: char) -> bool {
    ||| ('\u{9}' <= c && c <= '\u{d}')
    ||| c == ' '
    ||| c == '\u{85}'
    ||| c == '\u{a0}'
    ||| c == '\u{1680}'
    ||| ('\u{2000}' <= c && c <= '\u{200a}')
    ||| c == '\u{2028}'
    ||| c == '\u{2029}'
    ||| c == '\u{202f}'
    ||| c == '\u{205f}'
    ||| c == '\u{3000}'
}

/// Whether `c` is a white-space character.
pub fn space_char(c: char) -> (b: bool)
    ensures
        b == is_space(c),
{
    ('\u{9}' <= c && c <= '\u{d}') || c == ' ' || c == '\u{85}' || c == '\u{a0}' || c == '\u{1680}'
        || ('\u{2000}' <= c && c <= '\u{200a}') || c == '\u{2028}' || c == '\u{2029}' || c
        == '\u{202f}' || c == '\u{205f}' || c == '\u{3000}'
}

/// Every character of `s` is white space.
pub open spec fn is_blank(s: Seq<char>) -> bool {
    forall|i: int| 0 <= i < s.len() ==> is_space(#[trigger] s[i])
}

/// `s` without its leading white space.
pub open spec fn skip_leading(s: Seq<char>) -> Seq<char>
    decreases s.len(),
{
    if s.len() > 0 && is_space(s[0]) {
        skip_leading(s.drop_first())
    } else {
        s
    }
}

/// `s` without its trailing white space.
pub open spec fn skip_trailing(s: Seq<char>) -> Seq<char>
    decreases s.len(),
{
    if s.len() > 0 && is_space(s.last()) {
        skip_trailing(s.drop_last())
    } else {
        s
    }
}

/// `s` without its leading and trailing white space.
pub open spec fn trimmed(s: Seq<char>) -> Seq<char> {
    skip_trailing(skip_leading(s))
}

/// Dropping a blank prefix of length `a` changes nothing of what
/// `skip_leading` keeps, provided the character after it is not white space.
pub proof fn lemma_skip_leading(s: Seq<char>, a: int)
    requires
        0 <= a <= s.len(),
        is_blank(s.subrange(0, a)),
        a < s.len() ==> !is_space(s[a]),
    ensures
        skip_leading(s) == s.subrange(a, s.len() as int),
    decreases a,
{
    if a == 0 {
        assert(s.subrange(0, s.len() as int) == s);
    } else {
        assert(s.subrange(0, a)[0] == s[0]);
        let t = s.drop_first();
        assert forall|i: int| 0 <= i < a - 1 implies is_space(#[trigger] t.subrange(0, a - 1)[i]) by {
            assert(t.subrange(0, a - 1)[i] == s.subrange(0, a)[i + 1]);
        }
        lemma_skip_leading(t, a - 1);
        assert(t.subrange(a - 1, t.len() as int) == s.subrange(a, s.len() as int));
    }
}

/// Dropping a blank suffix that starts at `b` changes nothing of what
/// `skip_trailing` keeps, provided the character before it is not white
/// space.
pub proof fn lemma_skip_trailing(s: Seq<char>, b: int)
    requires
        0 <= b <= s.len(),
        is_blank(s.subrange(b, s.len() as int)),
        b > 0 ==> !is_space(s[b - 1]),
    ensures
        skip_trailing(s) == s.subrange(0, b),
    decreases s.len() - b,
{
    if b == s.len() {
        assert(s.subrange(0, b) == s);
    } else {
        let n = s.len() as int;
        assert(s.subrange(b, n)[n - 1 - b] == s.last());
        let t = s.drop_last();
        assert forall|i: int| 0 <= i < n - 1 - b implies is_space(
            #[trigger] t.subrange(b, n - 1)[i],
        ) by {
            assert(t.subrange(b, n - 1)[i] == s.subrange(b, n)[i]);
        }
        lemma_skip_trailing(t, b);
        assert(t.subrange(0, b) == s.subrange(0, b));
    }
}

/// What `skip_leading` keeps does not start with white space.
pub proof fn lemma_skip_leading_head(s: Seq<char>)
    ensures
        skip_leading(s).len() > 0 ==> !is_space(skip_leading(s)[0]),
        skip_leading(s).len() == 0 ==> is_blank(s),
    decreases s.len(),
{
    if s.len() > 0 && is_space(s[0]) {
        lemma_skip_leading_head(s.drop_first());
        if skip_leading(s).len() == 0 {
            assert forall|i: int| 0 <= i < s.len() implies is_space(#[trigger] s[i]) by {
                if i > 0 {
                    assert(s.drop_first()[i - 1] == s[i]);
                }
            }
        }
    }
}

/// What `skip_trailing` keeps does not end with white space.
pub proof fn lemma_skip_trailing_last(s: Seq<char>)
    ensures
        skip_trailing(s).len() > 0 ==> !is_space(skip_trailing(s).last()),
        skip_trailing(s).len() == 0 ==> is_blank(s),
    decreases s.len(),
{
    if s.len() > 0 && is_space(s.last()) {
        lemma_skip_trailing_last(s.drop_last());
        if skip_trailing(s).len() == 0 {
            assert forall|i: int| 0 <= i < s.len() implies is_space(#[trigger] s[i]) by {
                if i < s.len() - 1 {
                    assert(s.drop_last()[i] == s[i]);
                }
            }
        }
    }
}

/// A text trims to nothing exactly when all of it is white space.
pub proof fn lemma_blank_trims_to_nothing(s: Seq<char>)
    ensures
        is_blank(s) <==> trimmed(s).len() == 0,
{
    if is_blank(s) {
        assert(s.subrange(0, s.len() as int) == s);
        lemma_skip_leading(s, s.len() as int);
        assert(skip_leading(s).len() == 0);
    }
    if trimmed(s).len() == 0 {
        let rest = skip_leading(s);
        lemma_skip_leading_head(s);
        lemma_skip_trailing_last(rest);
        if rest.len() > 0 {
            assert(is_space(rest[0]));
        }
    }
}

/// The bounds of `trimmed` within the part `v[from..to]`: the result `(a, b)`
/// delimits the part without its leading and trailing white space.
pub fn trim_bounds(v: &Vec<char>, from: usize, to: usize) -> (r: (usize, usize))
    requires
        from <= to <= v.len(),
    ensures
        from <= r.0 <= r.1 <= to,
        v@.subrange(r.0 as int, r.1 as int) == trimmed(v@.subrange(from as int, to as int)),
{
    let ghost part = v@.subrange(from as int, to as int);
    let mut a: usize = from;
    while a < to && space_char(v[a])
        invariant
            from <= a <= to <= v.len(),
            is_blank(v@.subrange(from as int, a as int)),
        decreases to - a,
    {
        a += 1;
        assert forall|i: int| 0 <= i < a - from implies is_space(
            #[trigger] v@.subrange(from as int, a as int)[i],
        ) by {
            if i < a - 1 - from {
                assert(v@.subrange(from as int, a - 1)[i] == v@[from + i]);
            }
        }
    }
    let mut b: usize = to;
    while b > a && space_char(v[b - 1])
        invariant
            a <= b <= to <= v.len(),
            is_blank(v@.subrange(b as int, to as int)),
        decreases b,
    {
        b -= 1;
        assert forall|i: int| 0 <= i < to - b implies is_space(
            #[trigger] v@.subrange(b as int, to as int)[i],
        ) by {
            if i > 0 {
                assert(v@.subrange(b + 1, to as int)[i - 1] == v@[b + i]);
            }
        }
    }
    proof {
        assert(part.subrange(0, a - from) == v@.subrange(from as int, a as int));
        lemma_skip_leading(part, a - from);
        let rest = part.subrange(a - from, part.len() as int);
        assert(rest == v@.subrange(a as int, to as int));
        assert(rest.subrange(b - a, rest.len() as int) == v@.subrange(b as int, to as int));
        lemma_skip_trailing(rest, b - a);
        assert(rest.subrange(0, b - a) == v@.subrange(a as int, b as int));
    }
    (a, b)
}

/// `needle` stands in `hay` at index `i`.
pub open spec fn occurs_at(hay: Seq<char>, needle: Seq<char>, i: int) -> bool {
    0 <= i && i + needle.len() <= hay.len() && hay.subrange(i, i + needle.len()) == needle
}

/// `needle` stands in `hay` at one index and at no other.
pub open spec fn occurs_once(hay: Seq<char>, needle: Seq<char>) -> bool {
    exists|i: int| occurs_at(hay, needle, i) && forall|j: int| occurs_at(hay, needle, j) ==> j == i
}

/// In `lead + text + tail`, the text `text` also stands at a place other
/// than the one where it was put.
pub open spec fn stands_elsewhere(lead: Seq<char>, text: Seq<char>, tail: Seq<char>) -> bool {
    exists|j: int| j != lead.len() && occurs_at(lead + text + tail, text, j)
}

/// A text put between two others stands where it was put; it stands there
/// and nowhere else exactly when it does not also stand elsewhere.
pub proof fn lemma_inserted_text_occurs(lead: Seq<char>, text: Seq<char>, tail: Seq<char>)
    ensures
        occurs_at(lead + text + tail, text, lead.len() as int),
        occurs_once(lead + text + tail, text) <==> !stands_elsewhere(lead, text, tail),
{
    let whole = lead + text + tail;
    let n = lead.len() as int;
    assert(whole.subrange(n, n + text.len()) =~= text);
    assert(occurs_at(whole, text, n));
    if occurs_once(whole, text) {
        let i = choose|i: int|
            occurs_at(whole, text, i) && forall|j: int| occurs_at(whole, text, j) ==> j == i;
        assert(i == n);
    }
}

/// A copy of `text` that starts after the place where `text` was put
/// carries every character of `text` into `tail`.
proof fn lemma_later_copy(lead: Seq<char>, text: Seq<char>, tail: Seq<char>, j: int, k: int)
    requires
        lead.len() < j,
        occurs_at(lead + text + tail, text, j),
        0 <= k < text.len(),
    ensures
        tail.contains(text[k]),
    decreases text.len() - k,
{
    let whole = lead + text + tail;
    let n = lead.len() as int;
    assert(whole.subrange(j, j + text.len())[k] == whole[j + k]);
    let p = j + k - n;
    if p < text.len() {
        assert(whole[j + k] == text[p]);
        lemma_later_copy(lead, text, tail, j, p);
    } else {
        assert(whole[j + k] == tail[p - text.len()]);
    }
}

/// A copy of `text` that starts before the place where `text` was put
/// takes every character of `text` from `lead`.
proof fn lemma_earlier_copy(lead: Seq<char>, text: Seq<char>, tail: Seq<char>, j: int, k: int)
    requires
        j < lead.len(),
        occurs_at(lead + text + tail, text, j),
        0 <= k < text.len(),
    ensures
        lead.contains(text[k]),
    decreases k,
{
    let whole = lead + text + tail;
    let n = lead.len() as int;
    assert(whole.subrange(j, j + text.len())[k] == whole[j + k]);
    if j + k < n {
        assert(whole[j + k] == lead[j + k]);
    } else {
        let p = j + k - n;
        assert(whole[j + k] == text[p]);
        lemma_earlier_copy(lead, text, tail, j, p);
    }
}

/// A text that holds a character found neither before nor after it stands
/// in the whole exactly once.
pub proof fn lemma_foreign_char_occurs_once(
    lead: Seq<char>,
    text: Seq<char>,
    tail: Seq<char>,
    k: int,
)
    requires
        0 <= k < text.len(),
        !lead.contains(text[k]),
        !tail.contains(text[k]),
    ensures
        occurs_once(lead + text + tail, text),
{
    assert forall|j: int| j != lead.len() implies !occurs_at(lead + text + tail, text, j) by {
        if occurs_at(lead + text + tail, text, j) {
            if j > lead.len() {
                lemma_later_copy(lead, text, tail, j, k);
            } else {
                lemma_earlier_copy(lead, text, tail, j, k);
            }
        }
    }
    lemma_inserted_text_occurs(lead, text, tail);
}

/// The index of the first occurrence of `needle` in `hay` at or after
/// `from`, if there is one.
pub open spec fn find_from(hay: Seq<char>, needle: Seq<char>, from: int) -> Option<int>
    decreases hay.len() + 1 - from,
{
    if from < 0 || from + needle.len() > hay.len() {
        None
    } else if occurs_at(hay, needle, from) {
        Some(from)
    } else {
        find_from(hay, needle, from + 1)
    }
}

/// What `find_from` returns is the least index at or after `from` at which
/// the pattern stands, and `None` only when it stands at none.
pub proof fn lemma_find_from(hay: Seq<char>, needle: Seq<char>, from: int)
    requires
        0 <= from,
    ensures
        match find_from(hay, needle, from) {
            Some(i) => from <= i && occurs_at(hay, needle, i) && forall|j: int|
                from <= j < i ==> !occurs_at(hay, needle, j),
            None => forall|j: int| from <= j ==> !occurs_at(hay, needle, j),
        },
    decreases hay.len() + 1 - from,
{
    if from + needle.len() > hay.len() {
    } else if occurs_at(hay, needle, from) {
    } else {
        lemma_find_from(hay, needle, from + 1);
    }
}

/// Whether `needle` stands in `hay` at index `i`.
pub fn matches_at(hay: &Vec<char>, needle: &Vec<char>, i: usize) -> (b: bool)
    ensures
        b == occurs_at(hay@, needle@, i as int),
{
    if needle.len() > hay.len() || i > hay.len() - needle.len() {
        return false;
    }
    let mut k: usize = 0;
    while k < needle.len()
        invariant
            k <= needle.len(),
            i + needle.len() <= hay.len(),
            forall|j: int| 0 <= j < k ==> hay@[i + j] == needle@[j],
        decreases needle.len() - k,
    {
        if hay[i + k] != needle[k] {
            assert(hay@.subrange(i as int, i + needle.len())[k as int] == hay@[i + k]);
            return false;
        }
        k += 1;
    }
    assert(hay@.subrange(i as int, i + needle.len()) =~= needle@);
    true
}

/// Whether `v` holds exactly the characters of `word`.
pub fn text_is(v: &Vec<char>, word: &str) -> (b: bool)
    ensures
        b == (v@ == word@),
{
    let w = chars_of(word);
    if v.len() != w.len() {
        return false;
    }
    assert(v@.subrange(0, v@.len() as int) =~= v@);
    matches_at(v, &w, 0)
}

/// Searches `hay` for the first occurrence of `needle` at or after `from`.
pub fn find(hay: &Vec<char>, needle: &Vec<char>, from: usize) -> (r: Option<usize>)
    ensures
        match r {
            Some(i) => find_from(hay@, needle@, from as int) == Some(i as int) && from <= i
                && i + needle.len() <= hay.len(),
            None => find_from(hay@, needle@, from as int) is None,
        },
{
    if needle.len() > hay.len() || from > hay.len() - needle.len() {
        return None;
    }
    let last: usize = hay.len() - needle.len();
    let mut i: usize = from;
    loop
        invariant
            from <= i <= last,
            last == hay.len() - needle.len(),
            find_from(hay@, needle@, from as int) == find_from(hay@, needle@, i as int),
        decreases last - i,
    {
        if matches_at(hay, needle, i) {
            return Some(i);
        }
        if i == last {
            assert(find_from(hay@, needle@, i + 1) is None);
            return None;
        }
        i += 1;
    }
}

} // verus!
