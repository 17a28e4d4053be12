//! Text as a sequence of characters: whitespace, trimming, and the search for
//! a pattern's first occurrence.
//!
//! The wire format of an outcome is read with exactly these three notions, so
//! they are defined here once, as mathematics over `Seq<char>`, together with
//! the executable scanners that compute them.

use vstd::prelude::*;

verus! {

/// Whether `c` is white space: the code points that carry the Unicode
/// property `White_Space`.
pub open spec fn is_whitespace(c: char) -> bool {
    let u = c as u32;
    ||| 0x09 <= u <= 0x0D
    ||| u == 0x20
    ||| u == 0x85
    ||| u == 0xA0
    ||| u == 0x1680
    ||| 0x2000 <= u <= 0x200A
    ||| u == 0x2028
    ||| u == 0x2029
    ||| u == 0x202F
    ||| u == 0x205F
    ||| u == 0x3000
}

/// `s` without its leading white space.
pub open spec fn trim_start(s: Seq<char>) -> Seq<char>
    decreases s.len(),
{
    if s.len() > 0 && is_whitespace(s[0]) {
        trim_start(s.drop_first())
    } else {
        s
    }
}

/// `s` without its trailing white space.
pub open spec fn trim_end(s: Seq<char>) -> Seq<char>
    decreases s.len(),
{
    if s.len() > 0 && is_whitespace(s.last()) {
        trim_end(s.drop_last())
    } else {
        s
    }
}

/// `s` without the white space that surrounds it.
pub open spec fn trim(s: Seq<char>) -> Seq<char> {
    trim_end(trim_start(s))
}

/// Whether `s` neither begins nor ends with white space.
pub open spec fn is_trimmed(s: Seq<char>) -> bool {
    s.len() > 0 ==> !is_whitespace(s[0]) && !is_whitespace(s.last())
}

/// Whether `s` holds nothing but white space.
pub open spec fn is_blank(s: Seq<char>) -> bool {
    forall|i: int| 0 <= i < s.len() ==> is_whitespace(#[trigger] s[i])
}

/// Whether `pattern` stands in `s` at index `at`.
pub open spec fn occurs_at(s: Seq<char>, pattern: Seq<char>, at: int) -> bool {
    &&& 0 <= at
    &&& at + pattern.len() <= s.len()
    &&& s.subrange(at, at + pattern.len()) == pattern
}

/// Whether `pattern` stands anywhere in `s`.
pub open spec fn contains(s: Seq<char>, pattern: Seq<char>) -> bool {
    exists|at: int| occurs_at(s, pattern, at)
}

/// Whether `at` is the least index at which `pattern` stands in `s`.
pub open spec fn is_first(s: Seq<char>, pattern: Seq<char>, at: int) -> bool {
    &&& occurs_at(s, pattern, at)
    &&& forall|earlier: int| 0 <= earlier < at ==> !occurs_at(s, pattern, earlier)
}

/// The least index at which `pattern` stands in `s`, if it stands in it at all.
pub open spec fn first_index(s: Seq<char>, pattern: Seq<char>) -> Option<int> {
    if contains(s, pattern) {
        Some(choose|at: int| is_first(s, pattern, at))
    } else {
        None
    }
}

/// `s` cut at the first occurrence of `pattern`: what stands before it and
/// what stands after it.
pub open spec fn split_once(s: Seq<char>, pattern: Seq<char>) -> Option<(Seq<char>, Seq<char>)> {
    match first_index(s, pattern) {
        Some(at) => Some((s.take(at), s.skip(at + pattern.len()))),
        None => None,
    }
}

/// A least index of occurrence is the first index.
pub proof fn lemma_first_index(s: Seq<char>, pattern: Seq<char>, at: int)
    requires
        is_first(s, pattern, at),
    ensures
        first_index(s, pattern) == Some(at),
{
    assert(contains(s, pattern));
    let chosen = choose|i: int| is_first(s, pattern, i);
    assert(is_first(s, pattern, chosen));
    if chosen < at {
        assert(!occurs_at(s, pattern, chosen));
    }
    if at < chosen {
        assert(!occurs_at(s, pattern, at));
    }
}

/// Where a pattern stands at all, it has a least index of occurrence, and
/// that is what `first_index` gives.
pub proof fn lemma_first_index_is_first(s: Seq<char>, pattern: Seq<char>)
    requires
        contains(s, pattern),
    ensures
        first_index(s, pattern) is Some,
        is_first(s, pattern, first_index(s, pattern)->0),
{
    let some = choose|at: int| occurs_at(s, pattern, at);
    lemma_least_occurrence(s, pattern, some);
}

/// Below any index of occurrence there is a least one.
proof fn lemma_least_occurrence(s: Seq<char>, pattern: Seq<char>, bound: int)
    requires
        occurs_at(s, pattern, bound),
    ensures
        exists|at: int| is_first(s, pattern, at),
    decreases bound,
{
    if exists|earlier: int| 0 <= earlier < bound && occurs_at(s, pattern, earlier) {
        let earlier = choose|earlier: int| 0 <= earlier < bound && occurs_at(s, pattern, earlier);
        lemma_least_occurrence(s, pattern, earlier);
    } else {
        assert(is_first(s, pattern, bound));
    }
}

/// An occurrence in a suffix of `s` is an occurrence in `s`, shifted.
pub proof fn lemma_occurs_in_suffix(s: Seq<char>, start: int, pattern: Seq<char>, at: int)
    requires
        0 <= start <= s.len(),
        0 <= at,
    ensures
        occurs_at(s.skip(start), pattern, at) <==> occurs_at(s, pattern, start + at),
{
    if at + pattern.len() <= s.len() - start {
        assert(s.skip(start).subrange(at, at + pattern.len()) =~= s.subrange(
            start + at,
            start + at + pattern.len(),
        ));
    }
}

/// Trimmed text is left as it is by `trim`.
pub proof fn lemma_trim_of_trimmed(s: Seq<char>)
    requires
        is_trimmed(s),
    ensures
        trim(s) == s,
{
}

/// What `trim` gives is trimmed.
pub proof fn lemma_trim_is_trimmed(s: Seq<char>)
    ensures
        is_trimmed(trim(s)),
{
    lemma_trim_start_shape(s);
    lemma_trim_end_shape(trim_start(s));
    let mid = trim_start(s);
    let out = trim_end(mid);
    if out.len() > 0 {
        assert(out[0] == mid[0]);
    }
}

/// `trim_start` gives a suffix that does not begin with white space.
pub proof fn lemma_trim_start_shape(s: Seq<char>)
    ensures
        trim_start(s).len() <= s.len(),
        trim_start(s) == s.skip(s.len() - trim_start(s).len()),
        trim_start(s).len() > 0 ==> !is_whitespace(trim_start(s)[0]),
        forall|i: int| 0 <= i < s.len() - trim_start(s).len() ==> is_whitespace(s[i]),
    decreases s.len(),
{
    if s.len() > 0 && is_whitespace(s[0]) {
        let rest = s.drop_first();
        lemma_trim_start_shape(rest);
        let kept = trim_start(rest);
        assert(rest.skip(rest.len() - kept.len()) =~= s.skip(s.len() - kept.len()));
        assert forall|i: int| 0 <= i < s.len() - kept.len() implies is_whitespace(s[i]) by {
            if i > 0 {
                assert(s[i] == rest[i - 1]);
            }
        }
    } else {
        assert(s.skip(0) =~= s);
    }
}

/// `trim_end` gives a prefix that does not end with white space.
pub proof fn lemma_trim_end_shape(s: Seq<char>)
    ensures
        trim_end(s).len() <= s.len(),
        trim_end(s) == s.take(trim_end(s).len() as int),
        trim_end(s).len() > 0 ==> !is_whitespace(trim_end(s).last()),
        forall|i: int| trim_end(s).len() <= i < s.len() ==> is_whitespace(s[i]),
    decreases s.len(),
{
    if s.len() > 0 && is_whitespace(s.last()) {
        let rest = s.drop_last();
        lemma_trim_end_shape(rest);
        let kept = trim_end(rest);
        assert(rest.take(kept.len() as int) =~= s.take(kept.len() as int));
        assert forall|i: int| kept.len() <= i < s.len() implies is_whitespace(s[i]) by {
            if i < rest.len() {
                assert(s[i] == rest[i]);
            }
        }
    } else {
        assert(s.take(s.len() as int) =~= s);
    }
}

/// A field followed by a separator is trimmed back to the field, where the
/// separator is white space and the field is trimmed.
pub proof fn lemma_trim_field(field: Seq<char>, separator: char)
    requires
        is_trimmed(field),
        is_whitespace(separator),
    ensures
        trim(field.push(separator)) == field,
{
    let s = field.push(separator);
    reveal_with_fuel(trim_start, 2);
    reveal_with_fuel(trim_end, 2);
    if field.len() == 0 {
        assert(s.drop_first() =~= Seq::<char>::empty());
        assert(trim_start(s) =~= Seq::<char>::empty());
    } else {
        assert(s[0] == field[0]);
        assert(trim_start(s) == s);
        assert(s.drop_last() =~= field);
    }
}

/// Trimmed text with white space behind it is trimmed back to itself.
pub proof fn lemma_trim_padded(field: Seq<char>, padding: Seq<char>)
    requires
        is_trimmed(field),
        is_blank(padding),
    ensures
        trim(field + padding) == field,
    decreases padding.len(),
{
    let s = field + padding;
    if padding.len() == 0 {
        assert(s =~= field);
    } else {
        let shorter = padding.drop_last();
        assert(is_blank(shorter)) by {
            assert forall|i: int| 0 <= i < shorter.len() implies is_whitespace(
                #[trigger] shorter[i],
            ) by {
                assert(shorter[i] == padding[i]);
            }
        }
        lemma_trim_padded(field, shorter);
        let before = field + shorter;
        assert(s.drop_last() =~= before);
        assert(s.last() == padding.last());
        assert(is_whitespace(padding[padding.len() - 1]));
        if field.len() > 0 {
            assert(s[0] == field[0]);
            assert(before.len() > 0 && before[0] == field[0]);
            assert(trim_start(s) == s);
            assert(trim_start(before) == before);
        } else {
            assert(s =~= padding);
            assert(before =~= shorter);
            lemma_trim_start_of_blank(padding);
            assert(trim_end(Seq::<char>::empty()) == Seq::<char>::empty());
        }
    }
}

/// Nothing is left of white space when its start is trimmed.
pub proof fn lemma_trim_start_of_blank(s: Seq<char>)
    requires
        is_blank(s),
    ensures
        trim_start(s) == Seq::<char>::empty(),
    decreases s.len(),
{
    if s.len() > 0 {
        let rest = s.drop_first();
        assert(is_whitespace(s[0]));
        assert(is_blank(rest)) by {
            assert forall|i: int| 0 <= i < rest.len() implies is_whitespace(#[trigger] rest[i]) by {
                assert(rest[i] == s[i + 1]);
            }
        }
        lemma_trim_start_of_blank(rest);
    } else {
        assert(s =~= Seq::<char>::empty());
    }
}

/// A pattern without white space in it does not stand in a text with white
/// space behind it, where it does not stand in the text.
pub proof fn lemma_absent_before_blank(text: Seq<char>, padding: Seq<char>, pattern: Seq<char>)
    requires
        !contains(text, pattern),
        is_blank(padding),
        pattern.len() > 0,
        forall|k: int| 0 <= k < pattern.len() ==> !is_whitespace(pattern[k]),
    ensures
        !contains(text + padding, pattern),
{
    let s = text + padding;
    assert forall|at: int| !occurs_at(s, pattern, at) by {
        if occurs_at(s, pattern, at) {
            let window = s.subrange(at, at + pattern.len());
            if at + pattern.len() <= text.len() {
                assert(text.subrange(at, at + pattern.len()) =~= window);
                assert(occurs_at(text, pattern, at));
            } else {
                let last = pattern.len() - 1;
                assert(window[last] == s[at + last]);
                assert(s[at + last] == padding[at + last - text.len()]);
            }
        }
    }
}

/// A pattern that does not hold the separator cannot stand across it: where
/// it stands neither before nor behind the separator, it does not stand in
/// the whole.
pub proof fn lemma_absent_across(
    before: Seq<char>,
    separator: char,
    behind: Seq<char>,
    pattern: Seq<char>,
)
    requires
        !contains(before, pattern),
        !contains(behind, pattern),
        pattern.len() > 0,
        forall|k: int| 0 <= k < pattern.len() ==> pattern[k] != separator,
    ensures
        !contains(before.push(separator) + behind, pattern),
{
    let s = before.push(separator) + behind;
    assert forall|at: int| !occurs_at(s, pattern, at) by {
        if occurs_at(s, pattern, at) {
            let window = s.subrange(at, at + pattern.len());
            if at + pattern.len() <= before.len() {
                assert(before.subrange(at, at + pattern.len()) =~= window);
                assert(occurs_at(before, pattern, at));
            } else if at > before.len() {
                let shifted = at - before.len() - 1;
                assert(behind.subrange(shifted, shifted + pattern.len()) =~= window);
                assert(occurs_at(behind, pattern, shifted));
            } else {
                assert(window[before.len() - at] == s[before.len() as int]);
            }
        }
    }
}

/// A text made of a field, a separator, a tag and a tail is cut at that tag,
/// where the tag stands nowhere in the field and does not hold the separator.
pub proof fn lemma_split_after_field(
    field: Seq<char>,
    separator: char,
    tag: Seq<char>,
    tail: Seq<char>,
)
    requires
        !contains(field, tag),
        tag.len() > 0,
        forall|k: int| 0 <= k < tag.len() ==> tag[k] != separator,
    ensures
        split_once(field.push(separator) + tag + tail, tag) == Some((field.push(separator), tail)),
{
    let s = field.push(separator) + tag + tail;
    let at = (field.len() + 1) as int;
    assert(s.subrange(at, at + tag.len()) =~= tag);
    assert forall|earlier: int| 0 <= earlier < at implies !occurs_at(s, tag, earlier) by {
        if occurs_at(s, tag, earlier) {
            let window = s.subrange(earlier, earlier + tag.len());
            if earlier + tag.len() <= field.len() {
                assert(field.subrange(earlier, earlier + tag.len()) =~= window);
                assert(occurs_at(field, tag, earlier));
            } else {
                assert(window[field.len() - earlier] == s[field.len() as int]);
            }
        }
    }
    lemma_first_index(s, tag, at);
    assert(s.take(at) =~= field.push(separator));
    assert(s.skip(at + tag.len()) =~= tail);
}

/// A text that begins with a tag is cut at that tag, with nothing before it.
pub proof fn lemma_split_at_start(tag: Seq<char>, tail: Seq<char>)
    ensures
        split_once(tag + tail, tag) == Some((Seq::<char>::empty(), tail)),
{
    let s = tag + tail;
    assert(s.subrange(0, tag.len() as int) =~= tag);
    lemma_first_index(s, tag, 0);
    assert(s.take(0) =~= Seq::<char>::empty());
    assert(s.skip(tag.len() as int) =~= tail);
}

/// Whether `c` is white space.
pub fn is_whitespace_char(c: char) -> (b: bool)
    ensures
        b == is_whitespace(c),
{
    let u: u32 = c as u32;
    (0x09 <= u && u <= 0x0D) || u == 0x20 || u == 0x85 || u == 0xA0 || u == 0x1680 || (0x2000 <= u
        && u <= 0x200A) || u == 0x2028 || u == 0x2029 || u == 0x202F || u == 0x205F || u == 0x3000
}

/// The characters of `s`, in order.
pub fn chars_of(s: &str) -> (chars: Vec<char>)
    ensures
        chars@ == s@,
{
    let mut chars: Vec<char> = Vec::new();
    for c in it: s.chars()
        invariant
            chars@ == it.seq().take(it.index()),
            it.seq() == s@,
    {
        chars.push(c);
    }
    chars
}

/// Whether `pattern` stands in `text` at index `at`.
pub fn matches_at(text: &Vec<char>, at: usize, pattern: &Vec<char>) -> (b: bool)
    ensures
        b == occurs_at(text@, pattern@, at as int),
{
    if pattern.len() > text.len() || at > text.len() - pattern.len() {
        return false;
    }
    let mut k: usize = 0;
    while k < pattern.len()
        invariant
            k <= pattern.len(),
            at + pattern.len() <= text.len(),
            forall|j: int| 0 <= j < k ==> text@[at + j] == pattern@[j],
        decreases pattern.len() - k,
    {
        if text[at + k] != pattern[k] {
            proof {
                let window = text@.subrange(at as int, at + pattern.len());
                assert(window[k as int] == text@[at + k]);
            }
            return false;
        }
        k += 1;
    }
    proof {
        assert(text@.subrange(at as int, at + pattern.len()) =~= pattern@);
    }
    true
}

/// Searches `text`, from index `start` on, for the first occurrence of
/// `pattern`, and gives the index in `text` at which it stands.
pub fn find_from(text: &Vec<char>, start: usize, pattern: &Vec<char>) -> (found: Option<usize>)
    requires
        start <= text.len(),
    ensures
        match found {
            Some(at) => {
                &&& start <= at
                &&& at + pattern.len() <= text.len()
                &&& first_index(text@.skip(start as int), pattern@) == Some(at - start)
            },
            None => first_index(text@.skip(start as int), pattern@) is None,
        },
{
    let ghost rest = text@.skip(start as int);
    let mut at: usize = start;
    while at < text.len()
        invariant
            start <= at <= text.len(),
            rest == text@.skip(start as int),
            forall|earlier: int| 0 <= earlier < at - start ==> !occurs_at(rest, pattern@, earlier),
        decreases text.len() - at,
    {
        let here = matches_at(text, at, pattern);
        proof {
            lemma_occurs_in_suffix(text@, start as int, pattern@, at - start);
        }
        if here {
            proof {
                lemma_first_index(rest, pattern@, at - start);
            }
            return Some(at);
        }
        at += 1;
    }
    let at_end = matches_at(text, at, pattern);
    proof {
        lemma_occurs_in_suffix(text@, start as int, pattern@, at - start);
    }
    if at_end {
        proof {
            lemma_first_index(rest, pattern@, at - start);
        }
        return Some(at);
    }
    proof {
        assert forall|i: int| !occurs_at(rest, pattern@, i) by {
            if 0 <= i && i + pattern@.len() <= rest.len() {
                assert(i <= at - start);
            }
        }
    }
    None
}

/// The bounds, within `text[from..to]`, of what `trim` leaves of it.
pub fn trim_range(text: &Vec<char>, from: usize, to: usize) -> (bounds: (usize, usize))
    requires
        from <= to <= text.len(),
    ensures
        from <= bounds.0 <= bounds.1 <= to,
        text@.subrange(bounds.0 as int, bounds.1 as int) == trim(
            text@.subrange(from as int, to as int),
        ),
{
    let mut a: usize = from;
    while a < to && is_whitespace_char(text[a])
        invariant
            from <= a <= to <= text.len(),
            trim_start(text@.subrange(from as int, to as int)) == trim_start(
                text@.subrange(a as int, to as int),
            ),
        decreases to - a,
    {
        proof {
            let here = text@.subrange(a as int, to as int);
            assert(here[0] == text@[a as int]);
            assert(here.drop_first() =~= text@.subrange(a + 1, to as int));
        }
        a += 1;
    }
    proof {
        let here = text@.subrange(a as int, to as int);
        if a < to {
            assert(here[0] == text@[a as int]);
        }
        assert(trim_start(here) == here);
    }
    let mut b: usize = to;
    while b > a && is_whitespace_char(text[b - 1])
        invariant
            a <= b <= to <= text.len(),
            trim_end(text@.subrange(a as int, to as int)) == trim_end(
                text@.subrange(a as int, b as int),
            ),
        decreases b - a,
    {
        proof {
            let here = text@.subrange(a as int, b as int);
            assert(here.last() == text@[b - 1]);
            assert(here.drop_last() =~= text@.subrange(a as int, b - 1));
        }
        b -= 1;
    }
    proof {
        let here = text@.subrange(a as int, b as int);
        if b > a {
            assert(here.last() == text@[b - 1]);
        }
        assert(trim_end(here) == here);
    }
    (a, b)
}

} // verus!
