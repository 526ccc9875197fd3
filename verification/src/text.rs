//! Text helpers whose results are stated over the characters of a string.

use vstd::prelude::*;
use vstd::string::*;
use vstd::utf8::*;

verus! {

/// The characters of each string of a list.
pub open spec fn texts(list: Seq<String>) -> Seq<Seq<char>> {
    list.map_values(|s: String| s@)
}

/// The characters of an optional string.
pub open spec fn optional_text(value: Option<String>) -> Option<Seq<char>> {
    match value {
        Some(s) => Some(s@),
        None => None,
    }
}

/// The characters of each string of an optional list.
pub open spec fn optional_texts(value: Option<Vec<String>>) -> Option<Seq<Seq<char>>> {
    match value {
        Some(list) => Some(texts(list@)),
        None => None,
    }
}

/// The characters of each borrowed string of a list.
pub open spec fn borrowed_texts(list: Seq<&str>) -> Seq<Seq<char>> {
    list.map_values(|s: &str| s@)
}

/// The parts of a list, each but the first behind a separator.
pub open spec fn joined(parts: Seq<Seq<char>>, separator: Seq<char>) -> Seq<char>
    decreases parts.len(),
{
    if parts.len() == 0 {
        Seq::empty()
    } else if parts.len() == 1 {
        parts[0]
    } else {
        joined(parts.drop_last(), separator) + separator + parts.last()
    }
}

/// The pieces of a text between the occurrences of a separator: each
/// separator closes a piece and opens the next, so that a text with `n`
/// separators has `n + 1` pieces, of which any may be empty.
pub open spec fn pieces(text: Seq<char>, separator: char) -> Seq<Seq<char>>
    decreases text.len(),
{
    if text.len() == 0 {
        seq![Seq::empty()]
    } else {
        let before = pieces(text.drop_last(), separator);
        if text.last() == separator {
            before.push(Seq::empty())
        } else {
            before.drop_last().push(before.last().push(text.last()))
        }
    }
}

/// A text has at least one piece.
pub proof fn lemma_pieces_len(text: Seq<char>, separator: char)
    ensures
        pieces(text, separator).len() >= 1,
    decreases text.len(),
{
    if text.len() > 0 {
        lemma_pieces_len(text.drop_last(), separator);
    }
}

/// The pieces of a text, joined by the separator, are the text.
pub proof fn lemma_pieces_joined(text: Seq<char>, separator: char)
    ensures
        joined(pieces(text, separator), seq![separator]) == text,
    decreases text.len(),
{
    let all = pieces(text, separator);
    let sep = seq![separator];
    if text.len() == 0 {
        assert(joined(all, sep) == all[0]);
    } else {
        let head = text.drop_last();
        let before = pieces(head, separator);
        lemma_pieces_len(head, separator);
        lemma_pieces_joined(head, separator);
        if text.last() == separator {
            assert(all.drop_last() == before);
            assert(joined(all, sep) == joined(before, sep) + sep + Seq::<char>::empty());
            assert(head + sep + Seq::<char>::empty() =~= text);
        } else {
            let grown = before.last().push(text.last());
            assert(all.drop_last() == before.drop_last());
            assert(all.last() == grown);
            if before.len() == 1 {
                assert(joined(before, sep) == before[0]);
                assert(joined(all, sep) == grown);
                assert(grown =~= text);
            } else {
                assert(joined(before, sep) == joined(before.drop_last(), sep) + sep
                    + before.last());
                assert(joined(all, sep) == joined(before.drop_last(), sep) + sep + grown);
                assert(joined(before.drop_last(), sep) + sep + grown =~= (joined(
                    before.drop_last(),
                    sep,
                ) + sep + before.last()).push(text.last()));
                assert(head.push(text.last()) =~= text);
            }
        }
    }
}

/// Whether `pattern` stands in `text` at the position `at`.
pub open spec fn occurs_at(text: Seq<char>, pattern: Seq<char>, at: int) -> bool {
    0 <= at && at + pattern.len() <= text.len() && text.subrange(at, at + pattern.len())
        == pattern
}

/// Whether `pattern` stands somewhere in `text`.
pub open spec fn occurs(text: Seq<char>, pattern: Seq<char>) -> bool {
    exists|at: int| occurs_at(text, pattern, at)
}

/// Whether `at` is the first position at which `pattern` stands in `text`.
pub open spec fn first_occurrence(text: Seq<char>, pattern: Seq<char>, at: int) -> bool {
    occurs_at(text, pattern, at) && forall|before: int|
        0 <= before < at ==> !occurs_at(text, pattern, before)
}

/// Whether `a` comes before `b` where texts are ordered character by
/// character, a text before each of its extensions.
pub open spec fn precedes(a: Seq<char>, b: Seq<char>) -> bool
    decreases a.len(),
{
    if b.len() == 0 {
        false
    } else if a.len() == 0 {
        true
    } else if a[0] != b[0] {
        (a[0] as u32) < (b[0] as u32)
    } else {
        precedes(a.drop_first(), b.drop_first())
    }
}

/// A text without the repetitions of a suffix at its end. An empty suffix
/// takes nothing off.
pub open spec fn without_suffixes(text: Seq<char>, suffix: Seq<char>) -> Seq<char>
    decreases text.len(),
{
    if suffix.len() > 0 && suffix.is_suffix_of(text) {
        without_suffixes(text.take(text.len() - suffix.len()), suffix)
    } else {
        text
    }
}

/// A text without the repetitions of a character at its start.
pub open spec fn without_leading(text: Seq<char>, c: char) -> Seq<char>
    decreases text.len(),
{
    if text.len() > 0 && text[0] == c {
        without_leading(text.drop_first(), c)
    } else {
        text
    }
}

/// Two strings with the same UTF-8 encoding hold the same characters.
pub proof fn lemma_same_bytes_same_text(a: Seq<char>, b: Seq<char>)
    requires
        encode_utf8(a) == encode_utf8(b),
    ensures
        a == b,
{
    encode_utf8_decode_utf8(a);
    encode_utf8_decode_utf8(b);
}

/// Whether two strings hold the same characters.
pub fn same(a: &str, b: &str) -> (r: bool)
    ensures
        r == (a@ == b@),
{
    let x = a.as_bytes();
    let y = b.as_bytes();
    if x.len() != y.len() {
        return false;
    }
    let mut i: usize = 0;
    while i < x.len()
        invariant
            i <= x.len(),
            x.len() == y.len(),
            x@ == encode_utf8(a@),
            y@ == encode_utf8(b@),
            forall|j: int| 0 <= j < i ==> x@[j] == y@[j],
        decreases x.len() - i,
    {
        if x[i] != y[i] {
            return false;
        }
        i += 1;
    }
    proof {
        assert(x@ =~= y@);
        lemma_same_bytes_same_text(a@, b@);
    }
    true
}

/// The characters of a string, as a vector that can be indexed.
pub fn chars_of(s: &str) -> (v: Vec<char>)
    ensures
        v@ == s@,
{
    let mut v: Vec<char> = Vec::new();
    for c in it: s.chars()
        invariant
            v@ == it.seq().take(it.index() as int),
            it.seq() == s@,
    {
        v.push(c);
    }
    v
}

/// Whether `s` begins with `prefix`.
pub fn starts_with(s: &str, prefix: &str) -> (r: bool)
    ensures
        r == prefix@.is_prefix_of(s@),
{
    let text = chars_of(s);
    let head = chars_of(prefix);
    if text.len() < head.len() {
        return false;
    }
    let mut i: usize = 0;
    while i < head.len()
        invariant
            i <= head.len() <= text.len(),
            text@ == s@,
            head@ == prefix@,
            forall|j: int| 0 <= j < i ==> text@[j] == head@[j],
        decreases head.len() - i,
    {
        if text[i] != head[i] {
            return false;
        }
        i += 1;
    }
    assert(prefix@ =~= s@.subrange(0, prefix@.len() as int));
    true
}

/// What follows `prefix` in `s`, where `s` begins with it.
pub fn strip_prefix<'a>(s: &'a str, prefix: &str) -> (rest: Option<&'a str>)
    ensures
        match rest {
            Some(rest) => prefix@.is_prefix_of(s@) && rest@ == s@.skip(prefix@.len() as int),
            None => !prefix@.is_prefix_of(s@),
        },
{
    if starts_with(s, prefix) {
        let from = prefix.unicode_len();
        let to = s.unicode_len();
        let rest = s.substring_char(from, to);
        assert(rest@ =~= s@.skip(prefix@.len() as int));
        Some(rest)
    } else {
        None
    }
}

/// Whether a character is white space, as Unicode defines the property
/// `White_Space`.
pub open spec fn is_white_space(c: char) -> bool {
    let code = c as u32;
    ||| 0x09 <= code <= 0x0d
    ||| code == 0x20
    ||| code == 0x85
    ||| code == 0xa0
    ||| code == 0x1680
    ||| 0x2000 <= code <= 0x200a
    ||| code == 0x2028
    ||| code == 0x2029
    ||| code == 0x202f
    ||| code == 0x205f
    ||| code == 0x3000
}

/// Whether a text has a character that is not white space: whether
/// anything is left of it once the white space at its ends is taken off.
pub open spec fn is_visible(text: Seq<char>) -> bool {
    exists|i: int| 0 <= i < text.len() && !is_white_space(#[trigger] text[i])
}

/// Whether a character is white space.
pub fn white_space(c: char) -> (r: bool)
    ensures
        r == is_white_space(c),
{
    let code = c as u32;
    (0x09 <= code && code <= 0x0d) || code == 0x20 || code == 0x85 || code == 0xa0 || code
        == 0x1680 || (0x2000 <= code && code <= 0x200a) || code == 0x2028 || code == 0x2029
        || code == 0x202f || code == 0x205f || code == 0x3000
}

/// Whether a text has a character that is not white space.
pub fn visible(s: &str) -> (r: bool)
    ensures
        r == is_visible(s@),
{
    let text = chars_of(s);
    let mut i: usize = 0;
    while i < text.len()
        invariant
            i <= text.len(),
            text@ == s@,
            forall|j: int| 0 <= j < i ==> is_white_space(#[trigger] text@[j]),
        decreases text.len() - i,
    {
        if !white_space(text[i]) {
            return true;
        }
        i += 1;
    }
    false
}

/// Whether `wanted` is one of the listed texts, whole and exact.
pub fn lists(list: &Vec<String>, wanted: &str) -> (r: bool)
    ensures
        r == texts(list@).contains(wanted@),
{
    let mut i: usize = 0;
    while i < list.len()
        invariant
            i <= list.len(),
            forall|j: int| 0 <= j < i ==> texts(list@)[j] != wanted@,
        decreases list.len() - i,
    {
        if same(list[i].as_str(), wanted) {
            assert(texts(list@)[i as int] == wanted@);
            return true;
        }
        i += 1;
    }
    false
}

/// Joins the parts of a list, with a separator between each two.
pub fn join(parts: &Vec<&str>, separator: &str) -> (text: String)
    ensures
        text@ == joined(borrowed_texts(parts@), separator@),
{
    let mut text = String::new();
    let mut i: usize = 0;
    while i < parts.len()
        invariant
            i <= parts.len(),
            text@ == joined(borrowed_texts(parts@).take(i as int), separator@),
        decreases parts.len() - i,
    {
        proof {
            let done = borrowed_texts(parts@).take(i as int);
            let next = borrowed_texts(parts@).take(i + 1);
            assert(next.drop_last() == done);
            assert(next.last() == parts@[i as int]@);
            assert(text@ + Seq::<char>::empty() == text@);
            assert(Seq::<char>::empty() + parts@[i as int]@ == parts@[i as int]@);
        }
        if i > 0 {
            text.append(separator);
        }
        text.append(parts[i]);
        i += 1;
    }
    assert(borrowed_texts(parts@).take(parts.len() as int) == borrowed_texts(parts@));
    text
}

/// A copy of a list of texts.
pub fn copy_texts(list: &Vec<String>) -> (copy: Vec<String>)
    ensures
        texts(copy@) == texts(list@),
{
    let mut copy: Vec<String> = Vec::new();
    let mut i: usize = 0;
    while i < list.len()
        invariant
            i <= list.len(),
            copy.len() == i,
            forall|j: int| 0 <= j < i ==> (#[trigger] copy[j])@ == list[j]@,
        decreases list.len() - i,
    {
        copy.push(list[i].clone());
        i += 1;
    }
    assert(texts(copy@) =~= texts(list@));
    copy
}

/// A copy of a text that is or is not there.
pub fn copy_optional_text(value: &Option<String>) -> (copy: Option<String>)
    ensures
        optional_text(copy) == optional_text(*value),
{
    match value {
        Some(text) => Some(text.clone()),
        None => None,
    }
}

/// A copy of a list of texts that is or is not there.
pub fn copy_optional_texts(value: &Option<Vec<String>>) -> (copy: Option<Vec<String>>)
    ensures
        optional_texts(copy) == optional_texts(*value),
{
    match value {
        Some(list) => Some(copy_texts(list)),
        None => None,
    }
}

/// The pieces of a text between the occurrences of a separator.
pub fn split(s: &str, separator: char) -> (parts: Vec<String>)
    ensures
        texts(parts@) == pieces(s@, separator),
        parts.len() >= 1,
        joined(texts(parts@), seq![separator]) == s@,
{
    let text = chars_of(s);
    let mut parts: Vec<String> = Vec::new();
    let mut start: usize = 0;
    let mut i: usize = 0;
    assert(s@.take(0) =~= Seq::<char>::empty());
    assert(s@.subrange(0, 0) =~= Seq::<char>::empty());
    assert(texts(parts@).push(s@.subrange(0, 0)) =~= seq![Seq::<char>::empty()]);
    while i < text.len()
        invariant
            start <= i <= text.len(),
            text@ == s@,
            pieces(s@.take(i as int), separator) == texts(parts@).push(
                s@.subrange(start as int, i as int),
            ),
        decreases text.len() - i,
    {
        proof {
            let head = s@.take(i + 1);
            assert(head.drop_last() == s@.take(i as int));
            assert(head.last() == text@[i as int]);
            let before = texts(parts@).push(s@.subrange(start as int, i as int));
            assert(before.drop_last() == texts(parts@));
            assert(before.last().push(text@[i as int]) =~= s@.subrange(start as int, i + 1));
        }
        if text[i] == separator {
            let piece = s.substring_char(start, i);
            let ghost closed = texts(parts@);
            parts.push(piece.to_owned());
            start = i + 1;
            proof {
                assert(texts(parts@) =~= closed.push(piece@));
                assert(s@.subrange(start as int, i + 1) =~= Seq::<char>::empty());
            }
        }
        i += 1;
    }
    let piece = s.substring_char(start, i);
    let ghost closed = texts(parts@);
    parts.push(piece.to_owned());
    proof {
        assert(texts(parts@) =~= closed.push(piece@));
        assert(s@.take(i as int) == s@);
        lemma_pieces_len(s@, separator);
        lemma_pieces_joined(s@, separator);
    }
    parts
}

/// Whether `pattern` stands in `text` at the position `at`.
fn matches_at(text: &Vec<char>, pattern: &Vec<char>, at: usize) -> (r: bool)
    requires
        at + pattern.len() <= text.len(),
    ensures
        r == occurs_at(text@, pattern@, at as int),
{
    let mut k: usize = 0;
    while k < pattern.len()
        invariant
            k <= pattern.len(),
            at + pattern.len() <= text.len(),
            forall|j: int| 0 <= j < k ==> text@[at + j] == pattern@[j],
        decreases pattern.len() - k,
    {
        if text[at + k] != pattern[k] {
            assert(text@.subrange(at as int, at + pattern.len())[k as int] != pattern@[k as int]);
            return false;
        }
        k += 1;
    }
    assert(text@.subrange(at as int, at + pattern.len()) =~= pattern@);
    true
}

/// The first position at or after `from` at which `pattern` stands in
/// `text`.
pub fn find_from(text: &Vec<char>, pattern: &Vec<char>, from: usize) -> (found: Option<usize>)
    ensures
        match found {
            Some(at) => from <= at && occurs_at(text@, pattern@, at as int) && forall|before: int|
                from <= before < at ==> !occurs_at(text@, pattern@, before),
            None => forall|at: int| from <= at ==> !occurs_at(text@, pattern@, at),
        },
{
    if pattern.len() > text.len() || from > text.len() - pattern.len() {
        return None;
    }
    let last = text.len() - pattern.len();
    let mut at: usize = from;
    loop
        invariant
            from <= at <= last,
            last == text.len() - pattern.len(),
            forall|before: int| from <= before < at ==> !occurs_at(text@, pattern@, before),
        decreases last - at,
    {
        if matches_at(text, pattern, at) {
            return Some(at);
        }
        if at == last {
            return None;
        }
        at += 1;
    }
}

/// Whether `pattern` stands somewhere in `s`.
pub fn contains(s: &str, pattern: &str) -> (r: bool)
    ensures
        r == occurs(s@, pattern@),
{
    let text = chars_of(s);
    let wanted = chars_of(pattern);
    match find_from(&text, &wanted, 0) {
        Some(at) => {
            assert(occurs_at(s@, pattern@, at as int));
            true
        },
        None => false,
    }
}

/// Whether `s` ends with `suffix`.
pub fn ends_with(s: &str, suffix: &str) -> (r: bool)
    ensures
        r == suffix@.is_suffix_of(s@),
{
    let text = chars_of(s);
    let tail = chars_of(suffix);
    if text.len() < tail.len() {
        return false;
    }
    let at = text.len() - tail.len();
    let r = matches_at(&text, &tail, at);
    assert(s@.subrange(at as int, s@.len() as int) == s@.skip(at as int));
    r
}

/// The length of a text without the repetitions of a suffix at its end:
/// what is left is the text up to that length.
pub fn end_without_suffixes(text: &Vec<char>, suffix: &Vec<char>) -> (end: usize)
    ensures
        end <= text.len(),
        without_suffixes(text@, suffix@) == text@.take(end as int),
{
    let mut end: usize = text.len();
    assert(text@.take(end as int) == text@);
    if suffix.len() == 0 {
        return end;
    }
    while end >= suffix.len()
        invariant
            end <= text.len(),
            suffix.len() > 0,
            without_suffixes(text@, suffix@) == without_suffixes(text@.take(end as int), suffix@),
        decreases end,
    {
        let at = end - suffix.len();
        let ghost head = text@.take(end as int);
        proof {
            assert(head.skip(at as int) =~= text@.subrange(at as int, at + suffix.len()));
        }
        if !matches_at(text, suffix, at) {
            return end;
        }
        proof {
            assert(head.take(head.len() - suffix@.len()) =~= text@.take(at as int));
        }
        end = at;
    }
    end
}

/// The length of the run of a character at the start of a text, up to a
/// limit.
pub fn start_without_leading(text: &Vec<char>, c: char, limit: usize) -> (start: usize)
    requires
        limit <= text.len(),
    ensures
        start <= limit,
        without_leading(text@.take(limit as int), c) == text@.subrange(start as int, limit as int),
{
    let mut start: usize = 0;
    assert(text@.take(limit as int) =~= text@.subrange(0, limit as int));
    while start < limit && text[start] == c
        invariant
            start <= limit <= text.len(),
            without_leading(text@.take(limit as int), c) == without_leading(
                text@.subrange(start as int, limit as int),
                c,
            ),
        decreases limit - start,
    {
        assert(text@.subrange(start as int, limit as int).drop_first() =~= text@.subrange(
            start + 1,
            limit as int,
        ));
        start += 1;
    }
    start
}

/// Whether `a` comes before `b` in the order of texts.
pub fn comes_before(a: &str, b: &str) -> (r: bool)
    ensures
        r == precedes(a@, b@),
{
    let x = chars_of(a);
    let y = chars_of(b);
    let mut i: usize = 0;
    assert(a@.skip(0) == a@ && b@.skip(0) == b@);
    while i < x.len() && i < y.len()
        invariant
            i <= x.len(),
            i <= y.len(),
            x@ == a@,
            y@ == b@,
            precedes(a@, b@) == precedes(a@.skip(i as int), b@.skip(i as int)),
        decreases x.len() - i,
    {
        proof {
            assert(a@.skip(i as int)[0] == x@[i as int]);
            assert(b@.skip(i as int)[0] == y@[i as int]);
            assert(a@.skip(i as int).drop_first() == a@.skip(i + 1));
            assert(b@.skip(i as int).drop_first() == b@.skip(i + 1));
        }
        if x[i] != y[i] {
            return (x[i] as u32) < (y[i] as u32);
        }
        i += 1;
    }
    i < y.len()
}

} // verus!
