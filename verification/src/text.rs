//! Text as sequences of characters: trimming, lines, words, and searching.

use vstd::prelude::*;
use vstd::string::StrSliceExecFns;

verus! {

/// The views of a sequence of strings.
pub open spec fn texts(strings: Seq<String>) -> Seq<Seq<char>> {
    strings.map_values(|s: String| s@)
}

/// `String::push` appends one character to the end of the string.
pub assume_specification[ String::push ](s: &mut String, c: char)
    ensures
        final(s)@ == old(s)@.push(c),
;

/// The characters of `s`, in order.
pub fn chars_of(s: &str) -> (chars: Vec<char>)
    ensures
        chars@ == s@,
{
    let mut chars: Vec<char> = Vec::new();
    for c in it: s.chars()
        invariant
            it.seq() == s@,
            chars@ == s@.take(it.index() as int),
    {
        chars.push(c);
    }
    chars
}

/// Whether `s` has no characters.
pub fn is_empty(s: &str) -> (yes: bool)
    ensures
        yes == (s@.len() == 0),
{
    s.unicode_len() == 0
}

/// The string made of `chars`, in order.
pub fn string_of(chars: &[char]) -> (s: String)
    ensures
        s@ == chars@,
{
    let mut s = String::new();
    let mut i: usize = 0;
    while i < chars.len()
        invariant
            i <= chars.len(),
            s@ == chars@.take(i as int),
        decreases chars.len() - i,
    {
        s.push(chars[i]);
        i += 1;
    }
    assert(chars@.take(chars@.len() as int) == chars@);
    s
}

/// Unicode's `White_Space` property.
pub open spec fn is_white_space(c: char) -> bool {
    let n = c as u32;
    ||| 0x09 <= n <= 0x0d
    ||| n == 0x20
    ||| n == 0x85
    ||| n == 0xa0
    ||| n == 0x1680
    ||| 0x2000 <= n <= 0x200a
    ||| n == 0x2028
    ||| n == 0x2029
    ||| n == 0x202f
    ||| n == 0x205f
    ||| n == 0x3000
}

/// Whether `c` has Unicode's `White_Space` property.
pub fn white_space(c: char) -> (yes: bool)
    ensures
        yes == is_white_space(c),
{
    let n: u32 = c as u32;
    (0x09 <= n && n <= 0x0d) || n == 0x20 || n == 0x85 || n == 0xa0 || n == 0x1680 || (0x2000 <= n
        && n <= 0x200a) || n == 0x2028 || n == 0x2029 || n == 0x202f || n == 0x205f || n == 0x3000
}

/// `s` without the white space it begins with.
pub open spec fn trim_start(s: Seq<char>) -> Seq<char>
    decreases s.len(),
{
    if s.len() > 0 && is_white_space(s.first()) {
        trim_start(s.drop_first())
    } else {
        s
    }
}

/// `s` without the white space it ends with.
pub open spec fn trim_end(s: Seq<char>) -> Seq<char>
    decreases s.len(),
{
    if s.len() > 0 && is_white_space(s.last()) {
        trim_end(s.drop_last())
    } else {
        s
    }
}

/// `s` without white space at either end.
pub open spec fn trimmed(s: Seq<char>) -> Seq<char> {
    trim_end(trim_start(s))
}

/// Copies `chars[from..to]` without white space at either end.
pub fn trim_range(chars: &[char], from: usize, to: usize) -> (s: String)
    requires
        from <= to <= chars.len(),
    ensures
        s@ == trimmed(chars@.subrange(from as int, to as int)),
{
    let ghost whole = chars@.subrange(from as int, to as int);
    let mut start: usize = from;
    while start < to && white_space(chars[start])
        invariant
            from <= start <= to <= chars.len(),
            whole == chars@.subrange(from as int, to as int),
            trim_start(whole) == trim_start(chars@.subrange(start as int, to as int)),
        decreases to - start,
    {
        assert(chars@.subrange(start as int, to as int).drop_first() == chars@.subrange(
            start + 1,
            to as int,
        ));
        start += 1;
    }
    let ghost tail = chars@.subrange(start as int, to as int);
    assert(trim_start(whole) == tail);
    let mut end: usize = to;
    while start < end && white_space(chars[end - 1])
        invariant
            start <= end <= to <= chars.len(),
            tail == chars@.subrange(start as int, to as int),
            trim_end(tail) == trim_end(chars@.subrange(start as int, end as int)),
        decreases end - start,
    {
        assert(chars@.subrange(start as int, end as int).drop_last() == chars@.subrange(
            start as int,
            end - 1,
        ));
        end -= 1;
    }
    string_of(vstd::slice::slice_subrange(chars, start, end))
}

/// `s` without white space at either end.
pub fn trim(s: &str) -> (t: String)
    ensures
        t@ == trimmed(s@),
{
    let chars = chars_of(s);
    assert(chars@.subrange(0, chars@.len() as int) == chars@);
    trim_range(chars.as_slice(), 0, chars.len())
}

/// Where `c` first stands in `s`, or the length of `s` if it does not occur.
pub open spec fn position(s: Seq<char>, c: char) -> nat
    decreases s.len(),
{
    if s.len() == 0 || s.first() == c {
        0
    } else {
        1 + position(s.drop_first(), c)
    }
}

/// Where `c` first stands in `chars[from..to]`, or `to` if it does not occur.
pub fn position_in(chars: &[char], from: usize, to: usize, c: char) -> (at: usize)
    requires
        from <= to <= chars.len(),
    ensures
        from <= at <= to,
        at - from == position(chars@.subrange(from as int, to as int), c),
        at < to ==> chars@[at as int] == c,
{
    let ghost whole = chars@.subrange(from as int, to as int);
    let mut at: usize = from;
    while at < to && chars[at] != c
        invariant
            from <= at <= to <= chars.len(),
            whole == chars@.subrange(from as int, to as int),
            position(whole, c) == at - from + position(chars@.subrange(at as int, to as int), c),
        decreases to - at,
    {
        assert(chars@.subrange(at as int, to as int).drop_first() == chars@.subrange(
            at + 1,
            to as int,
        ));
        at += 1;
    }
    at
}

/// A position never lies beyond the end.
pub proof fn lemma_position_bound(s: Seq<char>, c: char)
    ensures
        position(s, c) <= s.len(),
        position(s, c) < s.len() ==> s[position(s, c) as int] == c,
        forall|i: int| 0 <= i < position(s, c) ==> s[i] != c,
    decreases s.len(),
{
    if s.len() > 0 && s.first() != c {
        lemma_position_bound(s.drop_first(), c);
        assert forall|i: int| 0 <= i < position(s, c) implies s[i] != c by {
            if i > 0 {
                assert(s[i] == s.drop_first()[i - 1]);
            }
        }
    }
}

/// A line that ended in a line feed, without one carriage return before it.
pub open spec fn strip_carriage_return(line: Seq<char>) -> Seq<char> {
    if line.len() > 0 && line.last() == '\r' {
        line.drop_last()
    } else {
        line
    }
}

/// The lines of `s`. Each ends at a line feed, optionally preceded by a
/// carriage return, neither of which belongs to it; the last line may go
/// without, and is then kept as it stands.
pub open spec fn lines(s: Seq<char>) -> Seq<Seq<char>>
    decreases s.len(),
{
    if s.len() == 0 {
        Seq::empty()
    } else {
        let end = position(s, '\n');
        if end >= s.len() {
            seq![s]
        } else {
            seq![strip_carriage_return(s.take(end as int))] + lines(s.skip(end as int + 1))
        }
    }
}

/// The bounds of the line of `chars` that begins at `start`, and where the
/// next one begins.
pub fn line_at(chars: &[char], start: usize) -> (bounds: (usize, usize))
    requires
        start < chars.len(),
    ensures
        start <= bounds.0 <= chars.len(),
        start < bounds.1 <= chars.len(),
        lines(chars@.skip(start as int)) == seq![chars@.subrange(start as int, bounds.0 as int)]
            + lines(chars@.skip(bounds.1 as int)),
{
    let ghost rest = chars@.skip(start as int);
    assert(chars@.subrange(start as int, chars@.len() as int) == rest);
    let end: usize = position_in(chars, start, chars.len(), '\n');
    if end == chars.len() {
        proof {
            assert(chars@.skip(chars@.len() as int).len() == 0);
            assert(lines(chars@.skip(chars@.len() as int)) == Seq::<Seq<char>>::empty());
            assert(lines(rest) == seq![rest]);
            assert(seq![rest] + Seq::<Seq<char>>::empty() == seq![rest]);
        }
        return (end, end);
    }
    let ghost line = chars@.subrange(start as int, end as int);
    proof {
        assert(rest.take(end - start) == line);
        assert(rest.skip(end - start + 1) == chars@.skip(end + 1));
    }
    if end > start && chars[end - 1] == '\r' {
        assert(line.drop_last() == chars@.subrange(start as int, end - 1));
        (end - 1, end + 1)
    } else {
        (end, end + 1)
    }
}

/// Text followed by a line feed and more text has the lines of the one and
/// then the lines of the other.
pub proof fn lemma_lines_concat(a: Seq<char>, b: Seq<char>)
    ensures
        lines(a.push('\n') + b) == lines(a.push('\n')) + lines(b),
    decreases a.len(),
{
    let whole = a.push('\n') + b;
    let first = a.push('\n');
    lemma_position_bound(a, '\n');
    lemma_position_bound(first, '\n');
    lemma_position_bound(whole, '\n');
    let p = position(first, '\n') as int;
    assert(first[a.len() as int] == '\n');
    assert(whole[a.len() as int] == '\n');
    assert(p <= a.len());
    let q = position(whole, '\n') as int;
    assert(q <= a.len());
    if p < q {
        assert(whole[p] == first[p]);
    } else if q < p {
        assert(whole[q] == first[q]);
    }
    assert(whole.take(p) == first.take(p));
    if p == a.len() {
        assert(first.skip(p + 1) == Seq::<char>::empty());
        assert(whole.skip(p + 1) == b);
        assert(lines(first.skip(p + 1)) == Seq::<Seq<char>>::empty());
        assert(lines(first) == seq![strip_carriage_return(first.take(p))]);
    } else {
        let rest = a.skip(p + 1);
        assert(first.skip(p + 1) == rest.push('\n'));
        assert(whole.skip(p + 1) == rest.push('\n') + b);
        lemma_lines_concat(rest, b);
        let head = seq![strip_carriage_return(first.take(p))];
        assert(head + (lines(rest.push('\n')) + lines(b)) == (head + lines(rest.push('\n')))
            + lines(b));
    }
}

/// Whether `needle` stands in `hay` at `at`.
pub open spec fn occurs_at(hay: Seq<char>, needle: Seq<char>, at: int) -> bool {
    0 <= at && at + needle.len() <= hay.len() && hay.subrange(at, at + needle.len()) == needle
}

/// Whether `needle` stands anywhere in `hay`.
pub open spec fn has_text(hay: Seq<char>, needle: Seq<char>) -> bool {
    exists|at: int| occurs_at(hay, needle, at)
}

/// Where `needle` first stands in `hay` at or after `from`.
pub open spec fn find_text(hay: Seq<char>, needle: Seq<char>, from: int) -> Option<int>
    decreases hay.len() + 1 - from,
{
    if from + needle.len() > hay.len() {
        None
    } else if occurs_at(hay, needle, from) {
        Some(from)
    } else {
        find_text(hay, needle, from + 1)
    }
}

/// `find_text` finds the first occurrence, and finds one if there is one.
pub proof fn lemma_find_text(hay: Seq<char>, needle: Seq<char>, from: int)
    requires
        0 <= from,
    ensures
        match find_text(hay, needle, from) {
            Some(at) => from <= at && occurs_at(hay, needle, at) && forall|i: int|
                from <= i < at ==> !occurs_at(hay, needle, i),
            None => forall|i: int| from <= i ==> !occurs_at(hay, needle, i),
        },
    decreases hay.len() + 1 - from,
{
    if from + needle.len() <= hay.len() && !occurs_at(hay, needle, from) {
        lemma_find_text(hay, needle, from + 1);
    }
}

fn matches_at(hay: &[char], needle: &[char], at: usize) -> (yes: bool)
    requires
        at + needle.len() <= hay.len(),
    ensures
        yes == occurs_at(hay@, needle@, at as int),
{
    let ghost window = hay@.subrange(at as int, at + needle.len());
    let mut i: usize = 0;
    while i < needle.len()
        invariant
            i <= needle.len(),
            at + needle.len() <= hay.len(),
            window == hay@.subrange(at as int, at + needle.len()),
            forall|j: int| 0 <= j < i ==> hay@[at + j] == needle@[j],
        decreases needle.len() - i,
    {
        if hay[at + i] != needle[i] {
            assert(window[i as int] != needle@[i as int]);
            return false;
        }
        i += 1;
    }
    assert(window == needle@);
    true
}

/// Where `needle` first stands in `hay` at or after `from`.
pub fn find(hay: &[char], needle: &[char], from: usize) -> (at: Option<usize>)
    requires
        from <= hay.len(),
    ensures
        match at {
            Some(i) => find_text(hay@, needle@, from as int) == Some(i as int) && from <= i && i
                + needle.len() <= hay.len(),
            None => find_text(hay@, needle@, from as int) is None,
        },
{
    let mut i: usize = from;
    while needle.len() <= hay.len() - i
        invariant
            from <= i <= hay.len(),
            find_text(hay@, needle@, from as int) == find_text(hay@, needle@, i as int),
        decreases hay.len() - i,
    {
        if matches_at(hay, needle, i) {
            return Some(i);
        }
        proof {
            if needle@.len() == 0 {
                assert(hay@.subrange(i as int, i as int) == needle@);
            }
        }
        i += 1;
    }
    None
}

/// Whether `needle` stands anywhere in `hay`.
pub fn contains(hay: &str, needle: &str) -> (yes: bool)
    ensures
        yes == has_text(hay@, needle@),
{
    let hay_chars = chars_of(hay);
    let needle_chars = chars_of(needle);
    let at = find(hay_chars.as_slice(), needle_chars.as_slice(), 0);
    proof {
        lemma_find_text(hay@, needle@, 0);
    }
    at.is_some()
}

/// `s` up to, and without, its first white space.
pub open spec fn up_to_white_space(s: Seq<char>) -> Seq<char>
    decreases s.len(),
{
    if s.len() == 0 || is_white_space(s.first()) {
        Seq::empty()
    } else {
        seq![s.first()] + up_to_white_space(s.drop_first())
    }
}

/// The first stretch of `s` without white space: empty if `s` is blank.
pub open spec fn first_word(s: Seq<char>) -> Seq<char> {
    up_to_white_space(trim_start(s))
}

/// The bounds of the first word of `chars[from..to]`.
pub fn first_word_in(chars: &[char], from: usize, to: usize) -> (bounds: (usize, usize))
    requires
        from <= to <= chars.len(),
    ensures
        from <= bounds.0 <= bounds.1 <= to,
        chars@.subrange(bounds.0 as int, bounds.1 as int) == first_word(
            chars@.subrange(from as int, to as int),
        ),
{
    let ghost whole = chars@.subrange(from as int, to as int);
    let mut start: usize = from;
    while start < to && white_space(chars[start])
        invariant
            from <= start <= to <= chars.len(),
            whole == chars@.subrange(from as int, to as int),
            trim_start(whole) == trim_start(chars@.subrange(start as int, to as int)),
        decreases to - start,
    {
        assert(chars@.subrange(start as int, to as int).drop_first() == chars@.subrange(
            start + 1,
            to as int,
        ));
        start += 1;
    }
    let ghost tail = chars@.subrange(start as int, to as int);
    assert(trim_start(whole) == tail);
    let mut end: usize = start;
    assert(chars@.subrange(start as int, start as int) + up_to_white_space(tail)
        == up_to_white_space(tail));
    while end < to && !white_space(chars[end])
        invariant
            start <= end <= to <= chars.len(),
            up_to_white_space(tail) == chars@.subrange(start as int, end as int)
                + up_to_white_space(chars@.subrange(end as int, to as int)),
        decreases to - end,
    {
        let ghost rest = chars@.subrange(end as int, to as int);
        proof {
            assert(rest.drop_first() == chars@.subrange(end + 1, to as int));
            assert(chars@.subrange(start as int, end as int) + (seq![rest.first()]
                + up_to_white_space(rest.drop_first())) == chars@.subrange(start as int, end + 1)
                + up_to_white_space(rest.drop_first()));
        }
        end += 1;
    }
    assert(up_to_white_space(chars@.subrange(end as int, to as int)) == Seq::<char>::empty());
    assert(chars@.subrange(start as int, end as int) + Seq::<char>::empty() == chars@.subrange(
        start as int,
        end as int,
    ));
    (start, end)
}

/// Whether a text is made of white space, or empty.
pub open spec fn blank(s: Seq<char>) -> bool {
    forall|i: int| 0 <= i < s.len() ==> is_white_space(#[trigger] s[i])
}

/// Of the ASCII characters, the space, the tab, the line feed, the carriage
/// return, and the vertical tab and form feed between these two are white
/// space, and no others. Outside ASCII, the no-break and the ideographic space
/// are.
pub proof fn the_blanks_are_white_space(c: char)
    ensures
        (c as u32) < 128 ==> (is_white_space(c) <==> c == ' ' || c == '\t' || c == '\n' || c == '\r'
            || c as u32 == 0x0b || c as u32 == 0x0c),
        c as u32 == 0xa0 || c as u32 == 0x3000 || c as u32 == 0x2028 || c as u32 == 0x85
            ==> is_white_space(c),
        0xa0 < c as u32 <= 0x167f ==> !is_white_space(c),
        0x3000 < c as u32 ==> !is_white_space(c),
{
    assert((c as u32) < 128 && c as u32 == 0x09 ==> c == '\t');
    assert((c as u32) < 128 && c as u32 == 0x0a ==> c == '\n');
    assert((c as u32) < 128 && c as u32 == 0x0d ==> c == '\r');
    assert((c as u32) < 128 && c as u32 == 0x20 ==> c == ' ');
}

proof fn lemma_trim_start_of(before: Seq<char>, rest: Seq<char>)
    requires
        blank(before),
        rest.len() > 0 ==> !is_white_space(rest.first()),
    ensures
        trim_start(before + rest) == rest,
    decreases before.len(),
{
    if before.len() == 0 {
        assert(before + rest == rest);
    } else {
        assert(is_white_space(before[0]));
        assert((before + rest).first() == before[0]);
        assert((before + rest).drop_first() == before.drop_first() + rest);
        assert forall|i: int| 0 <= i < before.drop_first().len() implies is_white_space(
            #[trigger] before.drop_first()[i],
        ) by {
            assert(before.drop_first()[i] == before[i + 1]);
        }
        lemma_trim_start_of(before.drop_first(), rest);
    }
}

proof fn lemma_trim_end_of(rest: Seq<char>, after: Seq<char>)
    requires
        blank(after),
        rest.len() > 0 ==> !is_white_space(rest.last()),
    ensures
        trim_end(rest + after) == rest,
    decreases after.len(),
{
    if after.len() == 0 {
        assert(rest + after == rest);
    } else {
        assert(is_white_space(after[after.len() - 1]));
        assert((rest + after).last() == after.last());
        assert((rest + after).drop_last() == rest + after.drop_last());
        lemma_trim_end_of(rest, after.drop_last());
    }
}

/// Trimming takes the white space off both ends and nothing else: whatever
/// does not begin or end with white space is left as it is, with all that is
/// inside it.
pub proof fn only_the_ends_are_trimmed(before: Seq<char>, inner: Seq<char>, after: Seq<char>)
    requires
        blank(before),
        blank(after),
        inner.len() > 0 ==> !is_white_space(inner.first()) && !is_white_space(inner.last()),
    ensures
        trimmed(before + inner + after) == inner,
{
    if inner.len() == 0 {
        let white = before + after;
        assert(before + inner + after == white + Seq::<char>::empty());
        assert forall|i: int| 0 <= i < white.len() implies is_white_space(#[trigger] white[i]) by {
            if i < before.len() {
                assert(is_white_space(before[i]));
            } else {
                assert(is_white_space(after[i - before.len()]));
            }
        }
        lemma_trim_start_of(white, Seq::empty());
        assert(inner == Seq::<char>::empty());
    } else {
        assert(before + inner + after == before + (inner + after));
        assert((inner + after).first() == inner.first());
        lemma_trim_start_of(before, inner + after);
        lemma_trim_end_of(inner, after);
    }
}

/// Nothing is left of a text by trimming exactly if it is blank.
pub proof fn only_blanks_trim_to_nothing(s: Seq<char>)
    ensures
        trimmed(s).len() == 0 <==> blank(s),
    decreases s.len(),
{
    if blank(s) {
        only_the_ends_are_trimmed(s, Seq::empty(), Seq::empty());
        assert(s + Seq::<char>::empty() + Seq::<char>::empty() == s);
    } else if is_white_space(s.first()) {
        let rest = s.drop_first();
        only_blanks_trim_to_nothing(rest);
        let i = choose|i: int| 0 <= i < s.len() && !is_white_space(#[trigger] s[i]);
        assert(rest[i - 1] == s[i]);
    } else {
        assert(trim_start(s) == s);
        lemma_trim_end_keeps_the_front(s);
    }
}

proof fn lemma_trim_end_keeps_the_front(s: Seq<char>)
    requires
        s.len() > 0,
        !is_white_space(s.first()),
    ensures
        trim_end(s).len() > 0,
    decreases s.len(),
{
    if is_white_space(s.last()) {
        assert(s.len() > 1);
        assert(s.drop_last().first() == s.first());
        lemma_trim_end_keeps_the_front(s.drop_last());
    }
}

/// A line ends at the first line feed, which does not belong to it, and
/// neither does a carriage return right before that. What follows begins a
/// new line.
pub proof fn a_line_ends_at_a_line_feed(line: Seq<char>, rest: Seq<char>)
    requires
        !line.contains('\n'),
        line.len() > 0 ==> line.last() != '\r',
    ensures
        lines(line + seq!['\n'] + rest) == seq![line] + lines(rest),
        lines(line + seq!['\r', '\n'] + rest) == seq![line] + lines(rest),
{
    lemma_line_ends(line, rest);
    let returned = line.push('\r');
    assert(!returned.contains('\n')) by {
        if returned.contains('\n') {
            let i = returned.index_of('\n');
            assert(line[i] == '\n');
        }
    }
    lemma_line_ends(returned, rest);
    assert(line + seq!['\r', '\n'] + rest == returned + seq!['\n'] + rest);
    assert(returned.drop_last() == line);
}

proof fn lemma_line_ends(line: Seq<char>, rest: Seq<char>)
    requires
        !line.contains('\n'),
    ensures
        lines(line + seq!['\n'] + rest) == seq![strip_carriage_return(line)] + lines(rest),
{
    let whole = line + seq!['\n'] + rest;
    let n = line.len() as int;
    lemma_position_bound(whole, '\n');
    let p = position(whole, '\n') as int;
    assert(whole[n] == '\n');
    if p < n {
        assert(line[p] == '\n');
    }
    assert(whole.take(n) == line);
    assert(whole.skip(n + 1) == rest);
}

/// Text without a line feed is one line, and no text is none.
pub proof fn the_last_line_needs_no_line_feed(line: Seq<char>)
    requires
        !line.contains('\n'),
    ensures
        line.len() > 0 ==> lines(line) == seq![line],
        line.len() == 0 ==> lines(line) == Seq::<Seq<char>>::empty(),
{
    lemma_position_bound(line, '\n');
    if position(line, '\n') < line.len() {
        assert(line[position(line, '\n') as int] == '\n');
    }
}

/// A text is found exactly where it stands: searching says yes if and only if
/// the text is a stretch of what is searched.
pub proof fn searching_finds_what_is_there(hay: &str, needle: &str, yes: bool)
    requires
        call_ensures(contains, (hay, needle), yes),
    ensures
        yes <==> exists|before: Seq<char>, after: Seq<char>|
            #[trigger] (before + needle@ + after) == hay@,
{
    if yes {
        let at = choose|at: int| occurs_at(hay@, needle@, at);
        let before = hay@.take(at);
        let after = hay@.skip(at + needle@.len());
        assert(before + needle@ + after == hay@);
    }
    if exists|before: Seq<char>, after: Seq<char>|
        #[trigger] (before + needle@ + after) == hay@ {
        let (before, after) = choose|before: Seq<char>, after: Seq<char>|
            #[trigger] (before + needle@ + after) == hay@;
        assert(hay@.subrange(before.len() as int, (before.len() + needle@.len()) as int)
            == needle@);
        assert(occurs_at(hay@, needle@, before.len() as int));
    }
}

proof fn lemma_word(word: Seq<char>, rest: Seq<char>)
    requires
        forall|i: int| 0 <= i < word.len() ==> !is_white_space(#[trigger] word[i]),
        rest.len() > 0 ==> is_white_space(rest.first()),
    ensures
        up_to_white_space(word + rest) == word,
    decreases word.len(),
{
    if word.len() == 0 {
        assert(word + rest == rest);
        assert(up_to_white_space(rest) == Seq::<char>::empty());
    } else {
        assert(!is_white_space(word[0]));
        assert forall|i: int| 0 <= i < word.drop_first().len() implies !is_white_space(
            #[trigger] word.drop_first()[i],
        ) by {
            assert(word.drop_first()[i] == word[i + 1]);
        }
        lemma_word(word.drop_first(), rest);
        assert((word + rest).drop_first() == word.drop_first() + rest);
        assert((word + rest).first() == word[0]);
        assert(seq![word[0]] + word.drop_first() == word);
    }
}

/// The first word is what stands between the white space a text begins with
/// and the next white space, or the end.
pub proof fn the_first_word_stands_between_blanks(
    before: Seq<char>,
    word: Seq<char>,
    after: Seq<char>,
)
    requires
        blank(before),
        forall|i: int| 0 <= i < word.len() ==> !is_white_space(#[trigger] word[i]),
        word.len() > 0,
        after.len() > 0 ==> is_white_space(after.first()),
    ensures
        first_word(before + word + after) == word,
{
    assert(before + word + after == before + (word + after));
    assert((word + after).first() == word[0]);
    lemma_trim_start_of(before, word + after);
    lemma_word(word, after);
}

} // verus!
