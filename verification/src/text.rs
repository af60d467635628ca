//! Text operations on `&str` and `String`, specified over sequences of characters.

use vstd::prelude::*;

verus! {

/// `String::push` appends one character to the end of the string.
pub assume_specification[ String::push ](s: &mut String, c: char)
    ensures
        final(s)@ == old(s)@.push(c),
;

/// The characters with the Unicode property `White_Space`.
pub open spec fn is_white_space(c: char) -> bool {
    ||| '\u{9}' <= c <= '\u{d}'
    ||| c == '\u{20}'
    ||| c == '\u{85}'
    ||| c == '\u{a0}'
    ||| c == '\u{1680}'
    ||| '\u{2000}' <= c <= '\u{200a}'
    ||| c == '\u{2028}'
    ||| c == '\u{2029}'
    ||| c == '\u{202f}'
    ||| c == '\u{205f}'
    ||| c == '\u{3000}'
}

/// `s` without its leading white space.
pub open spec fn without_leading_space(s: Seq<char>) -> Seq<char>
    decreases s.len(),
{
    if s.len() > 0 && is_white_space(s.first()) {
        without_leading_space(s.drop_first())
    } else {
        s
    }
}

/// `s` without its trailing white space.
pub open spec fn without_trailing_space(s: Seq<char>) -> Seq<char>
    decreases s.len(),
{
    if s.len() > 0 && is_white_space(s.last()) {
        without_trailing_space(s.drop_last())
    } else {
        s
    }
}

/// `s` without leading and trailing white space.
pub open spec fn trimmed(s: Seq<char>) -> Seq<char> {
    without_trailing_space(without_leading_space(s))
}

/// Whether `s` holds nothing but white space.
pub open spec fn is_blank(s: Seq<char>) -> bool {
    trimmed(s).len() == 0
}

/// The lower-case form of an ASCII letter; every other character stays as it is.
pub open spec fn ascii_lower(c: char) -> char {
    if 'A' <= c <= 'Z' {
        (c as u8 + 32) as char
    } else {
        c
    }
}

/// The upper-case form of an ASCII letter; every other character stays as it is.
pub open spec fn ascii_upper(c: char) -> char {
    if 'a' <= c <= 'z' {
        (c as u8 - 32) as char
    } else {
        c
    }
}

/// `s` with its ASCII letters in lower case.
pub open spec fn lowered(s: Seq<char>) -> Seq<char> {
    s.map_values(|c: char| ascii_lower(c))
}

fn white_space(c: char) -> (yes: bool)
    ensures
        yes == is_white_space(c),
{
    ('\u{9}' <= c && c <= '\u{d}') || c == '\u{20}' || c == '\u{85}' || c == '\u{a0}' || c
        == '\u{1680}' || ('\u{2000}' <= c && c <= '\u{200a}') || c == '\u{2028}' || c == '\u{2029}'
        || c == '\u{202f}' || c == '\u{205f}' || c == '\u{3000}'
}

/// The characters of `s`, in order.
pub fn characters(s: &str) -> (chars: Vec<char>)
    ensures
        chars@ == s@,
{
    let mut chars: Vec<char> = Vec::new();
    for c in it: s.chars()
        invariant
            chars@ == it.seq().take(it.index() as int),
            it.seq() == s@,
    {
        chars.push(c);
    }
    chars
}

proof fn lemma_leading_space(s: Seq<char>, start: int)
    requires
        0 <= start <= s.len(),
        forall|j: int| 0 <= j < start ==> is_white_space(#[trigger] s[j]),
        start == s.len() || !is_white_space(s[start]),
    ensures
        without_leading_space(s) == s.skip(start),
    decreases s.len(),
{
    if start == 0 {
        assert(s.skip(0) == s);
    } else {
        assert(s.first() == s[0]);
        assert forall|j: int| 0 <= j < start - 1 implies is_white_space(
            #[trigger] s.drop_first()[j],
        ) by {
            assert(s.drop_first()[j] == s[j + 1]);
        }
        lemma_leading_space(s.drop_first(), start - 1);
        assert(s.drop_first().skip(start - 1) == s.skip(start));
    }
}

proof fn lemma_trailing_space(s: Seq<char>, end: int)
    requires
        0 <= end <= s.len(),
        forall|j: int| end <= j < s.len() ==> is_white_space(#[trigger] s[j]),
        end == 0 || !is_white_space(s[end - 1]),
    ensures
        without_trailing_space(s) == s.take(end),
    decreases s.len(),
{
    if end == s.len() {
        assert(s.take(end) == s);
    } else {
        assert(s.last() == s[s.len() - 1]);
        lemma_trailing_space(s.drop_last(), end);
        assert(s.drop_last().take(end) == s.take(end));
    }
}

/// The bounds of the trimmed text: `trimmed(s)` is `s` between them.
pub proof fn lemma_trimmed_is_subrange(s: Seq<char>) -> (bounds: (int, int))
    ensures
        0 <= bounds.0 <= bounds.1 <= s.len(),
        trimmed(s) == s.subrange(bounds.0, bounds.1),
        bounds.0 == bounds.1 || (!is_white_space(s[bounds.0]) && !is_white_space(s[bounds.1 - 1])),
{
    let start = lemma_leading_bound(s);
    lemma_leading_space(s, start);
    let rest = s.skip(start);
    let end = lemma_trailing_bound(rest);
    lemma_trailing_space(rest, end);
    assert(rest.take(end) == s.subrange(start, start + end));
    if end > 0 {
        assert(rest[0] == s[start]);
        assert(rest[end - 1] == s[start + end - 1]);
    }
    (start, start + end)
}

proof fn lemma_leading_bound(s: Seq<char>) -> (start: int)
    ensures
        0 <= start <= s.len(),
        forall|j: int| 0 <= j < start ==> is_white_space(#[trigger] s[j]),
        start == s.len() || !is_white_space(s[start]),
    decreases s.len(),
{
    if s.len() > 0 && is_white_space(s[0]) {
        let rest = s.drop_first();
        let start = lemma_leading_bound(rest) + 1;
        assert forall|j: int| 0 <= j < start implies is_white_space(#[trigger] s[j]) by {
            if j > 0 {
                assert(rest[j - 1] == s[j]);
            }
        }
        if start < s.len() {
            assert(rest[start - 1] == s[start]);
        }
        start
    } else {
        0
    }
}

proof fn lemma_trailing_bound(s: Seq<char>) -> (end: int)
    ensures
        0 <= end <= s.len(),
        forall|j: int| end <= j < s.len() ==> is_white_space(#[trigger] s[j]),
        end == 0 || !is_white_space(s[end - 1]),
    decreases s.len(),
{
    if s.len() > 0 && is_white_space(s.last()) {
        let rest = s.drop_last();
        let end = lemma_trailing_bound(rest);
        assert forall|j: int| end <= j < s.len() implies is_white_space(#[trigger] s[j]) by {
            if j < rest.len() {
                assert(rest[j] == s[j]);
            }
        }
        end
    } else {
        s.len() as int
    }
}

/// Text that neither starts nor ends with white space is its own trimmed form.
pub proof fn lemma_trimmed_fixed(s: Seq<char>)
    requires
        s.len() == 0 || (!is_white_space(s.first()) && !is_white_space(s.last())),
    ensures
        trimmed(s) == s,
{
}

/// Trimming twice gives what trimming once gives.
pub proof fn lemma_trimmed_idempotent(s: Seq<char>)
    ensures
        trimmed(trimmed(s)) == trimmed(s),
{
    let (start, end) = lemma_trimmed_is_subrange(s);
    let t = s.subrange(start, end);
    if start < end {
        assert(t.first() == s[start]);
        assert(t.last() == s[end - 1]);
    }
    lemma_trimmed_fixed(t);
}

/// `s` without leading and trailing white space.
pub fn trim(s: &str) -> (t: &str)
    ensures
        t@ == trimmed(s@),
{
    let chars = characters(s);
    let count: usize = chars.len();
    let mut start: usize = 0;
    while start < count && white_space(chars[start])
        invariant
            count == chars.len(),
            start <= count,
            forall|j: int| 0 <= j < start ==> is_white_space(#[trigger] chars@[j]),
        decreases count - start,
    {
        start = start + 1;
    }
    let mut end: usize = count;
    while end > start && white_space(chars[end - 1])
        invariant
            count == chars.len(),
            start <= end <= count,
            forall|j: int| end <= j < count ==> is_white_space(#[trigger] chars@[j]),
        decreases end,
    {
        end = end - 1;
    }
    proof {
        lemma_leading_space(s@, start as int);
        let rest = s@.skip(start as int);
        assert forall|j: int| end - start <= j < rest.len() implies is_white_space(
            #[trigger] rest[j],
        ) by {
            assert(rest[j] == chars@[j + start]);
        }
        if end > start {
            assert(rest[end - start - 1] == chars@[end - 1]);
        }
        lemma_trailing_space(rest, end - start);
        assert(rest.take(end - start) == s@.subrange(start as int, end as int));
    }
    s.substring_char(start, end)
}

/// A text that trimming leaves alone neither starts nor ends with white space.
pub proof fn lemma_trimmed_ends(s: Seq<char>)
    requires
        s.len() > 0,
        trimmed(s) == s,
    ensures
        !is_white_space(s.first()),
        !is_white_space(s.last()),
{
    let (start, end) = lemma_trimmed_is_subrange(s);
    assert(start == 0 && end == s.len());
}

/// A text with a character that is no white space is not blank.
pub proof fn lemma_not_blank(s: Seq<char>, at: int)
    requires
        0 <= at < s.len(),
        !is_white_space(s[at]),
    ensures
        !is_blank(s),
{
    let start = lemma_leading_bound(s);
    lemma_leading_space(s, start);
    let rest = s.skip(start);
    let end = lemma_trailing_bound(rest);
    lemma_trailing_space(rest, end);
    assert(rest[at - start] == s[at]);
}

/// Whether `s` holds nothing but white space.
pub fn blank(s: &str) -> (yes: bool)
    ensures
        yes == is_blank(s@),
{
    trim(s).is_empty()
}

/// Whether the two texts are the same.
pub fn same(a: &str, b: &str) -> (yes: bool)
    ensures
        yes == (a@ == b@),
{
    a.to_owned() == b.to_owned()
}

fn lower_char(c: char) -> (l: char)
    ensures
        l == ascii_lower(c),
{
    if 'A' <= c && c <= 'Z' {
        (c as u8 + 32) as char
    } else {
        c
    }
}

/// The upper-case form of an ASCII letter; every other character stays as it is.
pub fn upper_char(c: char) -> (u: char)
    ensures
        u == ascii_upper(c),
{
    if 'a' <= c && c <= 'z' {
        (c as u8 - 32) as char
    } else {
        c
    }
}

/// `s` with its ASCII letters in lower case.
pub fn to_lower(s: &str) -> (l: String)
    ensures
        l@ == lowered(s@),
{
    let mut l = String::new();
    for c in it: s.chars()
        invariant
            it.seq() == s@,
            l@ == lowered(s@.take(it.index() as int)),
    {
        l.push(lower_char(c));
        proof {
            assert(s@.take(it.index() + 1) == s@.take(it.index() as int).push(c));
            assert(l@ == lowered(s@.take(it.index() + 1)));
        }
    }
    assert(s@.take(s@.len() as int) == s@);
    l
}

/// Whether the two texts agree up to the case of ASCII letters.
pub fn same_ignoring_case(a: &str, b: &str) -> (yes: bool)
    ensures
        yes == (lowered(a@) == lowered(b@)),
{
    to_lower(a) == to_lower(b)
}

/// Whether `needle` occurs in `haystack` as a run of adjacent characters.
pub open spec fn occurs_in(needle: Seq<char>, haystack: Seq<char>) -> bool {
    exists|at: int|
        0 <= at <= haystack.len() - needle.len() && #[trigger] haystack.subrange(
            at,
            at + needle.len(),
        ) == needle
}

/// Whether `needle` occurs in `haystack`.
pub fn contains(haystack: &str, needle: &str) -> (yes: bool)
    ensures
        yes == occurs_in(needle@, haystack@),
{
    let count: usize = haystack.unicode_len();
    let width: usize = needle.unicode_len();
    if width > count {
        return false;
    }
    let mut at: usize = 0;
    while at <= count - width
        invariant
            count == haystack@.len(),
            width == needle@.len(),
            width <= count,
            at <= count - width + 1,
            forall|k: int|
                0 <= k < at ==> #[trigger] haystack@.subrange(k, k + width) != needle@,
        decreases count - width + 1 - at,
    {
        if same(haystack.substring_char(at, at + width), needle) {
            assert(haystack@.subrange(at as int, at + width) == needle@);
            return true;
        }
        if at == count - width {
            return false;
        }
        at = at + 1;
    }
    false
}

/// The position of the last `c` in `s`, or `-1`.
pub open spec fn last_position(s: Seq<char>, c: char) -> int
    decreases s.len(),
{
    if s.len() == 0 {
        -1
    } else if s.last() == c {
        s.len() - 1
    } else {
        last_position(s.drop_last(), c)
    }
}

/// The position of the first `c` in `s`, or the length of `s`.
pub open spec fn first_position(s: Seq<char>, c: char) -> int
    decreases s.len(),
{
    if s.len() == 0 || s.first() == c {
        0
    } else {
        1 + first_position(s.drop_first(), c)
    }
}

/// What stands before and after the last `c` of `s`, where there is one.
pub open spec fn split_at_last(s: Seq<char>, c: char) -> Option<(Seq<char>, Seq<char>)> {
    let at = last_position(s, c);
    if at < 0 {
        None
    } else {
        Some((s.take(at), s.skip(at + 1)))
    }
}

/// What stands before the first `c` of `s`; all of `s` where there is none.
pub open spec fn before_first(s: Seq<char>, c: char) -> Seq<char> {
    s.take(first_position(s, c))
}

/// `last_position` is the last occurrence.
pub proof fn lemma_last_position(s: Seq<char>, c: char, at: int)
    requires
        -1 <= at < s.len(),
        at >= 0 ==> s[at] == c,
        forall|j: int| at < j < s.len() ==> #[trigger] s[j] != c,
    ensures
        last_position(s, c) == at,
    decreases s.len(),
{
    if s.len() > 0 && at != s.len() - 1 {
        assert(s[s.len() - 1] != c);
        lemma_last_position(s.drop_last(), c, at);
    }
}

proof fn lemma_first_position(s: Seq<char>, c: char, at: int)
    requires
        0 <= at <= s.len(),
        at < s.len() ==> s[at] == c,
        forall|j: int| 0 <= j < at ==> #[trigger] s[j] != c,
    ensures
        first_position(s, c) == at,
    decreases s.len(),
{
    if at > 0 {
        let rest = s.drop_first();
        assert(s[0] != c);
        assert forall|j: int| 0 <= j < at - 1 implies #[trigger] rest[j] != c by {
            assert(rest[j] == s[j + 1]);
        }
        lemma_first_position(rest, c, at - 1);
    }
}

/// `first_position` is an occurrence, or the end.
pub proof fn lemma_at_first_position(s: Seq<char>, c: char)
    ensures
        0 <= first_position(s, c) <= s.len(),
        first_position(s, c) < s.len() ==> s[first_position(s, c)] == c,
    decreases s.len(),
{
    if s.len() > 0 && s.first() != c {
        lemma_at_first_position(s.drop_first(), c);
    }
}

/// Splits `s` at its last `c`.
pub fn rsplit_once(s: &str, c: char) -> (parts: Option<(&str, &str)>)
    ensures
        match parts {
            Some(p) => split_at_last(s@, c) == Some((p.0@, p.1@)),
            None => split_at_last(s@, c) is None,
        },
{
    let chars = characters(s);
    let count: usize = chars.len();
    let mut end: usize = count;
    while end > 0 && chars[end - 1] != c
        invariant
            count == chars.len(),
            end <= count,
            forall|j: int| end <= j < count ==> #[trigger] chars@[j] != c,
        decreases end,
    {
        end = end - 1;
    }
    proof {
        lemma_last_position(s@, c, end - 1);
    }
    if end == 0 {
        return None;
    }
    assert(s@.subrange(0, end - 1) == s@.take(end - 1));
    assert(s@.subrange(end as int, count as int) == s@.skip(end as int));
    Some((s.substring_char(0, end - 1), s.substring_char(end, count)))
}

/// What stands before the first `c` of `s`.
pub fn first_segment(s: &str, c: char) -> (head: &str)
    ensures
        head@ == before_first(s@, c),
{
    let chars = characters(s);
    let count: usize = chars.len();
    let mut end: usize = 0;
    while end < count && chars[end] != c
        invariant
            count == chars.len(),
            end <= count,
            forall|j: int| 0 <= j < end ==> #[trigger] chars@[j] != c,
        decreases count - end,
    {
        end = end + 1;
    }
    proof {
        lemma_first_position(s@, c, end as int);
        assert(s@.subrange(0, end as int) == s@.take(end as int));
    }
    s.substring_char(0, end)
}

/// What follows `prefix` in `s`, where `s` starts with it.
pub open spec fn after_prefix(s: Seq<char>, prefix: Seq<char>) -> Option<Seq<char>> {
    if prefix.is_prefix_of(s) {
        Some(s.skip(prefix.len() as int))
    } else {
        None
    }
}

/// Removes `prefix` from the front of `s`.
pub fn strip_prefix<'a>(s: &'a str, prefix: &str) -> (rest: Option<&'a str>)
    ensures
        match rest {
            Some(r) => after_prefix(s@, prefix@) == Some(r@),
            None => after_prefix(s@, prefix@) is None,
        },
{
    let count: usize = s.unicode_len();
    let width: usize = prefix.unicode_len();
    if width > count {
        return None;
    }
    if same(s.substring_char(0, width), prefix) {
        assert(s@.subrange(width as int, count as int) == s@.skip(width as int));
        Some(s.substring_char(width, count))
    } else {
        None
    }
}

/// The texts that the strings hold.
pub open spec fn texts(parts: Seq<String>) -> Seq<Seq<char>> {
    parts.map_values(|part: String| part@)
}

/// The parts in order, with `separator` between each two neighbours.
pub open spec fn joined(parts: Seq<Seq<char>>, separator: Seq<char>) -> Seq<char>
    decreases parts.len(),
{
    if parts.len() == 0 {
        Seq::empty()
    } else if parts.len() == 1 {
        parts.first()
    } else {
        joined(parts.drop_last(), separator) + separator + parts.last()
    }
}

/// Joins the parts with `separator`.
pub fn join(parts: &Vec<String>, separator: &str) -> (text: String)
    ensures
        text@ == joined(texts(parts@), separator@),
{
    let mut text = String::new();
    let mut done: usize = 0;
    while done < parts.len()
        invariant
            done <= parts.len(),
            text@ == joined(texts(parts@).take(done as int), separator@),
        decreases parts.len() - done,
    {
        let ghost before = texts(parts@).take(done as int);
        if done > 0 {
            text.append(separator);
        }
        text.append(parts[done].as_str());
        done = done + 1;
        proof {
            let now = texts(parts@).take(done as int);
            assert(now.drop_last() == before);
            assert(now.last() == parts@[done - 1]@);
            if done == 1 {
                assert(now.first() == parts@[0]@);
                assert(text@ == now.first());
            }
        }
    }
    assert(texts(parts@).take(parts.len() as int) == texts(parts@));
    text
}

/// A part occurs in a text that is put together from it and what stands around it.
pub proof fn lemma_occurs_in_part(before: Seq<char>, part: Seq<char>, after: Seq<char>)
    ensures
        occurs_in(part, before + part + after),
{
    let whole = before + part + after;
    let at = before.len() as int;
    assert(whole.subrange(at, at + part.len()) == part);
}

/// What occurs in a text occurs in every text that the first one occurs in.
pub proof fn lemma_occurs_transitive(inner: Seq<char>, middle: Seq<char>, outer: Seq<char>)
    requires
        occurs_in(inner, middle),
        occurs_in(middle, outer),
    ensures
        occurs_in(inner, outer),
{
    let i = choose|at: int|
        0 <= at <= middle.len() - inner.len() && #[trigger] middle.subrange(at, at + inner.len())
            == inner;
    let j = choose|at: int|
        0 <= at <= outer.len() - middle.len() && #[trigger] outer.subrange(at, at + middle.len())
            == middle;
    assert(outer.subrange(i + j, i + j + inner.len()) == outer.subrange(
        j,
        j + middle.len(),
    ).subrange(i, i + inner.len()));
}

/// Every part occurs in the text that the parts are joined to.
pub proof fn lemma_occurs_in_joined(parts: Seq<Seq<char>>, separator: Seq<char>, at: int)
    requires
        0 <= at < parts.len(),
    ensures
        occurs_in(parts[at], joined(parts, separator)),
    decreases parts.len(),
{
    if parts.len() == 1 {
        lemma_occurs_in_part(Seq::empty(), parts[at], Seq::empty());
        assert(Seq::empty() + parts[at] + Seq::empty() == parts[at]);
    } else if at == parts.len() - 1 {
        let before = joined(parts.drop_last(), separator) + separator;
        lemma_occurs_in_part(before, parts[at], Seq::empty());
        assert(before + parts[at] + Seq::empty() == joined(parts, separator));
    } else {
        let front = joined(parts.drop_last(), separator);
        lemma_occurs_in_joined(parts.drop_last(), separator, at);
        lemma_occurs_in_part(Seq::empty(), front, separator + parts.last());
        assert(Seq::empty() + front + (separator + parts.last()) == joined(parts, separator));
        lemma_occurs_transitive(parts[at], front, joined(parts, separator));
    }
}

/// The parts in order, without anything between them.
pub open spec fn concatenated(parts: Seq<Seq<char>>) -> Seq<char>
    decreases parts.len(),
{
    if parts.len() == 0 {
        Seq::empty()
    } else {
        concatenated(parts.drop_last()) + parts.last()
    }
}

/// The two texts, one after the other.
pub fn concat(a: &str, b: &str) -> (text: String)
    ensures
        text@ == a@ + b@,
{
    let mut text = a.to_owned();
    text.append(b);
    text
}

/// The three texts, one after the other.
pub fn concat3(a: &str, b: &str, c: &str) -> (text: String)
    ensures
        text@ == a@ + b@ + c@,
{
    let mut text = concat(a, b);
    text.append(c);
    text
}

/// The character for a decimal digit.
pub open spec fn digit(d: int) -> char {
    (d + '0' as int) as char
}

/// The decimal digits of `n`, without leading zeros.
pub open spec fn decimal(n: nat) -> Seq<char>
    decreases n,
{
    if n < 10 {
        seq![digit(n as int)]
    } else {
        decimal(n / 10).push(digit((n % 10) as int))
    }
}

/// The decimal digits of `n`, with a minus sign in front of a negative number.
pub open spec fn signed_decimal(n: int) -> Seq<char> {
    if n < 0 {
        seq!['-'] + decimal((-n) as nat)
    } else {
        decimal(n as nat)
    }
}

fn digit_char(d: u8) -> (c: char)
    requires
        d < 10,
    ensures
        c == digit(d as int),
{
    (d + 48) as char
}

/// Writes `n` in decimal.
pub fn decimal_text(n: u64) -> (text: String)
    ensures
        text@ == decimal(n as nat),
    decreases n,
{
    if n < 10 {
        let mut text = String::new();
        text.push(digit_char(n as u8));
        assert(text@ == decimal(n as nat));
        text
    } else {
        let mut text = decimal_text(n / 10);
        text.push(digit_char((n % 10) as u8));
        text
    }
}

/// Writes `n` in decimal, with a minus sign in front of a negative number.
pub fn signed_decimal_text(n: i64) -> (text: String)
    ensures
        text@ == signed_decimal(n as int),
{
    if n < 0 {
        let mut text = String::new();
        text.push('-');
        let magnitude: u64 = if n == i64::MIN {
            9223372036854775808
        } else {
            (-n) as u64
        };
        text.append(decimal_text(magnitude).as_str());
        assert(text@ == signed_decimal(n as int));
        text
    } else {
        decimal_text(n as u64)
    }
}

/// Whether `c` is a decimal digit.
pub open spec fn is_digit(c: char) -> bool {
    '0' <= c <= '9'
}

/// The number that a sequence of decimal digits stands for.
pub open spec fn digits_value(s: Seq<char>) -> nat
    decreases s.len(),
{
    if s.len() == 0 {
        0
    } else {
        digits_value(s.drop_last()) * 10 + (s.last() as int - '0' as int) as nat
    }
}

/// `s` without a leading plus sign.
pub open spec fn without_plus(s: Seq<char>) -> Seq<char> {
    if s.len() > 0 && s.first() == '+' {
        s.drop_first()
    } else {
        s
    }
}

/// Whether every character of `s` is a decimal digit.
pub open spec fn all_digits(s: Seq<char>) -> bool {
    forall|i: int| 0 <= i < s.len() ==> is_digit(#[trigger] s[i])
}

/// The number that `s` writes: decimal digits, at least one, after at most one plus sign, and
/// no more than `max`.
pub open spec fn parsed_unsigned(s: Seq<char>, max: nat) -> Option<nat> {
    let digits = without_plus(s);
    if digits.len() > 0 && all_digits(digits) && digits_value(digits) <= max {
        Some(digits_value(digits))
    } else {
        None
    }
}

proof fn lemma_digits_value_grows(s: Seq<char>, n: int)
    requires
        0 <= n <= s.len(),
    ensures
        digits_value(s.take(n)) <= digits_value(s),
    decreases s.len() - n,
{
    if n < s.len() {
        lemma_digits_value_grows(s, n + 1);
        assert(s.take(n + 1).drop_last() == s.take(n));
    } else {
        assert(s.take(n) == s);
    }
}

/// Reads an unsigned decimal number that is at most `max`.
pub fn parse_unsigned(s: &str, max: u64) -> (number: Option<u64>)
    ensures
        match number {
            Some(n) => parsed_unsigned(s@, max as nat) == Some(n as nat),
            None => parsed_unsigned(s@, max as nat) is None,
        },
{
    let chars = characters(s);
    let count: usize = chars.len();
    let start: usize = if count > 0 && chars[0] == '+' {
        1
    } else {
        0
    };
    let ghost digits = without_plus(s@);
    assert(digits == s@.skip(start as int));
    if start == count {
        return None;
    }
    let mut at: usize = start;
    let mut value: u64 = 0;
    while at < count
        invariant
            start <= at <= count,
            count == chars.len(),
            chars@ == s@,
            digits == s@.skip(start as int),
            digits == without_plus(s@),
            digits.len() > 0,
            value <= max,
            value == digits_value(digits.take(at - start)),
            forall|i: int| 0 <= i < at - start ==> is_digit(#[trigger] digits[i]),
        decreases count - at,
    {
        let c: char = chars[at];
        proof {
            assert(digits[at - start] == c);
            lemma_digits_value_grows(digits, at - start + 1);
            assert(digits.take(at - start + 1).drop_last() == digits.take(at - start));
            assert(digits.take(at - start + 1).last() == c);
        }
        if c < '0' || '9' < c {
            return None;
        }
        let step: u64 = (c as u64) - 48;
        assert(digits_value(digits.take(at - start + 1)) == value * 10 + step);
        if value > (u64::MAX - step) / 10 {
            return None;
        }
        let next: u64 = value * 10 + step;
        if next > max {
            return None;
        }
        value = next;
        at = at + 1;
    }
    assert(digits.take(count - start) == digits);
    Some(value)
}

proof fn lemma_decimal_is_digits(n: nat)
    ensures
        decimal(n).len() > 0,
        all_digits(decimal(n)),
        digits_value(decimal(n)) == n,
    decreases n,
{
    if n < 10 {
        assert(decimal(n).drop_last() == Seq::<char>::empty());
        assert(digits_value(Seq::<char>::empty()) == 0);
        assert(decimal(n).last() == digit(n as int));
    } else {
        lemma_decimal_is_digits(n / 10);
        assert(decimal(n).drop_last() == decimal(n / 10));
        assert(decimal(n).last() == digit((n % 10) as int));
    }
}

/// Reading a number back from its decimal digits gives the number.
pub proof fn law_decimal_round_trip(n: nat, max: nat)
    requires
        n <= max,
    ensures
        parsed_unsigned(decimal(n), max) == Some(n),
{
    lemma_decimal_is_digits(n);
    assert(is_digit(decimal(n)[0]));
}

/// White space is the tab, the line and page breaks, the space, and the spaces beyond ASCII; no
/// other character is.
pub proof fn law_white_space(c: char)
    ensures
        c == ' ' || c == '\t' || c == '\n' || c == '\r' ==> is_white_space(c),
        (c as int) < 128 ==> (is_white_space(c) <==> 9 <= (c as int) <= 13 || (c as int) == 32),
        (c as int) >= 128 ==> (is_white_space(c) <==> (c as int) == 0x85 || (c as int) == 0xa0 || (
        c as int) == 0x1680 || 0x2000 <= (c as int) <= 0x200a || (c as int) == 0x2028 || (
        c as int) == 0x2029 || (c as int) == 0x202f || (c as int) == 0x205f || (c as int)
            == 0x3000),
{
}

/// Trimming takes away white space at both ends and nothing else: what is left stands in the
/// text between two runs of white space, and has none at its own ends.
pub proof fn law_trimming_removes_outer_white_space(s: Seq<char>) -> (removed: (
    Seq<char>,
    Seq<char>,
))
    ensures
        s == removed.0 + trimmed(s) + removed.1,
        forall|i: int| 0 <= i < removed.0.len() ==> is_white_space(#[trigger] removed.0[i]),
        forall|i: int| 0 <= i < removed.1.len() ==> is_white_space(#[trigger] removed.1[i]),
        trimmed(s).len() > 0 ==> !is_white_space(trimmed(s).first()) && !is_white_space(
            trimmed(s).last(),
        ),
{
    let start = lemma_leading_bound(s);
    lemma_leading_space(s, start);
    let rest = s.skip(start);
    let end = lemma_trailing_bound(rest);
    lemma_trailing_space(rest, end);
    let removed = (s.take(start), rest.skip(end));
    assert(s =~= removed.0 + trimmed(s) + removed.1);
    assert forall|i: int| 0 <= i < removed.1.len() implies is_white_space(
        #[trigger] removed.1[i],
    ) by {
        assert(rest[end + i] == removed.1[i]);
    }
    if trimmed(s).len() > 0 {
        assert(trimmed(s).first() == rest[0]);
        assert(trimmed(s).last() == rest[end - 1]);
    }
    removed
}

/// A text is blank exactly if all its characters are white space.
pub proof fn law_blank_text_is_all_white_space(s: Seq<char>)
    ensures
        is_blank(s) <==> forall|i: int| 0 <= i < s.len() ==> is_white_space(#[trigger] s[i]),
{
    let (before, after) = law_trimming_removes_outer_white_space(s);
    if is_blank(s) {
        assert forall|i: int| 0 <= i < s.len() implies is_white_space(#[trigger] s[i]) by {
            if i < before.len() {
                assert(s[i] == before[i]);
            } else {
                assert(s[i] == after[i - before.len()]);
            }
        }
    } else {
        assert(s[before.len() as int] == trimmed(s).first());
    }
}

/// Lower-casing changes the ASCII capitals alone, each into its small letter.
pub proof fn law_lower_case_changes_capitals_alone(s: Seq<char>, at: int)
    requires
        0 <= at < s.len(),
    ensures
        lowered(s).len() == s.len(),
        'A' <= s[at] <= 'Z' ==> lowered(s)[at] as int == s[at] as int + 32,
        !('A' <= s[at] <= 'Z') ==> lowered(s)[at] == s[at],
{
}

/// Upper-casing changes the ASCII small letters alone, each into its capital.
pub proof fn law_upper_case_changes_small_letters_alone(c: char)
    ensures
        'a' <= c <= 'z' ==> ascii_upper(c) as int == c as int - 32,
        !('a' <= c <= 'z') ==> ascii_upper(c) == c,
{
}

/// What stands before the first `c`, with what was cut off, is the text again; it holds no `c`,
/// and what was cut off starts with one.
pub proof fn law_first_segment_ends_at_the_separator(s: Seq<char>, c: char) -> (rest: Seq<char>)
    ensures
        s == before_first(s, c) + rest,
        !before_first(s, c).contains(c),
        rest.len() > 0 ==> rest.first() == c,
{
    lemma_at_first_position(s, c);
    let at = first_position(s, c);
    let rest = s.skip(at);
    assert(s =~= before_first(s, c) + rest);
    lemma_none_before_first(s, c);
    rest
}

proof fn lemma_none_before_first(s: Seq<char>, c: char)
    ensures
        0 <= first_position(s, c) <= s.len(),
        first_position(s, c) < s.len() ==> s[first_position(s, c)] == c,
        !before_first(s, c).contains(c),
    decreases s.len(),
{
    if s.len() > 0 && s.first() != c {
        let rest = s.drop_first();
        lemma_none_before_first(rest, c);
        let at = first_position(rest, c);
        assert(first_position(s, c) == at + 1);
        if at < rest.len() {
            assert(s[at + 1] == rest[at]);
        }
        assert forall|i: int| 0 <= i < at + 1 implies s[i] != c by {
            if i > 0 {
                assert(before_first(rest, c)[i - 1] == s[i]);
            }
        }
        assert(before_first(s, c) =~= s.take(at + 1));
        if before_first(s, c).contains(c) {
            let i = choose|i: int| 0 <= i < at + 1 && before_first(s, c)[i] == c;
            assert(s[i] == c);
        }
    } else {
        assert(before_first(s, c) =~= Seq::<char>::empty());
    }
}

proof fn lemma_none_after_last(s: Seq<char>, c: char)
    ensures
        -1 <= last_position(s, c) < s.len() || s.len() == 0 && last_position(s, c) == -1,
        last_position(s, c) >= 0 ==> s[last_position(s, c)] == c,
        forall|i: int| last_position(s, c) < i < s.len() ==> #[trigger] s[i] != c,
    decreases s.len(),
{
    if s.len() > 0 && s.last() != c {
        lemma_none_after_last(s.drop_last(), c);
        let at = last_position(s, c);
        assert forall|i: int| at < i < s.len() implies #[trigger] s[i] != c by {
            if i < s.len() - 1 {
                assert(s.drop_last()[i] == s[i]);
            }
        }
        if at >= 0 {
            assert(s.drop_last()[at] == s[at]);
        }
    }
}

/// A text is split at its last `c`: the two parts with that `c` between them are the text again,
/// and there is none in the second part. A text without `c` is not split.
pub proof fn law_splitting_cuts_at_the_last(s: Seq<char>, c: char)
    ensures
        match split_at_last(s, c) {
            Some((head, tail)) => s == head + seq![c] + tail && !tail.contains(c),
            None => !s.contains(c),
        },
{
    lemma_none_after_last(s, c);
    let at = last_position(s, c);
    if at >= 0 {
        assert(s =~= s.take(at) + seq![c] + s.skip(at + 1));
        let tail = s.skip(at + 1);
        if tail.contains(c) {
            let i = choose|i: int| 0 <= i < tail.len() && tail[i] == c;
            assert(s[at + 1 + i] == c);
        }
    }
}

/// Removing a prefix and putting it back gives the text; a text without the prefix has nothing
/// after it.
pub proof fn law_prefix_is_taken_off_whole(s: Seq<char>, prefix: Seq<char>, rest: Seq<char>)
    ensures
        after_prefix(prefix + rest, prefix) == Some(rest),
        after_prefix(s, prefix) == Some(rest) ==> s == prefix + rest,
        after_prefix(s, prefix) is None ==> s != prefix + rest,
{
    assert(prefix.is_prefix_of(prefix + rest));
    assert((prefix + rest).skip(prefix.len() as int) =~= rest);
    if after_prefix(s, prefix) == Some(rest) {
        assert(s =~= prefix + rest);
    }
}

/// Joining keeps every part: one part is joined to itself, and two lists are joined by joining
/// each and putting the separator between them.
pub proof fn law_joining_keeps_every_part(
    one: Seq<Seq<char>>,
    other: Seq<Seq<char>>,
    part: Seq<char>,
    separator: Seq<char>,
)
    ensures
        joined(Seq::empty(), separator).len() == 0,
        joined(seq![part], separator) == part,
        one.len() > 0 && other.len() > 0 ==> joined(one + other, separator) == joined(
            one,
            separator,
        ) + separator + joined(other, separator),
    decreases other.len(),
{
    if one.len() > 0 && other.len() > 0 {
        assert((one + other).drop_last() =~= one + other.drop_last());
        assert((one + other).last() == other.last());
        if other.len() == 1 {
            assert(one + other.drop_last() =~= one);
        } else {
            law_joining_keeps_every_part(one, other.drop_last(), part, separator);
            assert(joined(one + other, separator) =~= joined(one, separator) + separator + joined(
                other,
                separator,
            ));
        }
    }
}

/// A text occurs in another exactly if that is the text with something before and after it.
pub proof fn law_occurrence(needle: Seq<char>, haystack: Seq<char>, before: Seq<char>, after: Seq<
    char,
>) -> (around: (Seq<char>, Seq<char>))
    ensures
        haystack == before + needle + after ==> occurs_in(needle, haystack),
        occurs_in(needle, haystack) ==> haystack == around.0 + needle + around.1,
{
    if haystack == before + needle + after {
        lemma_occurs_in_part(before, needle, after);
    }
    if occurs_in(needle, haystack) {
        let at = choose|at: int|
            0 <= at <= haystack.len() - needle.len() && #[trigger] haystack.subrange(
                at,
                at + needle.len(),
            ) == needle;
        let around = (haystack.take(at), haystack.skip(at + needle.len()));
        assert(haystack =~= around.0 + needle + around.1);
        around
    } else {
        (before, after)
    }
}

/// Pieces are put together without anything between them.
pub proof fn law_concatenation_is_flattening(parts: Seq<Seq<char>>)
    ensures
        concatenated(parts) == parts.flatten(),
    decreases parts.len(),
{
    if parts.len() > 0 {
        law_concatenation_is_flattening(parts.drop_last());
        let last = parts.last();
        assert(parts =~= parts.drop_last().push(last));
        parts.drop_last().lemma_flatten_push(last);
    }
}

/// A number is written with the digits `0` to `9`: one for a number below ten, else those of its
/// tenth part and then its last one; a negative number has a minus sign before it.
pub proof fn law_decimal_digits(n: nat, last: nat)
    requires
        last < 10,
    ensures
        decimal(last).len() == 1,
        decimal(last)[0] as int == '0' as int + last,
        n > 0 ==> decimal(n * 10 + last) == decimal(n) + decimal(last),
        signed_decimal(n as int) == decimal(n),
        n > 0 ==> signed_decimal(-n) == seq!['-'] + decimal(n),
{
    if n > 0 {
        assert((n * 10 + last) / 10 == n);
        assert((n * 10 + last) % 10 == last);
        assert(decimal(n * 10 + last) =~= decimal(n) + decimal(last));
    }
}

/// Only digits are read as a number, after at most one plus sign, and no number above the
/// greatest one allowed.
pub proof fn law_only_numbers_are_read(s: Seq<char>, max: nat)
    ensures
        s.len() == 0 ==> parsed_unsigned(s, max) is None,
        parsed_unsigned(s, max) matches Some(n) ==> n <= max && forall|i: int|
            0 <= i < s.len() ==> '0' <= #[trigger] s[i] <= '9' || i == 0 && s[i] == '+',
{
    if let Some(n) = parsed_unsigned(s, max) {
        assert forall|i: int| 0 <= i < s.len() implies '0' <= #[trigger] s[i] <= '9' || i == 0
            && s[i] == '+' by {
            if s.first() == '+' {
                if i > 0 {
                    assert(is_digit(s.drop_first()[i - 1]));
                }
            } else {
                assert(is_digit(without_plus(s)[i]));
            }
        }
    }
}

/// A list of strings has their texts, each whole and in its place.
pub proof fn law_strings_have_their_texts(parts: Seq<String>, at: int)
    requires
        0 <= at < parts.len(),
    ensures
        texts(parts).len() == parts.len(),
        texts(parts)[at] == parts[at]@,
{
}

/// A number may be written with a plus sign; one above the greatest allowed is not read.
pub proof fn law_numbers_are_read_up_to_the_greatest(n: nat, max: nat)
    ensures
        n <= max ==> parsed_unsigned(seq!['+'] + decimal(n), max) == Some(n),
        n > max ==> parsed_unsigned(decimal(n), max) is None,
{
    lemma_decimal_is_digits(n);
    assert(is_digit(decimal(n)[0]));
    assert((seq!['+'] + decimal(n)).drop_first() =~= decimal(n));
}

} // verus!
