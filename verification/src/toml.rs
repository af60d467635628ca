//! Strings in configuration overrides.

use crate::error::AppError;
use crate::ids::{hex_digit, hex_digits};
use vstd::prelude::*;

verus! {

/// A character as it stands in a quoted string.
pub open spec fn escaped(c: char) -> Seq<char> {
    if c == '"' {
        seq!['\\', '"']
    } else if c == '\\' {
        seq!['\\', '\\']
    } else if c == '\n' {
        seq!['\\', 'n']
    } else if c == '\r' {
        seq!['\\', 'r']
    } else if c == '\t' {
        seq!['\\', 't']
    } else if c == '\u{8}' {
        seq!['\\', 'b']
    } else if c == '\u{c}' {
        seq!['\\', 'f']
    } else if (c as int) < 32 {
        seq!['\\', 'u'] + hex_digits(c as nat, 4)
    } else {
        seq![c]
    }
}

/// The characters of a text as they stand in a quoted string.
pub open spec fn all_escaped(text: Seq<char>) -> Seq<char>
    decreases text.len(),
{
    if text.len() == 0 {
        Seq::empty()
    } else {
        all_escaped(text.drop_last()) + escaped(text.last())
    }
}

/// A text in quotes.
pub open spec fn quoted(text: Seq<char>) -> Seq<char> {
    seq!['"'] + all_escaped(text) + seq!['"']
}

/// `serde_json::to_string` of a string: the text in quotes, with quotes, backslashes and
/// control characters escaped. The writer is a vector, so nothing can fail; an error is passed
/// on as its text.
#[verifier::external_body]
fn quote(text: &str) -> (literal: Result<String, String>)
    ensures
        literal is Ok,
        literal->Ok_0@ == quoted(text@),
{
    serde_json::to_string(text).map_err(|error| error.to_string())
}

/// The literal for a string in a configuration override.
pub fn toml_string(value: &str) -> (literal: Result<String, AppError>)
    ensures
        literal is Ok,
        literal->Ok_0@ == quoted(value@),
{
    match quote(value) {
        Ok(literal) => Ok(literal),
        Err(message) => Err(AppError::Json(message)),
    }
}

/// Two texts with one literal are one text.
pub proof fn law_literals_tell_texts_apart(one: Seq<char>, other: Seq<char>)
    requires
        quoted(one) == quoted(other),
    ensures
        one == other,
{
    let (a, b) = (all_escaped(one), all_escaped(other));
    assert(quoted(one).subrange(1, quoted(one).len() - 1) == a);
    assert(quoted(other).subrange(1, quoted(other).len() - 1) == b);
    lemma_escaped_apart(one, other);
}

proof fn lemma_escaped_first(text: Seq<char>)
    requires
        text.len() > 0,
    ensures
        all_escaped(text) == escaped(text.first()) + all_escaped(text.drop_first()),
    decreases text.len(),
{
    if text.len() == 1 {
        assert(text.drop_last() == Seq::<char>::empty());
        assert(text.drop_first() == Seq::<char>::empty());
        assert(all_escaped(text) =~= escaped(text.first()) + all_escaped(text.drop_first()));
    } else {
        lemma_escaped_first(text.drop_last());
        assert(text.drop_last().drop_first() == text.drop_first().drop_last());
        assert(all_escaped(text) =~= escaped(text.first()) + all_escaped(text.drop_first()));
    }
}

proof fn lemma_four_digits(c: char)
    requires
        (c as int) < 32,
    ensures
        hex_digits(c as nat, 4).len() == 4,
        (c as int) < 16 ==> hex_digits(c as nat, 4)[2] == '0',
        c as int >= 16 ==> hex_digits(c as nat, 4)[2] == '1',
        hex_digits(c as nat, 4)[3] == hex_digit((c as nat % 16) as int),
{
    reveal_with_fuel(hex_digits, 5);
}

proof fn lemma_escape_apart(one: char, other: char, a: Seq<char>, b: Seq<char>)
    requires
        escaped(one) + a == escaped(other) + b,
    ensures
        one == other,
        a == b,
{
    let (x, y) = (escaped(one) + a, escaped(other) + b);
    assert(x[0] == escaped(one)[0] && y[0] == escaped(other)[0]);
    if (one as int) < 32 {
        lemma_four_digits(one);
    }
    if (other as int) < 32 {
        lemma_four_digits(other);
    }
    if escaped(one).len() > 1 && escaped(other).len() > 1 {
        assert(x[1] == escaped(one)[1] && y[1] == escaped(other)[1]);
        if escaped(one).len() > 2 && escaped(other).len() > 2 {
            assert(x[4] == escaped(one)[4] && y[4] == escaped(other)[4]);
            assert(x[5] == escaped(one)[5] && y[5] == escaped(other)[5]);
        }
    }
    assert(one == other);
    assert(x.skip(escaped(one).len() as int) == a);
    assert(y.skip(escaped(other).len() as int) == b);
}

proof fn lemma_escaped_apart(one: Seq<char>, other: Seq<char>)
    requires
        all_escaped(one) == all_escaped(other),
    ensures
        one == other,
    decreases one.len(),
{
    if one.len() == 0 {
        if other.len() > 0 {
            lemma_escaped_first(other);
            lemma_escaped_is_something(other.first());
        }
    } else if other.len() == 0 {
        lemma_escaped_first(one);
        lemma_escaped_is_something(one.first());
    } else {
        lemma_escaped_first(one);
        lemma_escaped_first(other);
        lemma_escape_apart(
            one.first(),
            other.first(),
            all_escaped(one.drop_first()),
            all_escaped(other.drop_first()),
        );
        lemma_escaped_apart(one.drop_first(), other.drop_first());
        assert(one == seq![one.first()] + one.drop_first());
        assert(other == seq![other.first()] + other.drop_first());
    }
}

proof fn lemma_escaped_is_something(c: char)
    ensures
        escaped(c).len() > 0,
{
}

} // verus!
