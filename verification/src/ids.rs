//! Random identifiers.

use crate::text::concat;
use uuid::Uuid;
use vstd::arithmetic::power::pow;
use vstd::prelude::*;

verus! {

/// The lower-case hexadecimal digit for a number below sixteen.
pub open spec fn hex_digit(d: int) -> char {
    if d < 10 {
        (d + '0' as int) as char
    } else {
        (d - 10 + 'a' as int) as char
    }
}

/// The last `width` hexadecimal digits of a number.
pub open spec fn hex_digits(n: nat, width: nat) -> Seq<char>
    decreases width,
{
    if width == 0 {
        Seq::empty()
    } else {
        hex_digits(n / 16, (width - 1) as nat).push(hex_digit((n % 16) as int))
    }
}

/// An identifier as thirty-two digits.
pub open spec fn simple_text(n: u128) -> Seq<char> {
    hex_digits(n as nat, 32)
}

/// An identifier as five groups of digits with hyphens between them.
pub open spec fn hyphenated_text(n: u128) -> Seq<char> {
    let digits = simple_text(n);
    digits.subrange(0, 8) + "-"@ + digits.subrange(8, 12) + "-"@ + digits.subrange(12, 16) + "-"@
        + digits.subrange(16, 20) + "-"@ + digits.subrange(20, 32)
}

/// Whether an identifier says of itself that it is random: the thirteenth digit is 4, and the
/// seventeenth is one of 8, 9, a and b.
pub open spec fn is_random_id(n: u128) -> bool {
    &&& simple_text(n)[12] == '4'
    &&& simple_text(n)[16] == '8' || simple_text(n)[16] == '9' || simple_text(n)[16] == 'a'
        || simple_text(n)[16] == 'b'
}

/// uuid's identifier.
#[verifier::external_type_specification]
#[verifier::external_body]
pub struct ExUuid(uuid::Uuid);

/// The number that an identifier is.
pub uninterp spec fn id_number(id: uuid::Uuid) -> u128;

/// `Uuid::new_v4`: an identifier that is drawn at random and bears the marks of one. Which one
/// is left open.
#[verifier::external_body]
fn random_id() -> (id: Uuid)
    ensures
        is_random_id(id_number(id)),
{
    Uuid::new_v4()
}

/// `Uuid::as_u128`: the number that the identifier is.
#[verifier::external_body]
fn number_of(id: &Uuid) -> (n: u128)
    ensures
        n == id_number(*id),
{
    id.as_u128()
}

/// `Uuid`'s `Display`: the lower-case form with hyphens.
#[verifier::external_body]
fn hyphenated(n: u128) -> (text: String)
    ensures
        text@ == hyphenated_text(n),
{
    Uuid::from_u128(n).to_string()
}

/// `Uuid::simple` and its `Display`: the lower-case form without hyphens.
#[verifier::external_body]
fn simple(n: u128) -> (text: String)
    ensures
        text@ == simple_text(n),
{
    Uuid::from_u128(n).simple().to_string()
}

/// The id of a chat completion for a number.
pub fn chat_id(n: u128) -> (id: String)
    ensures
        id@ == "chatcmpl-"@ + hyphenated_text(n),
{
    concat("chatcmpl-", hyphenated(n).as_str())
}

/// An id for a chat completion, for a number that is drawn.
pub fn new_chat_id() -> (id: String)
    ensures
        exists|drawn: Uuid|
            is_random_id(#[trigger] id_number(drawn)) && id@ == "chatcmpl-"@
                + hyphenated_text(id_number(drawn)),
{
    let drawn = random_id();
    chat_id(number_of(&drawn))
}

/// The id of an Anthropic message for a number.
pub fn message_id(n: u128) -> (id: String)
    ensures
        id@ == "msg_"@ + simple_text(n),
{
    concat("msg_", simple(n).as_str())
}

/// An id for an Anthropic message, for a number that is drawn.
pub fn new_message_id() -> (id: String)
    ensures
        exists|drawn: Uuid|
            is_random_id(#[trigger] id_number(drawn)) && id@ == "msg_"@
                + simple_text(id_number(drawn)),
{
    let drawn = random_id();
    message_id(number_of(&drawn))
}

/// The name of a file that holds an output schema, for a number.
pub fn schema_file_name(n: u128) -> (name: String)
    ensures
        name@ == hyphenated_text(n) + ".json"@,
{
    concat(hyphenated(n).as_str(), ".json")
}

/// A name for a file that holds an output schema, for a number that is drawn.
pub fn new_schema_file_name() -> (name: String)
    ensures
        exists|drawn: Uuid|
            is_random_id(#[trigger] id_number(drawn)) && name@ == hyphenated_text(
                id_number(drawn),
            ) + ".json"@,
{
    let drawn = random_id();
    schema_file_name(number_of(&drawn))
}

/// The name of the directory that holds the images of one turn, for a number.
pub fn image_directory_name(n: u128) -> (name: String)
    ensures
        name@ == hyphenated_text(n),
{
    hyphenated(n)
}

/// A name for the directory that holds the images of one turn, for a number that is drawn.
pub fn new_image_directory_name() -> (name: String)
    ensures
        exists|drawn: Uuid|
            is_random_id(#[trigger] id_number(drawn)) && name@ == hyphenated_text(
                id_number(drawn),
            ),
{
    let drawn = random_id();
    image_directory_name(number_of(&drawn))
}

proof fn lemma_digit_count(n: nat, width: nat)
    ensures
        hex_digits(n, width).len() == width,
    decreases width,
{
    if width > 0 {
        lemma_digit_count(n / 16, (width - 1) as nat);
    }
}

proof fn lemma_digits_tell_numbers_apart(n: nat, m: nat, width: nat)
    requires
        n < pow(16, width),
        m < pow(16, width),
        hex_digits(n, width) == hex_digits(m, width),
    ensures
        n == m,
    decreases width,
{
    reveal(pow);
    if width > 0 {
        let less = (width - 1) as nat;
        let (one, other) = (hex_digits(n, width), hex_digits(m, width));
        assert(one.last() == hex_digit((n % 16) as int));
        assert(other.last() == hex_digit((m % 16) as int));
        assert(one.drop_last() == hex_digits(n / 16, less));
        assert(other.drop_last() == hex_digits(m / 16, less));
        assert(pow(16, width) == 16 * pow(16, less));
        lemma_digits_tell_numbers_apart(n / 16, m / 16, less);
    }
}

proof fn lemma_simple_text_fixes_number(n: u128, m: u128)
    requires
        simple_text(n) == simple_text(m),
    ensures
        n == m,
{
    assert(pow(16, 32) == 0x1_0000_0000_0000_0000_0000_0000_0000_0000int) by {
        reveal_with_fuel(pow, 33);
    }
    lemma_digits_tell_numbers_apart(n as nat, m as nat, 32);
}

proof fn lemma_hyphenated_text_fixes_number(n: u128, m: u128)
    requires
        hyphenated_text(n) == hyphenated_text(m),
    ensures
        n == m,
{
    lemma_digit_count(n as nat, 32);
    lemma_digit_count(m as nat, 32);
    reveal_strlit("-");
    let (one, other) = (simple_text(n), simple_text(m));
    let (first, second) = (hyphenated_text(n), hyphenated_text(m));
    assert(one.subrange(0, 8) =~= first.subrange(0, 8));
    assert(one.subrange(8, 12) =~= first.subrange(9, 13));
    assert(one.subrange(12, 16) =~= first.subrange(14, 18));
    assert(one.subrange(16, 20) =~= first.subrange(19, 23));
    assert(one.subrange(20, 32) =~= first.subrange(24, 36));
    assert(other.subrange(0, 8) =~= second.subrange(0, 8));
    assert(other.subrange(8, 12) =~= second.subrange(9, 13));
    assert(other.subrange(12, 16) =~= second.subrange(14, 18));
    assert(other.subrange(16, 20) =~= second.subrange(19, 23));
    assert(other.subrange(20, 32) =~= second.subrange(24, 36));
    assert(one =~= one.subrange(0, 8) + one.subrange(8, 12) + one.subrange(12, 16) + one.subrange(
        16,
        20,
    ) + one.subrange(20, 32));
    assert(other =~= other.subrange(0, 8) + other.subrange(8, 12) + other.subrange(12, 16)
        + other.subrange(16, 20) + other.subrange(20, 32));
    lemma_simple_text_fixes_number(n, m);
}

/// Two ids, or two names, of one sort are the same only where the same number was drawn.
pub proof fn law_different_numbers_give_different_ids(n: u128, m: u128)
    requires
        n != m,
    ensures
        "chatcmpl-"@ + hyphenated_text(n) != "chatcmpl-"@ + hyphenated_text(m),
        "msg_"@ + simple_text(n) != "msg_"@ + simple_text(m),
        hyphenated_text(n) + ".json"@ != hyphenated_text(m) + ".json"@,
        hyphenated_text(n) != hyphenated_text(m),
{
    lemma_digit_count(n as nat, 32);
    lemma_digit_count(m as nat, 32);
    reveal_strlit("-");
    let (chat, message) = ("chatcmpl-"@, "msg_"@);
    let (one, other) = (hyphenated_text(n), hyphenated_text(m));
    if one == other {
        lemma_hyphenated_text_fixes_number(n, m);
    }
    if simple_text(n) == simple_text(m) {
        lemma_simple_text_fixes_number(n, m);
    }
    assert((chat + one).skip(chat.len() as int) =~= one);
    assert((chat + other).skip(chat.len() as int) =~= other);
    assert((message + simple_text(n)).skip(message.len() as int) =~= simple_text(n));
    assert((message + simple_text(m)).skip(message.len() as int) =~= simple_text(m));
    assert((one + ".json"@).take(36) =~= one);
    assert((other + ".json"@).take(36) =~= other);
}

} // verus!
