//! Who a request comes from: the wrapper's own key, and the key that rate limits go by.

use crate::json::{slice_text, text_of};
use crate::text::{
    after_prefix, before_first, first_segment, is_blank,
    law_first_segment_ends_at_the_separator, same, strip_prefix, trim, trimmed,
};
use vstd::prelude::*;

verus! {

/// The text of a header without the white space around it; none where nothing is left.
pub open spec fn filled(value: Option<Seq<char>>) -> Option<Seq<char>> {
    match value {
        Some(text) => if is_blank(text) {
            None
        } else {
            Some(trimmed(text))
        },
        None => None,
    }
}

/// The token of an `Authorization` header.
pub open spec fn bearer_token(authorization: Option<Seq<char>>) -> Option<Seq<char>> {
    match authorization {
        Some(text) => filled(after_prefix(text, "Bearer "@)),
        None => None,
    }
}

/// The token that a request brings: a bearer token before an `x-api-key`, else the empty one.
pub open spec fn offered_token(
    authorization: Option<Seq<char>>,
    api_key: Option<Seq<char>>,
) -> Seq<char> {
    match bearer_token(authorization) {
        Some(token) => token,
        None => match filled(api_key) {
            Some(token) => token,
            None => Seq::empty(),
        },
    }
}

/// Whether a request is let in: always where no key is configured, else with that key alone.
pub open spec fn let_in(
    expected: Option<Seq<char>>,
    authorization: Option<Seq<char>>,
    api_key: Option<Seq<char>>,
) -> bool {
    match expected {
        Some(key) => offered_token(authorization, api_key) == key,
        None => true,
    }
}

/// The key that rate limits go by: the first forwarded address, an API key, an authorization.
pub open spec fn limit_key(
    forwarded_for: Option<Seq<char>>,
    api_key: Option<Seq<char>>,
    authorization: Option<Seq<char>>,
) -> Seq<char> {
    let address = match forwarded_for {
        Some(text) => filled(Some(before_first(text, ','))),
        None => None,
    };
    match address {
        Some(a) => a,
        None => match filled(api_key) {
            Some(k) => k,
            None => match filled(authorization) {
                Some(a) => a,
                None => "anonymous"@,
            },
        },
    }
}

fn fill<'a>(value: Option<&'a str>) -> (text: Option<&'a str>)
    ensures
        slice_text(text) == filled(slice_text(value)),
{
    match value {
        Some(v) => {
            let inner = trim(v);
            if inner.is_empty() {
                None
            } else {
                Some(inner)
            }
        },
        None => None,
    }
}

/// Whether a request with these headers is let in.
pub fn api_key_accepted(
    expected: &Option<String>,
    authorization: Option<&str>,
    api_key: Option<&str>,
) -> (accepted: bool)
    ensures
        accepted == let_in(text_of(*expected), slice_text(authorization), slice_text(api_key)),
{
    match expected {
        Some(key) => {
            let bearer = match authorization {
                Some(text) => fill(strip_prefix(text, "Bearer ")),
                None => None,
            };
            let token = match bearer {
                Some(token) => token,
                None => match fill(api_key) {
                    Some(token) => token,
                    None => "",
                },
            };
            proof {
                reveal_strlit("");
                assert(""@ == Seq::<char>::empty());
            }
            same(token, key.as_str())
        },
        None => true,
    }
}

/// The key that rate limits go by, for a request with these headers.
pub fn rate_limit_key(
    forwarded_for: Option<&str>,
    api_key: Option<&str>,
    authorization: Option<&str>,
) -> (key: String)
    ensures
        key@ == limit_key(
            slice_text(forwarded_for),
            slice_text(api_key),
            slice_text(authorization),
        ),
{
    let address = match forwarded_for {
        Some(text) => fill(Some(first_segment(text, ','))),
        None => None,
    };
    match address {
        Some(a) => a.to_owned(),
        None => match fill(api_key) {
            Some(k) => k.to_owned(),
            None => match fill(authorization) {
                Some(a) => a.to_owned(),
                None => "anonymous".to_owned(),
            },
        },
    }
}

/// Where no key is configured, every request is let in.
pub proof fn law_no_key_lets_everyone_in(
    authorization: Option<Seq<char>>,
    api_key: Option<Seq<char>>,
)
    ensures
        let_in(None, authorization, api_key),
{
}

/// The configured key is accepted as a bearer token, whatever else the request brings, and as
/// an `x-api-key` where there is no bearer token; a key that starts or ends with white space,
/// or is empty, cannot be sent.
pub proof fn law_configured_key_is_accepted_in_both_headers(
    key: Seq<char>,
    other: Option<Seq<char>>,
)
    requires
        key.len() > 0,
        trimmed(key) == key,
    ensures
        let_in(Some(key), Some("Bearer "@ + key), other),
        bearer_token(other) is None ==> let_in(Some(key), other, Some(key)),
{
    let header = "Bearer "@ + key;
    assert("Bearer "@.is_prefix_of(header));
    assert(header.skip("Bearer "@.len() as int) == key);
}

/// Where a key is configured, a request is let in only if one of its headers brings that key.
pub proof fn law_only_the_configured_key_is_accepted(
    key: Seq<char>,
    authorization: Option<Seq<char>>,
    api_key: Option<Seq<char>>,
)
    requires
        key.len() > 0,
        let_in(Some(key), authorization, api_key),
    ensures
        bearer_token(authorization) == Some(key) || filled(api_key) == Some(key),
{
}

/// A request with another key, or with none, is not let in where a key is configured.
pub proof fn law_other_keys_are_turned_away(key: Seq<char>, other: Seq<char>)
    requires
        key.len() > 0,
        other != key,
        trimmed(other) == other,
    ensures
        !let_in(Some(key), None, None),
        !let_in(Some(key), Some("Bearer "@ + other), None),
        !let_in(Some(key), None, Some(other)),
{
    assert("Bearer "@.is_prefix_of("Bearer "@ + other));
    assert(("Bearer "@ + other).skip("Bearer "@.len() as int) =~= other);
}

/// The configured key is accepted as a bearer token beside any `x-api-key`, and as an `x-api-key`
/// where there is no `Authorization` header or one of another scheme.
pub proof fn law_key_may_come_in_either_header(
    key: Seq<char>,
    other: Option<Seq<char>>,
    scheme: Seq<char>,
)
    requires
        key.len() > 0,
        trimmed(key) == key,
        !"Bearer "@.is_prefix_of(scheme),
    ensures
        let_in(Some(key), Some("Bearer "@ + key), other),
        let_in(Some(key), None, Some(key)),
        let_in(Some(key), Some(scheme), Some(key)),
{
    law_configured_key_is_accepted_in_both_headers(key, other);
}

/// Callers are told apart by the first forwarded address, else by their API key, else by their
/// authorization, each without the white space around it; callers without any are one.
pub proof fn law_callers_are_told_apart(
    address: Seq<char>,
    others: Seq<char>,
    api_key: Seq<char>,
    authorization: Seq<char>,
    any_key: Option<Seq<char>>,
    any_authorization: Option<Seq<char>>,
)
    requires
        address.len() > 0,
        trimmed(address) == address,
        !address.contains(','),
        api_key.len() > 0,
        trimmed(api_key) == api_key,
        authorization.len() > 0,
        trimmed(authorization) == authorization,
    ensures
        limit_key(Some(address), any_key, any_authorization) == address,
        limit_key(Some(address + ","@ + others), any_key, any_authorization) == address,
        limit_key(None, Some(api_key), any_authorization) == api_key,
        limit_key(None, None, Some(authorization)) == authorization,
        limit_key(None, None, None) == "anonymous"@,
{
    reveal_strlit(",");
    let list = address + ","@ + others;
    let rest = law_first_segment_ends_at_the_separator(address, ',');
    let after = law_first_segment_ends_at_the_separator(list, ',');
    let (one, head) = (before_first(address, ','), before_first(list, ','));
    if one.len() < address.len() {
        assert(address[one.len() as int] == rest[0]);
        assert(address.contains(','));
    }
    assert(one =~= address);
    if head.len() < address.len() {
        assert(list[head.len() as int] == after[0]);
        assert(address[head.len() as int] == ',');
        assert(address.contains(','));
    }
    if head.len() > address.len() {
        assert(list[address.len() as int] == ',');
        assert(head[address.len() as int] == list[address.len() as int]);
        assert(head.contains(','));
    }
    assert(head.len() == address.len());
    assert forall|i: int| 0 <= i < head.len() implies head[i] == address[i] by {
        assert(list[i] == head[i]);
    }
    assert(head =~= address);
}

/// The white space around a header does not count, and a blank header is none.
pub proof fn law_headers_are_trimmed(text: Seq<char>)
    ensures
        is_blank(text) ==> filled(Some(text)) is None,
        !is_blank(text) ==> filled(Some(text)) == Some(trimmed(text)),
        filled(None) is None,
{
}

/// A bearer token counts before an `x-api-key`: a wrong one is not mended by the right key beside
/// it, and only a blank one is passed over.
pub proof fn law_bearer_token_counts_first(key: Seq<char>, other: Seq<char>, nothing: Seq<char>)
    requires
        key.len() > 0,
        trimmed(key) == key,
        other.len() > 0,
        trimmed(other) == other,
        other != key,
        is_blank(nothing),
    ensures
        !let_in(Some(key), Some("Bearer "@ + other), Some(key)),
        let_in(Some(key), Some("Bearer "@ + nothing), Some(key)),
{
    assert("Bearer "@.is_prefix_of("Bearer "@ + other));
    assert(("Bearer "@ + other).skip("Bearer "@.len() as int) =~= other);
    assert("Bearer "@.is_prefix_of("Bearer "@ + nothing));
    assert(("Bearer "@ + nothing).skip("Bearer "@.len() as int) =~= nothing);
}

/// A blank header tells nobody apart: the next one counts.
pub proof fn law_blank_headers_are_passed_over(
    nothing: Seq<char>,
    api_key: Seq<char>,
    authorization: Seq<char>,
)
    requires
        is_blank(nothing),
        !nothing.contains(','),
        api_key.len() > 0,
        trimmed(api_key) == api_key,
        authorization.len() > 0,
        trimmed(authorization) == authorization,
    ensures
        limit_key(Some(nothing), Some(api_key), Some(authorization)) == api_key,
        limit_key(Some(nothing), Some(nothing), Some(authorization)) == authorization,
        limit_key(Some(nothing), Some(nothing), Some(nothing)) == "anonymous"@,
{
    let rest = law_first_segment_ends_at_the_separator(nothing, ',');
    let head = before_first(nothing, ',');
    if head.len() < nothing.len() {
        assert(nothing[head.len() as int] == rest[0]);
        assert(nothing.contains(','));
    }
    assert(head =~= nothing);
}

} // verus!
