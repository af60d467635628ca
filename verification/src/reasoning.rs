//! Reasoning efforts, model aliases and the default model.

use crate::config::{default_model_setting, AppConfig};
use crate::error::AppError;
use crate::json::{slice_text, text_of};
use crate::request::{copy_text, ChatCompletionRequest};
use crate::text::{
    is_blank, is_white_space, law_blank_text_is_all_white_space, law_splitting_cuts_at_the_last,
    law_trimming_removes_outer_white_space, lemma_last_position, lemma_trimmed_fixed,
    lemma_trimmed_idempotent, lemma_trimmed_ends, lowered, rsplit_once, same, same_ignoring_case,
    split_at_last,
    to_lower, trim, trimmed,
};
use vstd::prelude::*;

verus! {

/// Whether `s` names a reasoning effort in its canonical form.
pub open spec fn is_effort(s: Seq<char>) -> bool {
    s == "minimal"@ || s == "low"@ || s == "medium"@ || s == "high"@ || s == "xhigh"@
}

/// The canonical form of a reasoning effort, up to case and white space around it.
pub open spec fn canonical_effort(value: Seq<char>) -> Option<Seq<char>> {
    let word = lowered(trimmed(value));
    if is_effort(word) {
        Some(word)
    } else {
        None
    }
}

/// The base model and the effort that a model alias `base-effort` stands for.
pub open spec fn alias_parts(requested: Seq<char>) -> Option<(Seq<char>, Seq<char>)> {
    match split_at_last(trimmed(requested), '-') {
        Some((base, suffix)) => match canonical_effort(suffix) {
            Some(effort) => if is_blank(base) {
                None
            } else {
                Some((trimmed(base), effort))
            },
            None => None,
        },
        None => None,
    }
}

/// An effort as a caller gave it: trimmed, in canonical form where it has one, and dropped
/// where nothing is left.
pub open spec fn cleaned_effort(effort: Option<Seq<char>>) -> Option<Seq<char>> {
    match effort {
        Some(value) => if is_blank(value) {
            None
        } else {
            match canonical_effort(trimmed(value)) {
                Some(canonical) => Some(canonical),
                None => Some(trimmed(value)),
            }
        },
        None => None,
    }
}

/// Whether the alias in `model` contradicts the effort that was given beside it.
pub open spec fn alias_conflicts(model: Seq<char>, effort: Option<Seq<char>>) -> bool {
    match (alias_parts(trimmed(model)), cleaned_effort(effort)) {
        (Some((_, alias_effort)), Some(given)) => lowered(given) != lowered(alias_effort),
        _ => false,
    }
}

/// The model and effort that a request asks for, its alias resolved.
pub open spec fn normalized_model(model: Seq<char>, effort: Option<Seq<char>>) -> (
    Seq<char>,
    Option<Seq<char>>,
) {
    match alias_parts(trimmed(model)) {
        Some((base, alias_effort)) => (base, Some(alias_effort)),
        None => (trimmed(model), cleaned_effort(effort)),
    }
}

/// The message for an alias that contradicts the effort given beside it.
pub open spec fn conflict_message(model: Seq<char>, alias_effort: Seq<char>, given: Seq<char>) -> Seq<
    char,
> {
    "Model alias `"@ + model + "` implies reasoning_effort `"@ + alias_effort
        + "`, which conflicts with explicit reasoning_effort `"@ + given + "`."@
}

/// The canonical form of a reasoning effort.
pub fn canonical_reasoning_effort(value: &str) -> (effort: Option<&'static str>)
    ensures
        slice_text(effort) == canonical_effort(value@),
{
    let word = to_lower(trim(value));
    if same(word.as_str(), "minimal") {
        Some("minimal")
    } else if same(word.as_str(), "low") {
        Some("low")
    } else if same(word.as_str(), "medium") {
        Some("medium")
    } else if same(word.as_str(), "high") {
        Some("high")
    } else if same(word.as_str(), "xhigh") {
        Some("xhigh")
    } else {
        None
    }
}

/// The base model and the effort that a model alias stands for.
pub fn split_model_reasoning_alias(requested: &str) -> (alias: Option<(String, &'static str)>)
    ensures
        match alias {
            Some((base, effort)) => alias_parts(requested@) == Some((base@, effort@)),
            None => alias_parts(requested@) is None,
        },
{
    let trimmed_model = trim(requested);
    let (base, suffix) = match rsplit_once(trimmed_model, '-') {
        Some(parts) => parts,
        None => {
            return None;
        },
    };
    let effort = match canonical_reasoning_effort(suffix) {
        Some(effort) => effort,
        None => {
            return None;
        },
    };
    let base = trim(base);
    if base.is_empty() {
        return None;
    }
    Some((base.to_owned(), effort))
}

/// An effort as a caller gave it, cleaned up.
pub fn clean_effort(effort: &Option<String>) -> (cleaned: Option<String>)
    ensures
        text_of(cleaned) == cleaned_effort(text_of(*effort)),
{
    match effort {
        Some(value) => {
            let value = trim(value.as_str());
            if value.is_empty() {
                None
            } else {
                match canonical_reasoning_effort(value) {
                    Some(canonical) => Some(canonical.to_owned()),
                    None => Some(value.to_owned()),
                }
            }
        },
        None => None,
    }
}

/// Resolves the alias in the request's model and cleans up its effort.
pub fn normalize_model_and_reasoning(request: &mut ChatCompletionRequest) -> (outcome: Result<
    (),
    AppError,
>)
    ensures
        ({
            let model = old(request).model@;
            let effort = text_of(old(request).reasoning_effort);
            let settled = match outcome {
                Ok(_) => normalized_model(model, effort),
                Err(_) => (trimmed(model), cleaned_effort(effort)),
            };
            &&& outcome is Err <==> alias_conflicts(model, effort)
            &&& outcome matches Err(error) ==> error matches AppError::BadRequest(message)
                && message@ == conflict_message(
                trimmed(model),
                (alias_parts(trimmed(model))->0).1,
                cleaned_effort(effort)->0,
            )
            &&& final(request).model@ == settled.0
            &&& text_of(final(request).reasoning_effort) == settled.1
            &&& *final(request) == (ChatCompletionRequest {
                model: final(request).model,
                reasoning_effort: final(request).reasoning_effort,
                ..*old(request)
            })
        }),
{
    request.model = trim(request.model.as_str()).to_owned();
    request.reasoning_effort = clean_effort(&request.reasoning_effort);
    match split_model_reasoning_alias(request.model.as_str()) {
        Some((base_model, alias_effort)) => {
            match &request.reasoning_effort {
                Some(explicit_effort) => {
                    if !same_ignoring_case(explicit_effort.as_str(), alias_effort) {
                        let mut message = "Model alias `".to_owned();
                        message.append(request.model.as_str());
                        message.append("` implies reasoning_effort `");
                        message.append(alias_effort);
                        message.append("`, which conflicts with explicit reasoning_effort `");
                        message.append(explicit_effort.as_str());
                        message.append("`.");
                        return Err(AppError::BadRequest(message));
                    }
                },
                None => {},
            }
            request.model = base_model;
            request.reasoning_effort = Some(alias_effort.to_owned());
        },
        None => {},
    }
    Ok(())
}

/// Whether a request leaves the choice of the model open.
pub open spec fn asks_for_default(model: Seq<char>) -> bool {
    is_blank(model) || lowered(trimmed(model)) == "default"@
}

/// The model and effort after the configured default has been applied.
pub open spec fn with_default_model(
    config: AppConfig,
    model: Seq<char>,
    effort: Option<Seq<char>>,
) -> (Seq<char>, Option<Seq<char>>) {
    if config.has_explicit_default_model && asks_for_default(model) {
        (
            config.default_model@,
            match effort {
                Some(given) => Some(given),
                None => text_of(config.default_reasoning_effort),
            },
        )
    } else {
        (model, effort)
    }
}

/// Whether a text asks for the default model.
pub fn wants_default(model: &str) -> (yes: bool)
    ensures
        yes == asks_for_default(model@),
{
    let requested = trim(model);
    if requested.is_empty() {
        return true;
    }
    let word = to_lower(requested);
    same(word.as_str(), "default")
}

/// Puts the configured default model in place where the request leaves the choice open.
pub fn apply_configured_default_model(config: &AppConfig, request: &mut ChatCompletionRequest)
    ensures
        (final(request).model@, text_of(final(request).reasoning_effort)) == with_default_model(
            *config,
            old(request).model@,
            text_of(old(request).reasoning_effort),
        ),
        *final(request) == (ChatCompletionRequest {
            model: final(request).model,
            reasoning_effort: final(request).reasoning_effort,
            ..*old(request)
        }),
{
    if !config.has_explicit_default_model || !wants_default(request.model.as_str()) {
        return;
    }
    request.model = config.default_model.clone();
    if request.reasoning_effort.is_none() {
        request.reasoning_effort = copy_text(&config.default_reasoning_effort);
    }
}

/// The complaint about a request's shape, where there is one.
pub open spec fn shape_complaint(request: ChatCompletionRequest) -> Option<Seq<char>> {
    if request.messages@.len() == 0 {
        Some("`messages` must not be empty"@)
    } else if request.n is Some && request.n != Some(1u32) {
        Some("This wrapper currently supports only `n = 1`."@)
    } else {
        None
    }
}

/// Checks the request's shape.
pub fn validate_chat_request_shape(request: &ChatCompletionRequest) -> (outcome: Result<
    (),
    AppError,
>)
    ensures
        match outcome {
            Ok(_) => shape_complaint(*request) is None,
            Err(error) => error matches AppError::BadRequest(message) && shape_complaint(*request)
                == Some(message@),
        },
{
    if request.messages.is_empty() {
        return Err(AppError::BadRequest("`messages` must not be empty".to_owned()));
    }
    match request.n {
        Some(n) => {
            if n != 1 {
                return Err(
                    AppError::BadRequest(
                        "This wrapper currently supports only `n = 1`.".to_owned(),
                    ),
                );
            }
        },
        None => {},
    }
    Ok(())
}

proof fn lemma_effort_word(e: Seq<char>)
    requires
        is_effort(e),
    ensures
        e.len() > 0,
        lowered(e) == e,
        trimmed(e) == e,
        forall|i: int| 0 <= i < e.len() ==> #[trigger] e[i] != '-',
        canonical_effort(e) == Some(e),
{
    reveal_strlit("minimal");
    reveal_strlit("low");
    reveal_strlit("medium");
    reveal_strlit("high");
    reveal_strlit("xhigh");
    assert(lowered(e) =~= e);
    lemma_trimmed_fixed(e);
}

proof fn lemma_lowered_twice(s: Seq<char>)
    ensures
        lowered(lowered(s)) == lowered(s),
{
    assert(lowered(lowered(s)) =~= lowered(s));
}

/// A model alias `base-effort` stands for its base and its effort, for every base without white
/// space around it.
pub proof fn law_alias_stands_for_base_and_effort(base: Seq<char>, effort: Seq<char>)
    requires
        base.len() > 0,
        trimmed(base) == base,
        is_effort(effort),
    ensures
        alias_parts(base + "-"@ + effort) == Some((base, effort)),
        normalized_model(base + "-"@ + effort, None) == (base, Some(effort)),
{
    let alias = base + "-"@ + effort;
    lemma_effort_word(effort);
    assert(trimmed(alias) == alias) by {
        lemma_trimmed_ends(base);
        lemma_trimmed_ends(effort);
        assert(alias.first() == base.first());
        assert(alias.last() == effort.last());
        lemma_trimmed_fixed(alias);
    }
    assert(split_at_last(alias, '-') == Some((base, effort))) by {
        lemma_split_alias(base, effort);
    }
}

proof fn lemma_split_alias(base: Seq<char>, effort: Seq<char>)
    requires
        forall|i: int| 0 <= i < effort.len() ==> #[trigger] effort[i] != '-',
    ensures
        split_at_last(base + "-"@ + effort, '-') == Some((base, effort)),
{
    reveal_strlit("-");
    let alias = base + "-"@ + effort;
    let at = base.len() as int;
    assert(alias[at] == '-');
    assert forall|j: int| at < j < alias.len() implies #[trigger] alias[j] != '-' by {
        assert(alias[j] == effort[j - at - 1]);
    }
    lemma_last_position(alias, '-', at);
    assert(alias.take(at) == base);
    assert(alias.skip(at + 1) == effort);
}

/// Where an alias and an effort are both given, they must agree: the request is refused exactly
/// if the effort is not blank and is another one.
pub proof fn law_alias_and_effort_must_agree(model: Seq<char>, effort: Seq<char>)
    requires
        alias_parts(trimmed(model)) is Some,
    ensures
        alias_conflicts(model, Some(effort)) <==> !is_blank(effort) && canonical_effort(effort)
            != Some((alias_parts(trimmed(model))->0).1),
        !alias_conflicts(model, None),
{
    let named = (alias_parts(trimmed(model))->0).1;
    lemma_effort_word(named);
    lemma_trimmed_idempotent(effort);
    lemma_lowered_twice(trimmed(effort));
}

/// A configured default model means what a request for it means: an alias brings its effort,
/// a plain model takes the configured one.
pub proof fn law_configured_default_means_what_requesting_it_means(
    model: Seq<char>,
    effort: Option<Seq<char>>,
)
    requires
        !is_blank(model),
    ensures
        ({
            let setting = default_model_setting(Some(model), effort);
            &&& setting.2
            &&& (setting.0, setting.1) == (if alias_parts(trimmed(model)) is Some {
                normalized_model(model, None)
            } else {
                normalized_model(model, effort)
            })
        }),
{
}

/// A request for `default` gets the configured model with the configured effort; an effort of
/// its own comes before that, and a request for any other model is left alone.
pub proof fn law_default_requests_get_the_configured_model(
    config: AppConfig,
    effort: Option<Seq<char>>,
    other: Seq<char>,
)
    requires
        config.has_explicit_default_model,
        !asks_for_default(other),
    ensures
        with_default_model(config, "default"@, None) == (
            config.default_model@,
            text_of(config.default_reasoning_effort),
        ),
        effort is Some ==> with_default_model(config, "default"@, effort) == (
            config.default_model@,
            effort,
        ),
        with_default_model(config, other, effort) == (other, effort),
{
    reveal_strlit("default");
    lemma_trimmed_fixed("default"@);
    assert(lowered("default"@) =~= "default"@);
}

/// A model and effort that have been settled stay as they are, unless the model that is left
/// is itself an alias.
pub proof fn law_settled_model_is_stable(model: Seq<char>, effort: Option<Seq<char>>)
    requires
        !alias_conflicts(model, effort),
        alias_parts(normalized_model(model, effort).0) is None,
    ensures
        ({
            let settled = normalized_model(model, effort);
            &&& !alias_conflicts(settled.0, settled.1)
            &&& normalized_model(settled.0, settled.1) == settled
        }),
{
    let settled = normalized_model(model, effort);
    lemma_trimmed_idempotent(model);
    match alias_parts(trimmed(model)) {
        Some((base, named)) => {
            let parts = split_at_last(trimmed(trimmed(model)), '-')->0;
            lemma_trimmed_idempotent(parts.0);
            lemma_effort_word(named);
        },
        None => {
            match effort {
                Some(given) => {
                    lemma_trimmed_idempotent(given);
                    match canonical_effort(trimmed(given)) {
                        Some(canonical) => {
                            lemma_effort_word(canonical);
                        },
                        None => {},
                    }
                },
                None => {},
            }
        },
    }
}

/// The five efforts, written in small letters, stand for themselves.
pub proof fn law_efforts_stand_for_themselves(effort: Seq<char>)
    requires
        effort == "minimal"@ || effort == "low"@ || effort == "medium"@ || effort == "high"@
            || effort == "xhigh"@,
    ensures
        canonical_effort(effort) == Some(effort),
        cleaned_effort(Some(effort)) == Some(effort),
        is_effort(effort),
        lowered(effort) == effort,
{
    lemma_effort_word(effort);
}

/// An effort is recognised in any case and with white space around it, and nothing else is an
/// effort.
pub proof fn law_efforts_are_recognised(value: Seq<char>)
    ensures
        canonical_effort(value) is Some <==> lowered(trimmed(value)) == "minimal"@ || lowered(
            trimmed(value),
        ) == "low"@ || lowered(trimmed(value)) == "medium"@ || lowered(trimmed(value)) == "high"@
            || lowered(trimmed(value)) == "xhigh"@,
        canonical_effort(value) matches Some(effort) ==> effort == lowered(trimmed(value)),
{
}

/// An alias without white space around its base has none around itself.
pub proof fn law_alias_is_trimmed(base: Seq<char>, effort: Seq<char>)
    requires
        base.len() > 0,
        trimmed(base) == base,
        is_effort(effort),
    ensures
        trimmed(base + "-"@ + effort) == base + "-"@ + effort,
{
    let alias = base + "-"@ + effort;
    lemma_effort_word(effort);
    lemma_trimmed_ends(base);
    lemma_trimmed_ends(effort);
    assert(alias.first() == base.first());
    assert(alias.last() == effort.last());
    lemma_trimmed_fixed(alias);
}

/// A model alias names its base and one of the five efforts, for every base without white space
/// around it; a name without a hyphen is no alias, nor is one that ends in another word.
pub proof fn law_aliases_end_in_an_effort(base: Seq<char>, word: Seq<char>, plain: Seq<char>)
    requires
        base.len() > 0,
        trimmed(base) == base,
        word.len() > 0,
        trimmed(word) == word,
        lowered(word) == word,
        !word.contains('-'),
        !plain.contains('-'),
    ensures
        word == "minimal"@ || word == "low"@ || word == "medium"@ || word == "high"@ || word
            == "xhigh"@ ==> alias_parts(base + "-"@ + word) == Some((base, word)),
        word != "minimal"@ && word != "low"@ && word != "medium"@ && word != "high"@ && word
            != "xhigh"@ ==> alias_parts(base + "-"@ + word) is None,
        alias_parts(plain) is None,
{
    if is_effort(word) {
        law_alias_stands_for_base_and_effort(base, word);
    } else {
        let alias = base + "-"@ + word;
        assert(trimmed(alias) == alias) by {
            lemma_trimmed_ends(base);
            lemma_trimmed_ends(word);
            assert(alias.first() == base.first());
            assert(alias.last() == word.last());
            lemma_trimmed_fixed(alias);
        }
        assert forall|i: int| 0 <= i < word.len() implies #[trigger] word[i] != '-' by {
            assert(word.contains(word[i]));
        }
        lemma_split_alias(base, word);
    }
    law_plain_names_are_no_aliases(plain);
}

/// A given effort is kept without the white space around it; a blank one is none at all.
pub proof fn law_given_effort_is_kept(effort: Seq<char>)
    ensures
        is_blank(effort) ==> cleaned_effort(Some(effort)) is None,
        !is_blank(effort) ==> cleaned_effort(Some(effort)) is Some && lowered(
            cleaned_effort(Some(effort))->0,
        ) == lowered(trimmed(effort)),
        !is_blank(effort) && canonical_effort(effort) is None ==> cleaned_effort(Some(effort))
            == Some(trimmed(effort)),
        !is_blank(effort) && canonical_effort(effort) is Some ==> cleaned_effort(Some(effort))
            == canonical_effort(effort),
        cleaned_effort(None) is None,
{
    lemma_trimmed_idempotent(effort);
    lemma_lowered_twice(trimmed(effort));
}

/// A model that is no alias is kept without the white space around it, and takes the effort that
/// was given beside it; an alias takes its own.
pub proof fn law_settled_model_is_the_one_asked_for(
    model: Seq<char>,
    effort: Seq<char>,
    base: Seq<char>,
    named: Seq<char>,
)
    requires
        effort == "minimal"@ || effort == "low"@ || effort == "medium"@ || effort == "high"@
            || effort == "xhigh"@,
        named == "minimal"@ || named == "low"@ || named == "medium"@ || named == "high"@ || named
            == "xhigh"@,
        !model.contains('-'),
        base.len() > 0,
        trimmed(base) == base,
    ensures
        normalized_model(model, Some(effort)) == (trimmed(model), Some(effort)),
        normalized_model(model, None) == (trimmed(model), None::<Seq<char>>),
        normalized_model(base + "-"@ + named, None) == (base, Some(named)),
        normalized_model(base + "-"@ + named, Some(named)) == (base, Some(named)),
        !alias_conflicts(model, Some(effort)),
        !alias_conflicts(base + "-"@ + named, Some(named)),
        effort != named ==> alias_conflicts(base + "-"@ + named, Some(effort)),
{
    law_efforts_stand_for_themselves(effort);
    law_efforts_stand_for_themselves(named);
    let (before, after) = law_trimming_removes_outer_white_space(model);
    let name = trimmed(model);
    if name.contains('-') {
        let i = choose|i: int| 0 <= i < name.len() && name[i] == '-';
        assert(model[before.len() + i] == '-');
    }
    law_efforts_make_aliases(base, named);
    law_plain_names_are_no_aliases(name);
    law_alias_is_trimmed(base, named);
    lemma_trimmed_idempotent(model);
}

/// A base, a hyphen and an effort make an alias.
pub proof fn law_efforts_make_aliases(base: Seq<char>, effort: Seq<char>)
    requires
        base.len() > 0,
        trimmed(base) == base,
        effort == "minimal"@ || effort == "low"@ || effort == "medium"@ || effort == "high"@
            || effort == "xhigh"@,
    ensures
        alias_parts(base + "-"@ + effort) == Some((base, effort)),
{
    law_alias_stands_for_base_and_effort(base, effort);
}

/// A name without a hyphen is no alias.
pub proof fn law_plain_names_are_no_aliases(plain: Seq<char>)
    requires
        !plain.contains('-'),
    ensures
        alias_parts(plain) is None,
{
    let name = trimmed(plain);
    let (before, after) = law_trimming_removes_outer_white_space(plain);
    law_splitting_cuts_at_the_last(name, '-');
    if let Some((head, tail)) = split_at_last(name, '-') {
        assert(name[head.len() as int] == '-');
        assert(plain[(before.len() + head.len()) as int] == '-');
        assert(plain.contains('-'));
    }
}

/// A request leaves the choice of the model open exactly if its model is blank or reads
/// `default` in any case, with or without white space around it.
pub proof fn law_default_is_asked_for_by_name(model: Seq<char>)
    ensures
        (forall|i: int| 0 <= i < model.len() ==> is_white_space(#[trigger] model[i]))
            ==> asks_for_default(model),
        lowered(trimmed(model)) == "default"@ ==> asks_for_default(model),
        asks_for_default(model) ==> (forall|i: int|
            0 <= i < model.len() ==> is_white_space(#[trigger] model[i])) || lowered(
            trimmed(model),
        ) == "default"@,
{
    law_blank_text_is_all_white_space(model);
}

/// The shape of a request is complained about where it has no message or asks for a number of
/// answers other than one, and nowhere else.
pub proof fn law_shape_needs_a_message_and_one_answer(request: ChatCompletionRequest)
    ensures
        shape_complaint(request) is None <==> request.messages@.len() > 0 && (request.n is None
            || request.n == Some(1u32)),
        request.messages@.len() == 0 ==> shape_complaint(request) == Some(
            "`messages` must not be empty"@,
        ),
        request.messages@.len() > 0 && request.n is Some && request.n->0 != 1 ==> shape_complaint(
            request,
        ) == Some("This wrapper currently supports only `n = 1`."@),
{
}

/// Where a default model is configured, every request that leaves the choice open gets it, with
/// its own effort where it has one and else the configured one; where none is, it is left alone.
pub proof fn law_open_choice_gets_the_configured_model(
    config: AppConfig,
    model: Seq<char>,
    effort: Seq<char>,
)
    requires
        is_blank(model) || lowered(trimmed(model)) == "default"@,
    ensures
        config.has_explicit_default_model ==> with_default_model(config, model, None).0
            == config.default_model@,
        config.has_explicit_default_model ==> with_default_model(config, model, Some(effort)) == (
            config.default_model@,
            Some(effort),
        ),
        config.has_explicit_default_model ==> (config.default_reasoning_effort matches Some(set)
            ==> with_default_model(config, model, None).1 == Some(set@)),
        !config.has_explicit_default_model ==> with_default_model(config, model, Some(effort)) == (
            model,
            Some(effort),
        ),
{
}

/// The effort of an alias is recognised as any effort is, and an alias needs a base.
pub proof fn law_alias_efforts_are_recognised(base: Seq<char>, suffix: Seq<char>)
    requires
        base.len() > 0,
        trimmed(base) == base,
        suffix.len() > 0,
        trimmed(suffix) == suffix,
        !suffix.contains('-'),
    ensures
        canonical_effort(suffix) matches Some(effort) ==> alias_parts(base + "-"@ + suffix) == Some(
            (base, effort),
        ),
        alias_parts("-"@ + suffix) is None,
{
    let alias = base + "-"@ + suffix;
    lemma_trimmed_ends(base);
    lemma_trimmed_ends(suffix);
    assert(alias.first() == base.first());
    assert(alias.last() == suffix.last());
    lemma_trimmed_fixed(alias);
    assert forall|i: int| 0 <= i < suffix.len() implies #[trigger] suffix[i] != '-' by {
        assert(suffix.contains(suffix[i]));
    }
    lemma_split_alias(base, suffix);
    reveal_strlit("-");
    let bare = "-"@ + suffix;
    assert(bare.last() == suffix.last());
    assert(bare.first() == '-');
    lemma_trimmed_fixed(bare);
    lemma_split_alias(Seq::empty(), suffix);
    assert(Seq::<char>::empty() + "-"@ + suffix =~= bare);
    law_blank_text_is_all_white_space(Seq::empty());
}

} // verus!
