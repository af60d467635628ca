//! The models that Codex offers: caching, resolving a requested name, and listing.

use crate::error::AppError;
use crate::json::{integer, json_views, text_of, text_or_null, JsonValue, JsonView};
use crate::limiter::{clamped_difference, saturating_difference, signed_seconds};
use crate::reasoning::{asks_for_default, wants_default};
use crate::text::{concat3, lowered, same_ignoring_case, trim, trimmed};
use vstd::prelude::*;

verus! {

/// A model that Codex offers.
#[derive(Debug)]
pub struct CodexModel {
    pub id: String,
    pub model: String,
    pub display_name: String,
    pub description: String,
    pub hidden: bool,
    pub is_default: bool,
    pub default_reasoning_effort: String,
}

impl Clone for CodexModel {
    fn clone(&self) -> (copy: CodexModel)
        ensures
            copy == *self,
    {
        CodexModel {
            id: self.id.clone(),
            model: self.model.clone(),
            display_name: self.display_name.clone(),
            description: self.description.clone(),
            hidden: self.hidden,
            is_default: self.is_default,
            default_reasoning_effort: self.default_reasoning_effort.clone(),
        }
    }
}

/// Copies a list of models.
pub fn copy_models(models: &Vec<CodexModel>) -> (copies: Vec<CodexModel>)
    ensures
        copies@ == models@,
{
    let mut copies: Vec<CodexModel> = Vec::new();
    let mut at: usize = 0;
    while at < models.len()
        invariant
            at <= models.len(),
            copies@ == models@.take(at as int),
        decreases models.len() - at,
    {
        copies.push(models[at].clone());
        at = at + 1;
    }
    copies
}

/// The models as they were at some time.
pub struct CachedModels {
    pub fetched_at: i64,
    pub models: Vec<CodexModel>,
}

/// Keeps the list of models for `ttl_secs` seconds.
pub struct ModelCache {
    pub ttl_secs: u64,
    pub cached: Option<CachedModels>,
}

/// Whether what was fetched at `fetched_at` still counts at `now`.
pub open spec fn still_fresh(fetched_at: i64, now: i64, ttl_secs: u64) -> bool {
    clamped_difference(now, fetched_at) < signed_seconds(ttl_secs)
}

impl ModelCache {
    /// A cache that holds nothing.
    pub fn new(ttl_secs: u64) -> (cache: ModelCache)
        ensures
            cache.ttl_secs == ttl_secs,
            cache.cached is None,
    {
        ModelCache { ttl_secs, cached: None }
    }

    /// The models that can be used at `now` without asking Codex again.
    pub open spec fn usable(self, now: i64) -> Option<Seq<CodexModel>> {
        match self.cached {
            Some(cached) => if still_fresh(cached.fetched_at, now, self.ttl_secs) {
                Some(cached.models@)
            } else {
                None
            },
            None => None,
        }
    }

    /// The models that can be used at `now` without asking Codex again.
    pub fn get(&self, now: i64) -> (models: Option<Vec<CodexModel>>)
        ensures
            match models {
                Some(list) => self.usable(now) == Some(list@),
                None => self.usable(now) is None,
            },
    {
        match &self.cached {
            Some(cached) => {
                let age: i64 = saturating_difference(now, cached.fetched_at);
                let ttl: i64 = #[verifier::truncate]
                (self.ttl_secs as i64);
                if age < ttl {
                    Some(copy_models(&cached.models))
                } else {
                    None
                }
            },
            None => None,
        }
    }

    /// Keeps the models that were asked for at `now`.
    pub fn refresh(&mut self, now: i64, models: &Vec<CodexModel>)
        ensures
            final(self).ttl_secs == old(self).ttl_secs,
            final(self).cached matches Some(cached) && cached.fetched_at == now
                && cached.models@ == models@,
    {
        self.cached = Some(CachedModels { fetched_at: now, models: copy_models(models) });
    }
}

/// Refreshed models are used until the cache's time has passed, and not after it.
pub proof fn law_refreshed_models_are_used_for_the_ttl(cache: ModelCache, asked: i64, now: i64)
    requires
        cache.ttl_secs <= i64::MAX,
        cache.cached is Some,
        cache.cached->0.fetched_at == asked,
        asked <= now,
    ensures
        cache.usable(now) is Some <==> now - asked < cache.ttl_secs,
        cache.usable(now) is Some ==> cache.usable(now) == Some(cache.cached->0.models@),
{
}

/// Whether a model goes by this name: its model name, id or display name, up to case.
pub open spec fn goes_by(model: CodexModel, name: Seq<char>) -> bool {
    lowered(model.model@) == lowered(name) || lowered(model.id@) == lowered(name) || lowered(
        model.display_name@,
    ) == lowered(name)
}

/// The first model that goes by this name.
pub open spec fn first_named(models: Seq<CodexModel>, name: Seq<char>) -> Option<CodexModel>
    decreases models.len(),
{
    if models.len() == 0 {
        None
    } else if goes_by(models.first(), name) {
        Some(models.first())
    } else {
        first_named(models.drop_first(), name)
    }
}

/// The first model that Codex marks as its default.
pub open spec fn first_default(models: Seq<CodexModel>) -> Option<CodexModel>
    decreases models.len(),
{
    if models.len() == 0 {
        None
    } else if models.first().is_default {
        Some(models.first())
    } else {
        first_default(models.drop_first())
    }
}

/// The model that a requested name stands for: for the default, what Codex marks as such,
/// else the configured one; for any other name, the first model that goes by it.
pub open spec fn resolved_model(
    models: Seq<CodexModel>,
    default_model: Seq<char>,
    requested: Seq<char>,
) -> Option<Seq<char>> {
    if asks_for_default(requested) {
        match first_default(models) {
            Some(model) => Some(model.model@),
            None => Some(default_model),
        }
    } else {
        match first_named(models, trimmed(requested)) {
            Some(model) => Some(model.model@),
            None => None,
        }
    }
}

fn find_named(models: &Vec<CodexModel>, name: &str) -> (place: Option<usize>)
    ensures
        match place {
            Some(at) => at < models.len() && first_named(models@, name@) == Some(models@[at as int]),
            None => first_named(models@, name@) is None,
        },
{
    let mut at: usize = 0;
    assert(models@.skip(0) == models@);
    while at < models.len()
        invariant
            at <= models.len(),
            first_named(models@, name@) == first_named(models@.skip(at as int), name@),
        decreases models.len() - at,
    {
        let candidate = &models[at];
        if same_ignoring_case(candidate.model.as_str(), name) || same_ignoring_case(
            candidate.id.as_str(),
            name,
        ) || same_ignoring_case(candidate.display_name.as_str(), name) {
            return Some(at);
        }
        assert(models@.skip(at as int).drop_first() == models@.skip(at + 1));
        at = at + 1;
    }
    None
}

fn find_default(models: &Vec<CodexModel>) -> (place: Option<usize>)
    ensures
        match place {
            Some(at) => at < models.len() && first_default(models@) == Some(models@[at as int]),
            None => first_default(models@) is None,
        },
{
    let mut at: usize = 0;
    assert(models@.skip(0) == models@);
    while at < models.len()
        invariant
            at <= models.len(),
            first_default(models@) == first_default(models@.skip(at as int)),
        decreases models.len() - at,
    {
        if models[at].is_default {
            return Some(at);
        }
        assert(models@.skip(at as int).drop_first() == models@.skip(at + 1));
        at = at + 1;
    }
    None
}

/// The message for a name that no model goes by.
pub open spec fn unsupported_model(requested: Seq<char>) -> Seq<char> {
    "Unsupported model `"@ + trimmed(requested)
        + "`. Call `/v1/models` to see the available Codex-backed models."@
}

/// The model that a requested name stands for.
pub fn resolve_model(models: &Vec<CodexModel>, default_model: &str, requested: &str) -> (outcome:
    Result<String, AppError>)
    ensures
        match outcome {
            Ok(model) => resolved_model(models@, default_model@, requested@) == Some(model@),
            Err(error) => {
                &&& resolved_model(models@, default_model@, requested@) is None
                &&& error matches AppError::BadRequest(message)
                &&& message@ == unsupported_model(requested@)
            },
        },
{
    if wants_default(requested) {
        return match find_default(models) {
            Some(at) => Ok(models[at].model.clone()),
            None => Ok(default_model.to_owned()),
        };
    }
    let name = trim(requested);
    match find_named(models, name) {
        Some(at) => Ok(models[at].model.clone()),
        None => Err(
            AppError::BadRequest(
                concat3(
                    "Unsupported model `",
                    name,
                    "`. Call `/v1/models` to see the available Codex-backed models.",
                ),
            ),
        ),
    }
}

/// A resolved model is one that Codex offers, or the configured default.
pub proof fn law_resolved_model_is_offered(
    models: Seq<CodexModel>,
    default_model: Seq<char>,
    requested: Seq<char>,
)
    requires
        resolved_model(models, default_model, requested) is Some,
    ensures
        ({
            let resolved = resolved_model(models, default_model, requested)->0;
            ||| exists|i: int| 0 <= i < models.len() && (#[trigger] models[i]).model@ == resolved
            ||| asks_for_default(requested) && resolved == default_model && forall|i: int|
                0 <= i < models.len() ==> !(#[trigger] models[i]).is_default
        }),
{
    if asks_for_default(requested) {
        lemma_first_default(models);
    } else {
        lemma_first_named(models, trimmed(requested));
    }
}

/// Every name that a model goes by resolves, unless it asks for the default.
pub proof fn law_offered_models_resolve(
    models: Seq<CodexModel>,
    default_model: Seq<char>,
    requested: Seq<char>,
    at: int,
)
    requires
        0 <= at < models.len(),
        goes_by(models[at], trimmed(requested)),
    ensures
        resolved_model(models, default_model, requested) is Some,
{
    lemma_first_named(models, trimmed(requested));
}

proof fn lemma_first_named(models: Seq<CodexModel>, name: Seq<char>)
    ensures
        match first_named(models, name) {
            Some(model) => goes_by(model, name) && exists|i: int|
                0 <= i < models.len() && #[trigger] models[i] == model,
            None => forall|i: int| 0 <= i < models.len() ==> !goes_by(#[trigger] models[i], name),
        },
    decreases models.len(),
{
    if models.len() > 0 {
        if goes_by(models.first(), name) {
            assert(models[0] == models.first());
        } else {
            let rest = models.drop_first();
            lemma_first_named(rest, name);
            match first_named(rest, name) {
                Some(model) => {
                    let i = choose|i: int| 0 <= i < rest.len() && #[trigger] rest[i] == model;
                    assert(models[i + 1] == model);
                },
                None => {
                    assert forall|i: int| 0 <= i < models.len() implies !goes_by(
                        #[trigger] models[i],
                        name,
                    ) by {
                        if i > 0 {
                            assert(rest[i - 1] == models[i]);
                        }
                    }
                },
            }
        }
    }
}

proof fn lemma_first_default(models: Seq<CodexModel>)
    ensures
        match first_default(models) {
            Some(model) => model.is_default && exists|i: int|
                0 <= i < models.len() && #[trigger] models[i] == model,
            None => forall|i: int| 0 <= i < models.len() ==> !(#[trigger] models[i]).is_default,
        },
    decreases models.len(),
{
    if models.len() > 0 {
        if models.first().is_default {
            assert(models[0] == models.first());
        } else {
            let rest = models.drop_first();
            lemma_first_default(rest);
            match first_default(rest) {
                Some(model) => {
                    let i = choose|i: int| 0 <= i < rest.len() && #[trigger] rest[i] == model;
                    assert(models[i + 1] == model);
                },
                None => {
                    assert forall|i: int| 0 <= i < models.len() implies !(
                    #[trigger] models[i]).is_default by {
                        if i > 0 {
                            assert(rest[i - 1] == models[i]);
                        }
                    }
                },
            }
        }
    }
}

/// A model as the model list shows it.
pub open spec fn listed_model(model: CodexModel) -> JsonView {
    JsonView::Object(
        map![
            "id"@ => JsonView::Text(model.model@),
            "object"@ => JsonView::Text("model"@),
            "created"@ => integer(0),
            "owned_by"@ => JsonView::Text("openai"@),
            "provider"@ => JsonView::Text("codex"@),
            "codex_id"@ => JsonView::Text(model.id@),
            "display_name"@ => JsonView::Text(model.display_name@),
            "description"@ => JsonView::Text(model.description@),
            "default_reasoning_effort"@ => JsonView::Text(model.default_reasoning_effort@),
            "is_default"@ => JsonView::Bool(model.is_default),
            "supports_streaming"@ => JsonView::Bool(true),
            "supports_response_format"@ => JsonView::Bool(true),
        ],
    )
}

/// The models that are not hidden, as the model list shows them.
pub open spec fn listed_models(models: Seq<CodexModel>) -> Seq<JsonView>
    decreases models.len(),
{
    if models.len() == 0 {
        Seq::empty()
    } else {
        let before = listed_models(models.drop_last());
        if models.last().hidden {
            before
        } else {
            before.push(listed_model(models.last()))
        }
    }
}

/// The model list shows every model that is not hidden, and nothing else.
pub proof fn law_list_shows_the_models_that_are_not_hidden(models: Seq<CodexModel>)
    ensures
        forall|i: int|
            0 <= i < models.len() && !(#[trigger] models[i]).hidden ==> listed_models(
                models,
            ).contains(listed_model(models[i])),
        forall|k: int|
            0 <= k < listed_models(models).len() ==> exists|i: int|
                0 <= i < models.len() && !(#[trigger] models[i]).hidden && listed_model(models[i])
                    == #[trigger] listed_models(models)[k],
    decreases models.len(),
{
    if models.len() > 0 {
        let earlier = models.drop_last();
        let (before, listed) = (listed_models(earlier), listed_models(models));
        law_list_shows_the_models_that_are_not_hidden(earlier);
        assert forall|i: int| 0 <= i < models.len() && !(
        #[trigger] models[i]).hidden implies listed.contains(listed_model(models[i])) by {
            if i < earlier.len() {
                assert(earlier[i] == models[i]);
                assert(before.contains(listed_model(earlier[i])));
                let k = choose|k: int|
                    0 <= k < before.len() && before[k] == listed_model(models[i]);
                assert(listed[k] == listed_model(models[i]));
            } else {
                assert(listed[before.len() as int] == listed_model(models[i]));
            }
        }
        assert forall|k: int| 0 <= k < listed.len() implies exists|i: int|
            0 <= i < models.len() && !(#[trigger] models[i]).hidden && listed_model(models[i])
                == #[trigger] listed[k] by {
            if k < before.len() {
                assert(before[k] == listed[k]);
                let i = choose|i: int|
                    0 <= i < earlier.len() && !(#[trigger] earlier[i]).hidden && listed_model(
                        earlier[i],
                    ) == before[k];
                assert(models[i] == earlier[i]);
            } else {
                assert(models[models.len() - 1] == models.last());
            }
        }
    }
}

fn listed_model_json(model: &CodexModel) -> (json: JsonValue)
    ensures
        json@ == listed_model(*model),
{
    JsonValue::object().with("id", JsonValue::from_text(model.model.as_str())).with(
        "object",
        JsonValue::from_text("model"),
    ).with("created", JsonValue::from_u64(0)).with("owned_by", JsonValue::from_text("openai")).with(
        "provider",
        JsonValue::from_text("codex"),
    ).with("codex_id", JsonValue::from_text(model.id.as_str())).with(
        "display_name",
        JsonValue::from_text(model.display_name.as_str()),
    ).with("description", JsonValue::from_text(model.description.as_str())).with(
        "default_reasoning_effort",
        JsonValue::from_text(model.default_reasoning_effort.as_str()),
    ).with("is_default", JsonValue::Bool(model.is_default)).with(
        "supports_streaming",
        JsonValue::Bool(true),
    ).with("supports_response_format", JsonValue::Bool(true))
}

/// The reply to a request for the models.
pub fn list_models(models: &Vec<CodexModel>) -> (reply: JsonValue)
    ensures
        reply@ == JsonView::Object(
            map![
                "object"@ => JsonView::Text("list"@),
                "data"@ => JsonView::Array(listed_models(models@)),
            ],
        ),
{
    let mut data: Vec<JsonValue> = Vec::new();
    let mut at: usize = 0;
    while at < models.len()
        invariant
            at <= models.len(),
            json_views(data@) == listed_models(models@.take(at as int)),
        decreases models.len() - at,
    {
        assert(models@.take(at + 1).drop_last() == models@.take(at as int));
        if !models[at].hidden {
            let ghost before = json_views(data@);
            let shown = listed_model_json(&models[at]);
            data.push(shown);
            assert(json_views(data@) == before.push(shown@));
        }
        at = at + 1;
    }
    assert(models@.take(models.len() as int) == models@);
    JsonValue::object().with("object", JsonValue::from_text("list")).with(
        "data",
        JsonValue::array(data),
    )
}

/// The first model whose model name is this one, up to case.
pub open spec fn first_with_model_name(models: Seq<CodexModel>, name: Seq<char>) -> Option<
    CodexModel,
>
    decreases models.len(),
{
    if models.len() == 0 {
        None
    } else if lowered(models.first().model@) == lowered(name) {
        Some(models.first())
    } else {
        first_with_model_name(models.drop_first(), name)
    }
}

/// The details of a resolved model, for the log.
pub fn lookup_model_for_log(models: &Vec<CodexModel>, resolved_model: &str) -> (found: Option<
    CodexModel,
>)
    ensures
        found == first_with_model_name(models@, resolved_model@),
{
    let mut at: usize = 0;
    assert(models@.skip(0) == models@);
    while at < models.len()
        invariant
            at <= models.len(),
            first_with_model_name(models@, resolved_model@) == first_with_model_name(
                models@.skip(at as int),
                resolved_model@,
            ),
        decreases models.len() - at,
    {
        if same_ignoring_case(models[at].model.as_str(), resolved_model) {
            return Some(models[at].clone());
        }
        assert(models@.skip(at as int).drop_first() == models@.skip(at + 1));
        at = at + 1;
    }
    None
}

/// The details of a model as the log shows them.
pub open spec fn model_log(model: Option<CodexModel>) -> JsonView {
    match model {
        Some(m) => JsonView::Object(
            map![
                "id"@ => JsonView::Text(m.model@),
                "codex_id"@ => JsonView::Text(m.id@),
                "display_name"@ => JsonView::Text(m.display_name@),
                "description"@ => JsonView::Text(m.description@),
                "provider"@ => JsonView::Text("codex"@),
                "owned_by"@ => JsonView::Text("openai"@),
                "is_default"@ => JsonView::Bool(m.is_default),
                "default_reasoning_effort"@ => JsonView::Text(m.default_reasoning_effort@),
                "supports_streaming"@ => JsonView::Bool(true),
                "supports_response_format"@ => JsonView::Bool(true),
                "hidden"@ => JsonView::Bool(m.hidden),
            ],
        ),
        None => JsonView::Null,
    }
}

/// The details of a model as the log shows them.
pub fn model_log_value(model: &Option<CodexModel>) -> (json: JsonValue)
    ensures
        json@ == model_log(*model),
{
    match model {
        Some(m) => JsonValue::object().with("id", JsonValue::from_text(m.model.as_str())).with(
            "codex_id",
            JsonValue::from_text(m.id.as_str()),
        ).with("display_name", JsonValue::from_text(m.display_name.as_str())).with(
            "description",
            JsonValue::from_text(m.description.as_str()),
        ).with("provider", JsonValue::from_text("codex")).with(
            "owned_by",
            JsonValue::from_text("openai"),
        ).with("is_default", JsonValue::Bool(m.is_default)).with(
            "default_reasoning_effort",
            JsonValue::from_text(m.default_reasoning_effort.as_str()),
        ).with("supports_streaming", JsonValue::Bool(true)).with(
            "supports_response_format",
            JsonValue::Bool(true),
        ).with("hidden", JsonValue::Bool(m.hidden)),
        None => JsonValue::Null,
    }
}

/// One page of the model list, as Codex sends it.
pub struct CodexModelListResult {
    pub data: Vec<CodexModel>,
    pub next_cursor: Option<String>,
}

/// The model list while its pages are being fetched.
pub struct ModelListing {
    pub models: Vec<CodexModel>,
    /// Where the next page starts.
    pub cursor: Option<String>,
    /// Whether the last page has been read.
    pub complete: bool,
}

impl ModelListing {
    /// A listing that has read nothing.
    pub fn new() -> (listing: ModelListing)
        ensures
            listing.models@ == Seq::<CodexModel>::empty(),
            listing.cursor is None,
            !listing.complete,
    {
        ModelListing { models: Vec::new(), cursor: None, complete: false }
    }

    /// The parameters of the `model/list` request for the next page.
    pub fn params(&self) -> (params: JsonValue)
        ensures
            params@ == JsonView::Object(
                map![
                    "limit"@ => integer(100),
                    "includeHidden"@ => JsonView::Bool(false),
                    "cursor"@ => text_or_null(text_of(self.cursor)),
                ],
            ),
    {
        JsonValue::object().with("limit", JsonValue::from_u64(100)).with(
            "includeHidden",
            JsonValue::Bool(false),
        ).with("cursor", JsonValue::from_optional_text(&self.cursor))
    }

    /// Reads a page.
    pub fn add_page(&mut self, page: CodexModelListResult)
        ensures
            final(self).models@ == old(self).models@ + page.data@,
            final(self).complete == (page.next_cursor is None),
            final(self).cursor == (match page.next_cursor {
                Some(next) => Some(next),
                None => old(self).cursor,
            }),
    {
        let mut data = page.data;
        self.models.append(&mut data);
        match page.next_cursor {
            Some(next) => {
                self.cursor = Some(next);
                self.complete = false;
            },
            None => {
                self.complete = true;
            },
        }
    }
}

proof fn lemma_listed_names()
    ensures
        "id"@ != "object"@,
        "id"@ != "created"@,
        "id"@ != "owned_by"@,
        "id"@ != "provider"@,
        "id"@ != "codex_id"@,
        "id"@ != "display_name"@,
        "id"@ != "description"@,
        "id"@ != "default_reasoning_effort"@,
        "id"@ != "is_default"@,
        "id"@ != "supports_streaming"@,
        "id"@ != "supports_response_format"@,
        "id"@ != "hidden"@,
        "object"@ != "created"@,
        "object"@ != "owned_by"@,
        "object"@ != "provider"@,
        "object"@ != "codex_id"@,
        "object"@ != "display_name"@,
        "object"@ != "description"@,
        "object"@ != "default_reasoning_effort"@,
        "object"@ != "is_default"@,
        "object"@ != "supports_streaming"@,
        "object"@ != "supports_response_format"@,
        "object"@ != "hidden"@,
        "created"@ != "owned_by"@,
        "created"@ != "provider"@,
        "created"@ != "codex_id"@,
        "created"@ != "display_name"@,
        "created"@ != "description"@,
        "created"@ != "default_reasoning_effort"@,
        "created"@ != "is_default"@,
        "created"@ != "supports_streaming"@,
        "created"@ != "supports_response_format"@,
        "created"@ != "hidden"@,
        "owned_by"@ != "provider"@,
        "owned_by"@ != "codex_id"@,
        "owned_by"@ != "display_name"@,
        "owned_by"@ != "description"@,
        "owned_by"@ != "default_reasoning_effort"@,
        "owned_by"@ != "is_default"@,
        "owned_by"@ != "supports_streaming"@,
        "owned_by"@ != "supports_response_format"@,
        "owned_by"@ != "hidden"@,
        "provider"@ != "codex_id"@,
        "provider"@ != "display_name"@,
        "provider"@ != "description"@,
        "provider"@ != "default_reasoning_effort"@,
        "provider"@ != "is_default"@,
        "provider"@ != "supports_streaming"@,
        "provider"@ != "supports_response_format"@,
        "provider"@ != "hidden"@,
        "codex_id"@ != "display_name"@,
        "codex_id"@ != "description"@,
        "codex_id"@ != "default_reasoning_effort"@,
        "codex_id"@ != "is_default"@,
        "codex_id"@ != "supports_streaming"@,
        "codex_id"@ != "supports_response_format"@,
        "codex_id"@ != "hidden"@,
        "display_name"@ != "description"@,
        "display_name"@ != "default_reasoning_effort"@,
        "display_name"@ != "is_default"@,
        "display_name"@ != "supports_streaming"@,
        "display_name"@ != "supports_response_format"@,
        "display_name"@ != "hidden"@,
        "description"@ != "default_reasoning_effort"@,
        "description"@ != "is_default"@,
        "description"@ != "supports_streaming"@,
        "description"@ != "supports_response_format"@,
        "description"@ != "hidden"@,
        "default_reasoning_effort"@ != "is_default"@,
        "default_reasoning_effort"@ != "supports_streaming"@,
        "default_reasoning_effort"@ != "supports_response_format"@,
        "default_reasoning_effort"@ != "hidden"@,
        "is_default"@ != "supports_streaming"@,
        "is_default"@ != "supports_response_format"@,
        "is_default"@ != "hidden"@,
        "supports_streaming"@ != "supports_response_format"@,
        "supports_streaming"@ != "hidden"@,
        "supports_response_format"@ != "hidden"@,
{
    reveal_strlit("id");
    reveal_strlit("object");
    reveal_strlit("created");
    reveal_strlit("owned_by");
    reveal_strlit("provider");
    reveal_strlit("codex_id");
    reveal_strlit("display_name");
    reveal_strlit("description");
    reveal_strlit("default_reasoning_effort");
    reveal_strlit("is_default");
    reveal_strlit("supports_streaming");
    reveal_strlit("supports_response_format");
    reveal_strlit("hidden");
    assert("id"@.len() != "object"@.len());
    assert("id"@.len() != "created"@.len());
    assert("id"@.len() != "owned_by"@.len());
    assert("id"@.len() != "provider"@.len());
    assert("id"@.len() != "codex_id"@.len());
    assert("id"@.len() != "display_name"@.len());
    assert("id"@.len() != "description"@.len());
    assert("id"@.len() != "default_reasoning_effort"@.len());
    assert("id"@.len() != "is_default"@.len());
    assert("id"@.len() != "supports_streaming"@.len());
    assert("id"@.len() != "supports_response_format"@.len());
    assert("id"@.len() != "hidden"@.len());
    assert("object"@.len() != "created"@.len());
    assert("object"@.len() != "owned_by"@.len());
    assert("object"@.len() != "provider"@.len());
    assert("object"@.len() != "codex_id"@.len());
    assert("object"@.len() != "display_name"@.len());
    assert("object"@.len() != "description"@.len());
    assert("object"@.len() != "default_reasoning_effort"@.len());
    assert("object"@.len() != "is_default"@.len());
    assert("object"@.len() != "supports_streaming"@.len());
    assert("object"@.len() != "supports_response_format"@.len());
    assert("object"@[0] != "hidden"@[0]);
    assert("created"@.len() != "owned_by"@.len());
    assert("created"@.len() != "provider"@.len());
    assert("created"@.len() != "codex_id"@.len());
    assert("created"@.len() != "display_name"@.len());
    assert("created"@.len() != "description"@.len());
    assert("created"@.len() != "default_reasoning_effort"@.len());
    assert("created"@.len() != "is_default"@.len());
    assert("created"@.len() != "supports_streaming"@.len());
    assert("created"@.len() != "supports_response_format"@.len());
    assert("created"@.len() != "hidden"@.len());
    assert("owned_by"@[0] != "provider"@[0]);
    assert("owned_by"@[0] != "codex_id"@[0]);
    assert("owned_by"@.len() != "display_name"@.len());
    assert("owned_by"@.len() != "description"@.len());
    assert("owned_by"@.len() != "default_reasoning_effort"@.len());
    assert("owned_by"@.len() != "is_default"@.len());
    assert("owned_by"@.len() != "supports_streaming"@.len());
    assert("owned_by"@.len() != "supports_response_format"@.len());
    assert("owned_by"@.len() != "hidden"@.len());
    assert("provider"@[0] != "codex_id"@[0]);
    assert("provider"@.len() != "display_name"@.len());
    assert("provider"@.len() != "description"@.len());
    assert("provider"@.len() != "default_reasoning_effort"@.len());
    assert("provider"@.len() != "is_default"@.len());
    assert("provider"@.len() != "supports_streaming"@.len());
    assert("provider"@.len() != "supports_response_format"@.len());
    assert("provider"@.len() != "hidden"@.len());
    assert("codex_id"@.len() != "display_name"@.len());
    assert("codex_id"@.len() != "description"@.len());
    assert("codex_id"@.len() != "default_reasoning_effort"@.len());
    assert("codex_id"@.len() != "is_default"@.len());
    assert("codex_id"@.len() != "supports_streaming"@.len());
    assert("codex_id"@.len() != "supports_response_format"@.len());
    assert("codex_id"@.len() != "hidden"@.len());
    assert("display_name"@.len() != "description"@.len());
    assert("display_name"@.len() != "default_reasoning_effort"@.len());
    assert("display_name"@.len() != "is_default"@.len());
    assert("display_name"@.len() != "supports_streaming"@.len());
    assert("display_name"@.len() != "supports_response_format"@.len());
    assert("display_name"@.len() != "hidden"@.len());
    assert("description"@.len() != "default_reasoning_effort"@.len());
    assert("description"@.len() != "is_default"@.len());
    assert("description"@.len() != "supports_streaming"@.len());
    assert("description"@.len() != "supports_response_format"@.len());
    assert("description"@.len() != "hidden"@.len());
    assert("default_reasoning_effort"@.len() != "is_default"@.len());
    assert("default_reasoning_effort"@.len() != "supports_streaming"@.len());
    assert("default_reasoning_effort"@[0] != "supports_response_format"@[0]);
    assert("default_reasoning_effort"@.len() != "hidden"@.len());
    assert("is_default"@.len() != "supports_streaming"@.len());
    assert("is_default"@.len() != "supports_response_format"@.len());
    assert("is_default"@.len() != "hidden"@.len());
    assert("supports_streaming"@.len() != "supports_response_format"@.len());
    assert("supports_streaming"@.len() != "hidden"@.len());
    assert("supports_response_format"@.len() != "hidden"@.len());
}

/// A model goes by its model name, its id and its display name, in any case, and by no other name.
pub proof fn law_models_go_by_their_three_names(model: CodexModel, name: Seq<char>)
    ensures
        goes_by(model, model.model@),
        goes_by(model, model.id@),
        goes_by(model, model.display_name@),
        lowered(name) == lowered(model.model@) || lowered(name) == lowered(model.id@) || lowered(
            name,
        ) == lowered(model.display_name@) <==> goes_by(model, name),
{
}

/// Whether one of the three names of a model is this one, in small letters.
pub open spec fn bears(model: CodexModel, name: Seq<char>) -> bool {
    lowered(model.model@) == name || lowered(model.id@) == name || lowered(model.display_name@)
        == name
}

/// A name that does not ask for the default stands for the first model in the list that has it,
/// by its model name, id or display name; where no model has it, for none.
pub proof fn law_name_stands_for_the_first_model_that_has_it(
    models: Seq<CodexModel>,
    default_model: Seq<char>,
    requested: Seq<char>,
    at: int,
)
    requires
        !asks_for_default(requested),
    ensures
        ({
            let name = lowered(trimmed(requested));
            let resolved = resolved_model(models, default_model, requested);
            &&& 0 <= at < models.len() && bears(models[at], name) && (forall|i: int|
                0 <= i < at ==> !bears(#[trigger] models[i], name)) ==> resolved == Some(
                models[at].model@,
            )
            &&& (forall|i: int| 0 <= i < models.len() ==> !bears(#[trigger] models[i], name))
                ==> resolved is None
        }),
    decreases models.len(),
{
    let name = lowered(trimmed(requested));
    if models.len() > 0 && !bears(models[0], name) {
        let rest = models.drop_first();
        law_name_stands_for_the_first_model_that_has_it(rest, default_model, requested, at - 1);
        assert(!goes_by(models.first(), trimmed(requested)));
        if 0 < at < models.len() && (forall|i: int|
            0 <= i < at ==> !bears(#[trigger] models[i], name)) {
            assert(rest[at - 1] == models[at]);
            assert forall|i: int| 0 <= i < at - 1 implies !bears(#[trigger] rest[i], name) by {
                assert(rest[i] == models[i + 1]);
            }
        }
        if forall|i: int| 0 <= i < models.len() ==> !bears(#[trigger] models[i], name) {
            assert forall|i: int| 0 <= i < rest.len() implies !bears(#[trigger] rest[i], name) by {
                assert(rest[i] == models[i + 1]);
            }
        }
    } else if models.len() > 0 {
        assert(goes_by(models.first(), trimmed(requested)));
    }
}

/// The default is the first model that Codex marks as such; where it marks none, the configured
/// one.
pub proof fn law_default_is_the_first_marked_model(
    models: Seq<CodexModel>,
    default_model: Seq<char>,
    requested: Seq<char>,
    at: int,
)
    requires
        asks_for_default(requested),
    ensures
        0 <= at < models.len() && models[at].is_default && (forall|i: int|
            0 <= i < at ==> !(#[trigger] models[i]).is_default) ==> resolved_model(
            models,
            default_model,
            requested,
        ) == Some(models[at].model@),
        (forall|i: int| 0 <= i < models.len() ==> !(#[trigger] models[i]).is_default)
            ==> resolved_model(models, default_model, requested) == Some(default_model),
    decreases models.len(),
{
    if models.len() > 0 && !models[0].is_default {
        let rest = models.drop_first();
        law_default_is_the_first_marked_model(rest, default_model, requested, at - 1);
        if 0 < at < models.len() && (forall|i: int|
            0 <= i < at ==> !(#[trigger] models[i]).is_default) {
            assert(rest[at - 1] == models[at]);
            assert forall|i: int| 0 <= i < at - 1 implies !(#[trigger] rest[i]).is_default by {
                assert(rest[i] == models[i + 1]);
            }
        }
        if forall|i: int| 0 <= i < models.len() ==> !(#[trigger] models[i]).is_default {
            assert forall|i: int| 0 <= i < rest.len() implies !(#[trigger] rest[i]).is_default by {
                assert(rest[i] == models[i + 1]);
            }
        }
    }
}

/// The message for an unsupported model names it, without the white space around it.
pub proof fn law_unsupported_model_is_named(requested: Seq<char>)
    ensures
        unsupported_model(requested) == "Unsupported model `"@ + trimmed(requested)
            + "`. Call `/v1/models` to see the available Codex-backed models."@,
{
}

/// A listed model shows its name as its id, and its Codex id, names, effort and default mark as
/// they are.
pub proof fn law_listed_model_shows_what_it_is(model: CodexModel) -> (shown: Map<
    Seq<char>,
    JsonView,
>)
    ensures
        listed_model(model) == JsonView::Object(shown),
        shown["id"@] == JsonView::Text(model.model@),
        shown["object"@] == JsonView::Text("model"@),
        shown["created"@].as_i64() == Some(0i64),
        shown["owned_by"@] == JsonView::Text("openai"@),
        shown["provider"@] == JsonView::Text("codex"@),
        shown["codex_id"@] == JsonView::Text(model.id@),
        shown["display_name"@] == JsonView::Text(model.display_name@),
        shown["description"@] == JsonView::Text(model.description@),
        shown["default_reasoning_effort"@] == JsonView::Text(model.default_reasoning_effort@),
        shown["is_default"@] == JsonView::Bool(model.is_default),
        shown["supports_streaming"@] == JsonView::Bool(true),
        shown["supports_response_format"@] == JsonView::Bool(true),
{
    lemma_listed_names();
    listed_model(model)->Object_0
}

/// The list shows the models in order and one by one: that of two lists is that of the first and
/// then that of the second, and a hidden model is left out.
pub proof fn law_models_are_listed_in_order(
    one: Seq<CodexModel>,
    other: Seq<CodexModel>,
    model: CodexModel,
)
    ensures
        listed_models(one + other) == listed_models(one) + listed_models(other),
        model.hidden ==> listed_models(seq![model]).len() == 0,
        !model.hidden ==> listed_models(seq![model]) == seq![listed_model(model)],
    decreases other.len(),
{
    let alone = seq![model];
    assert(alone.drop_last() =~= Seq::<CodexModel>::empty());
    assert(listed_models(alone.drop_last()) =~= Seq::<JsonView>::empty());
    if !model.hidden {
        assert(listed_models(alone) =~= seq![listed_model(model)]);
    }
    if other.len() == 0 {
        assert(one + other =~= one);
        assert(listed_models(one) + listed_models(other) =~= listed_models(one));
    } else {
        law_models_are_listed_in_order(one, other.drop_last(), model);
        assert((one + other).drop_last() =~= one + other.drop_last());
        assert(listed_models(one + other) =~= listed_models(one) + listed_models(other));
    }
}

/// The log shows the details of the first model with the resolved name, in any case.
pub proof fn law_log_shows_the_model_with_that_name(
    models: Seq<CodexModel>,
    name: Seq<char>,
    at: int,
)
    ensures
        0 <= at < models.len() && lowered(models[at].model@) == lowered(name) && (forall|i: int|
            0 <= i < at ==> lowered((#[trigger] models[i]).model@) != lowered(name))
            ==> first_with_model_name(models, name) == Some(models[at]),
        (forall|i: int|
            0 <= i < models.len() ==> lowered((#[trigger] models[i]).model@) != lowered(name))
            ==> first_with_model_name(models, name) is None,
    decreases models.len(),
{
    if models.len() > 0 && lowered(models[0].model@) != lowered(name) {
        let rest = models.drop_first();
        law_log_shows_the_model_with_that_name(rest, name, at - 1);
        if 0 < at < models.len() && (forall|i: int|
            0 <= i < at ==> lowered((#[trigger] models[i]).model@) != lowered(name)) {
            assert(rest[at - 1] == models[at]);
            assert forall|i: int| 0 <= i < at - 1 implies lowered((#[trigger] rest[i]).model@)
                != lowered(name) by {
                assert(rest[i] == models[i + 1]);
            }
        }
        if forall|i: int|
            0 <= i < models.len() ==> lowered((#[trigger] models[i]).model@) != lowered(name) {
            assert forall|i: int| 0 <= i < rest.len() implies lowered((#[trigger] rest[i]).model@)
                != lowered(name) by {
                assert(rest[i] == models[i + 1]);
            }
        }
    }
}

/// The details in the log are those of the model.
pub proof fn law_logged_model_shows_what_it_is(model: CodexModel) -> (shown: Map<
    Seq<char>,
    JsonView,
>)
    ensures
        model_log(None) == JsonView::Null,
        model_log(Some(model)) == JsonView::Object(shown),
        shown["id"@] == JsonView::Text(model.model@),
        shown["codex_id"@] == JsonView::Text(model.id@),
        shown["display_name"@] == JsonView::Text(model.display_name@),
        shown["description"@] == JsonView::Text(model.description@),
        shown["provider"@] == JsonView::Text("codex"@),
        shown["owned_by"@] == JsonView::Text("openai"@),
        shown["is_default"@] == JsonView::Bool(model.is_default),
        shown["default_reasoning_effort"@] == JsonView::Text(model.default_reasoning_effort@),
        shown["supports_streaming"@] == JsonView::Bool(true),
        shown["supports_response_format"@] == JsonView::Bool(true),
        shown["hidden"@] == JsonView::Bool(model.hidden),
{
    lemma_listed_names();
    model_log(Some(model))->Object_0
}

/// A cache that holds nothing offers nothing.
pub proof fn law_empty_cache_offers_nothing(cache: ModelCache, now: i64)
    requires
        cache.cached is None,
    ensures
        cache.usable(now) is None,
{
}

} // verus!
