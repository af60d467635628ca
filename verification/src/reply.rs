//! The bodies of the replies.

use crate::config::{AppConfig, APP_NAME, APP_VERSION};
use crate::json::{integer, json_views, layout, JsonValue, JsonView, Layout};
use crate::usage::{
    usage_block_json, usage_block_layout, wrapper_json, wrapper_json_or_null, wrapper_layout,
    wrapper_to_json, ExecUsage, UsageBlock, WrapperMetadata,
};
use vstd::prelude::*;

verus! {

/// The account that Codex is signed in with.
#[derive(Debug)]
pub enum CodexAccount {
    ApiKey,
    Chatgpt { email: String, plan_type: String },
}

/// The answer to `account/read`.
#[derive(Debug)]
pub struct CodexAccountResult {
    pub account: Option<CodexAccount>,
    pub requires_openai_auth: bool,
}

/// The one choice of a chat completion.
pub open spec fn completion_choice(text: Seq<char>) -> JsonView {
    JsonView::Object(
        map![
            "index"@ => integer(0),
            "message"@ => JsonView::Object(
                map![
                    "role"@ => JsonView::Text("assistant"@),
                    "content"@ => JsonView::Text(text),
                    "refusal"@ => JsonView::Null,
                    "annotations"@ => JsonView::Array(Seq::empty()),
                ],
            ),
            "logprobs"@ => JsonView::Null,
            "finish_reason"@ => JsonView::Text("stop"@),
        ],
    )
}

/// A chat completion. Wrapper metadata has a member only where there is any.
pub open spec fn completion_json(
    id: Seq<char>,
    created: i64,
    model: Seq<char>,
    text: Seq<char>,
    usage: UsageBlock,
    wrapper: Option<WrapperMetadata>,
) -> JsonView {
    let members = map![
        "id"@ => JsonView::Text(id),
        "object"@ => JsonView::Text("chat.completion"@),
        "created"@ => integer(created as int),
        "model"@ => JsonView::Text(model),
        "choices"@ => JsonView::Array(seq![completion_choice(text)]),
        "usage"@ => usage_block_json(usage),
        "service_tier"@ => JsonView::Text("default"@),
    ];
    JsonView::Object(
        match wrapper {
            Some(metadata) => members.insert("wrapper"@, wrapper_json(metadata)),
            None => members,
        },
    )
}

/// The order of a chat completion's members.
pub open spec fn completion_layout(wrapper: Option<WrapperMetadata>) -> Layout {
    let message = Layout::Members(
        seq![
            ("role"@, Layout::Leaf),
            ("content"@, Layout::Leaf),
            ("refusal"@, Layout::Leaf),
            ("annotations"@, Layout::List(Seq::empty())),
        ],
    );
    let choice = Layout::Members(
        seq![
            ("index"@, Layout::Leaf),
            ("message"@, message),
            ("logprobs"@, Layout::Leaf),
            ("finish_reason"@, Layout::Leaf),
        ],
    );
    let placed = seq![
        ("id"@, Layout::Leaf),
        ("object"@, Layout::Leaf),
        ("created"@, Layout::Leaf),
        ("model"@, Layout::Leaf),
        ("choices"@, Layout::List(seq![choice])),
        ("usage"@, usage_block_layout()),
        ("service_tier"@, Layout::Leaf),
    ];
    Layout::Members(
        match wrapper {
            Some(metadata) => placed.push(("wrapper"@, wrapper_layout(metadata))),
            None => placed,
        },
    )
}

fn no_items() -> (json: JsonValue)
    ensures
        json@ == JsonView::Array(Seq::empty()),
        layout(json) == Layout::List(Seq::empty()),
{
    let none: Vec<JsonValue> = Vec::new();
    assert(json_views(none@) == Seq::<JsonView>::empty());
    JsonValue::array(none)
}

/// A chat completion.
pub fn chat_completion_reply(
    id: &str,
    created: i64,
    model: &str,
    text: &str,
    usage: &UsageBlock,
    wrapper: &Option<WrapperMetadata>,
) -> (reply: JsonValue)
    ensures
        reply@ == completion_json(id@, created, model@, text@, *usage, *wrapper),
        layout(reply) == completion_layout(*wrapper),
{
    let message = JsonValue::object().with("role", JsonValue::from_text("assistant")).with(
        "content",
        JsonValue::from_text(text),
    ).with("refusal", JsonValue::Null).with("annotations", no_items());
    let choice = JsonValue::object().with("index", JsonValue::from_u64(0)).with(
        "message",
        message,
    ).with("logprobs", JsonValue::Null).with("finish_reason", JsonValue::from_text("stop"));
    let reply = JsonValue::object().with("id", JsonValue::from_text(id)).with(
        "object",
        JsonValue::from_text("chat.completion"),
    ).with("created", JsonValue::from_i64(created)).with("model", JsonValue::from_text(model)).with(
        "choices",
        JsonValue::array_of_one(choice),
    ).with("usage", usage.to_json()).with("service_tier", JsonValue::from_text("default"));
    proof {
        let placed = completion_layout(None)->Members_0;
        let choices = placed[4].1->List_0;
        assert(layout(message)->Members_0 =~= choices[0]->Members_0[1].1->Members_0);
        assert(layout(choice)->Members_0 =~= choices[0]->Members_0);
        assert(seq![layout(choice)] =~= choices);
        assert(layout(reply)->Members_0 =~= placed);
    }
    match wrapper {
        Some(metadata) => reply.with("wrapper", metadata.to_json()),
        None => reply,
    }
}

/// An Anthropic message.
pub open spec fn message_json(
    id: Seq<char>,
    model: Seq<char>,
    text: Seq<char>,
    usage: ExecUsage,
    wrapper: Option<WrapperMetadata>,
) -> JsonView {
    JsonView::Object(
        map![
            "id"@ => JsonView::Text(id),
            "type"@ => JsonView::Text("message"@),
            "role"@ => JsonView::Text("assistant"@),
            "model"@ => JsonView::Text(model),
            "content"@ => JsonView::Array(
                seq![
                    JsonView::Object(
                        map!["type"@ => JsonView::Text("text"@), "text"@ => JsonView::Text(text)],
                    ),
                ],
            ),
            "stop_reason"@ => JsonView::Text("end_turn"@),
            "stop_sequence"@ => JsonView::Null,
            "usage"@ => JsonView::Object(
                map![
                    "input_tokens"@ => integer(usage.input_tokens as int),
                    "output_tokens"@ => integer(usage.output_tokens as int),
                ],
            ),
            "wrapper"@ => wrapper_json_or_null(wrapper),
        ],
    )
}

/// An Anthropic message.
pub fn anthropic_reply(
    id: &str,
    model: &str,
    text: &str,
    usage: &ExecUsage,
    wrapper: &Option<WrapperMetadata>,
) -> (reply: JsonValue)
    ensures
        reply@ == message_json(id@, model@, text@, *usage, *wrapper),
{
    let block = JsonValue::object().with("type", JsonValue::from_text("text")).with(
        "text",
        JsonValue::from_text(text),
    );
    let counts = JsonValue::object().with(
        "input_tokens",
        JsonValue::from_i64(usage.input_tokens),
    ).with("output_tokens", JsonValue::from_i64(usage.output_tokens));
    JsonValue::object().with("id", JsonValue::from_text(id)).with(
        "type",
        JsonValue::from_text("message"),
    ).with("role", JsonValue::from_text("assistant")).with("model", JsonValue::from_text(model)).with(
        "content",
        JsonValue::array_of_one(block),
    ).with("stop_reason", JsonValue::from_text("end_turn")).with(
        "stop_sequence",
        JsonValue::Null,
    ).with("usage", counts).with("wrapper", wrapper_to_json(wrapper))
}

/// The account as JSON, `null` where there is none.
pub open spec fn account_json(account: Option<CodexAccount>) -> JsonView {
    match account {
        Some(CodexAccount::ApiKey) => JsonView::Object(
            map!["type"@ => JsonView::Text("apiKey"@)],
        ),
        Some(CodexAccount::Chatgpt { email, plan_type }) => JsonView::Object(
            map![
                "type"@ => JsonView::Text("chatgpt"@),
                "email"@ => JsonView::Text(email@),
                "planType"@ => JsonView::Text(plan_type@),
            ],
        ),
        None => JsonView::Null,
    }
}

fn account_to_json(account: &Option<CodexAccount>) -> (json: JsonValue)
    ensures
        json@ == account_json(*account),
{
    match account {
        Some(CodexAccount::ApiKey) => JsonValue::object().with(
            "type",
            JsonValue::from_text("apiKey"),
        ),
        Some(CodexAccount::Chatgpt { email, plan_type }) => JsonValue::object().with(
            "type",
            JsonValue::from_text("chatgpt"),
        ).with("email", JsonValue::from_text(email.as_str())).with(
            "planType",
            JsonValue::from_text(plan_type.as_str()),
        ),
        None => JsonValue::Null,
    }
}

/// Whether Codex is signed in, and how.
pub fn auth_status_reply(result: &CodexAccountResult) -> (reply: JsonValue)
    ensures
        reply@ == JsonView::Object(
            map![
                "authenticated"@ => JsonView::Bool(result.account is Some),
                "requires_openai_auth"@ => JsonView::Bool(result.requires_openai_auth),
                "account"@ => account_json(result.account),
            ],
        ),
{
    JsonValue::object().with("authenticated", JsonValue::Bool(result.account.is_some())).with(
        "requires_openai_auth",
        JsonValue::Bool(result.requires_openai_auth),
    ).with("account", account_to_json(&result.account))
}

/// The state of the service.
pub fn health_reply(
    config: &AppConfig,
    codex_home: &str,
    codex_cwd: &str,
    pricing_enabled: bool,
) -> (reply: JsonValue)
    ensures
        reply@ == JsonView::Object(
            map![
                "status"@ => JsonView::Text("ok"@),
                "service"@ => JsonView::Text(APP_NAME@),
                "version"@ => JsonView::Text(APP_VERSION@),
                "codex_path"@ => JsonView::Text(config.codex_path@),
                "codex_home"@ => JsonView::Text(codex_home@),
                "codex_cwd"@ => JsonView::Text(codex_cwd@),
                "rate_limit"@ => JsonView::Object(
                    map![
                        "max_requests"@ => integer(config.rate_limit_requests as int),
                        "window_secs"@ => integer(config.rate_limit_window_secs as int),
                    ],
                ),
                "pricing_enabled"@ => JsonView::Bool(pricing_enabled),
            ],
        ),
{
    let rate_limit = JsonValue::object().with(
        "max_requests",
        JsonValue::from_u64(config.rate_limit_requests as u64),
    ).with("window_secs", JsonValue::from_u64(config.rate_limit_window_secs));
    JsonValue::object().with("status", JsonValue::from_text("ok")).with(
        "service",
        JsonValue::from_text(APP_NAME),
    ).with("version", JsonValue::from_text(APP_VERSION)).with(
        "codex_path",
        JsonValue::from_text(config.codex_path.as_str()),
    ).with("codex_home", JsonValue::from_text(codex_home)).with(
        "codex_cwd",
        JsonValue::from_text(codex_cwd),
    ).with("rate_limit", rate_limit).with("pricing_enabled", JsonValue::Bool(pricing_enabled))
}

/// The name and version of the service.
pub fn version_reply() -> (reply: JsonValue)
    ensures
        reply@ == JsonView::Object(
            map!["name"@ => JsonView::Text(APP_NAME@), "version"@ => JsonView::Text(APP_VERSION@)],
        ),
{
    JsonValue::object().with("name", JsonValue::from_text(APP_NAME)).with(
        "version",
        JsonValue::from_text(APP_VERSION),
    )
}

/// A chat completion has a `wrapper` member exactly where there is metadata.
pub proof fn law_completion_has_metadata_only_where_there_is_any(
    id: Seq<char>,
    created: i64,
    model: Seq<char>,
    text: Seq<char>,
    usage: UsageBlock,
    wrapper: Option<WrapperMetadata>,
)
    ensures
        completion_json(id, created, model, text, usage, wrapper).field("wrapper"@) == (
        match wrapper {
            Some(metadata) => Some(wrapper_json(metadata)),
            None => None,
        }),
{
    reveal_strlit("wrapper");
    reveal_strlit("id");
    reveal_strlit("object");
    reveal_strlit("created");
    reveal_strlit("model");
    reveal_strlit("choices");
    reveal_strlit("usage");
    reveal_strlit("service_tier");
    assert("wrapper"@[0] == 'w');
    assert("id"@[0] == 'i' && "object"@[0] == 'o' && "created"@[0] == 'c' && "model"@[0] == 'm');
    assert("choices"@[0] == 'c' && "usage"@[0] == 'u' && "service_tier"@[0] == 's');
}

proof fn lemma_completion_names()
    ensures
        "id"@ != "object"@,
        "id"@ != "created"@,
        "id"@ != "model"@,
        "id"@ != "choices"@,
        "id"@ != "usage"@,
        "id"@ != "service_tier"@,
        "id"@ != "wrapper"@,
        "object"@ != "created"@,
        "object"@ != "model"@,
        "object"@ != "choices"@,
        "object"@ != "usage"@,
        "object"@ != "service_tier"@,
        "object"@ != "wrapper"@,
        "created"@ != "model"@,
        "created"@ != "choices"@,
        "created"@ != "usage"@,
        "created"@ != "service_tier"@,
        "created"@ != "wrapper"@,
        "model"@ != "choices"@,
        "model"@ != "usage"@,
        "model"@ != "service_tier"@,
        "model"@ != "wrapper"@,
        "choices"@ != "usage"@,
        "choices"@ != "service_tier"@,
        "choices"@ != "wrapper"@,
        "usage"@ != "service_tier"@,
        "usage"@ != "wrapper"@,
        "service_tier"@ != "wrapper"@,
{
    reveal_strlit("id");
    reveal_strlit("object");
    reveal_strlit("created");
    reveal_strlit("model");
    reveal_strlit("choices");
    reveal_strlit("usage");
    reveal_strlit("service_tier");
    reveal_strlit("wrapper");
    assert("id"@.len() != "object"@.len());
    assert("id"@.len() != "created"@.len());
    assert("id"@.len() != "model"@.len());
    assert("id"@.len() != "choices"@.len());
    assert("id"@.len() != "usage"@.len());
    assert("id"@.len() != "service_tier"@.len());
    assert("id"@.len() != "wrapper"@.len());
    assert("object"@.len() != "created"@.len());
    assert("object"@.len() != "model"@.len());
    assert("object"@.len() != "choices"@.len());
    assert("object"@.len() != "usage"@.len());
    assert("object"@.len() != "service_tier"@.len());
    assert("object"@.len() != "wrapper"@.len());
    assert("created"@.len() != "model"@.len());
    assert("created"@[1] != "choices"@[1]);
    assert("created"@.len() != "usage"@.len());
    assert("created"@.len() != "service_tier"@.len());
    assert("created"@[0] != "wrapper"@[0]);
    assert("model"@.len() != "choices"@.len());
    assert("model"@[0] != "usage"@[0]);
    assert("model"@.len() != "service_tier"@.len());
    assert("model"@.len() != "wrapper"@.len());
    assert("choices"@.len() != "usage"@.len());
    assert("choices"@.len() != "service_tier"@.len());
    assert("choices"@[0] != "wrapper"@[0]);
    assert("usage"@.len() != "service_tier"@.len());
    assert("usage"@.len() != "wrapper"@.len());
    assert("service_tier"@.len() != "wrapper"@.len());
}

proof fn lemma_choice_names()
    ensures
        "index"@ != "message"@,
        "index"@ != "logprobs"@,
        "index"@ != "finish_reason"@,
        "message"@ != "logprobs"@,
        "message"@ != "finish_reason"@,
        "logprobs"@ != "finish_reason"@,
{
    reveal_strlit("index");
    reveal_strlit("message");
    reveal_strlit("logprobs");
    reveal_strlit("finish_reason");
    assert("index"@.len() != "message"@.len());
    assert("index"@.len() != "logprobs"@.len());
    assert("index"@.len() != "finish_reason"@.len());
    assert("message"@.len() != "logprobs"@.len());
    assert("message"@.len() != "finish_reason"@.len());
    assert("logprobs"@.len() != "finish_reason"@.len());
}

proof fn lemma_answer_names()
    ensures
        "role"@ != "content"@,
        "role"@ != "refusal"@,
        "role"@ != "annotations"@,
        "content"@ != "refusal"@,
        "content"@ != "annotations"@,
        "refusal"@ != "annotations"@,
{
    reveal_strlit("role");
    reveal_strlit("content");
    reveal_strlit("refusal");
    reveal_strlit("annotations");
    assert("role"@.len() != "content"@.len());
    assert("role"@.len() != "refusal"@.len());
    assert("role"@.len() != "annotations"@.len());
    assert("content"@[0] != "refusal"@[0]);
    assert("content"@.len() != "annotations"@.len());
    assert("refusal"@.len() != "annotations"@.len());
}

proof fn lemma_message_names()
    ensures
        "id"@ != "type"@,
        "id"@ != "role"@,
        "id"@ != "model"@,
        "id"@ != "content"@,
        "id"@ != "stop_reason"@,
        "id"@ != "stop_sequence"@,
        "id"@ != "usage"@,
        "id"@ != "wrapper"@,
        "type"@ != "role"@,
        "type"@ != "model"@,
        "type"@ != "content"@,
        "type"@ != "stop_reason"@,
        "type"@ != "stop_sequence"@,
        "type"@ != "usage"@,
        "type"@ != "wrapper"@,
        "role"@ != "model"@,
        "role"@ != "content"@,
        "role"@ != "stop_reason"@,
        "role"@ != "stop_sequence"@,
        "role"@ != "usage"@,
        "role"@ != "wrapper"@,
        "model"@ != "content"@,
        "model"@ != "stop_reason"@,
        "model"@ != "stop_sequence"@,
        "model"@ != "usage"@,
        "model"@ != "wrapper"@,
        "content"@ != "stop_reason"@,
        "content"@ != "stop_sequence"@,
        "content"@ != "usage"@,
        "content"@ != "wrapper"@,
        "stop_reason"@ != "stop_sequence"@,
        "stop_reason"@ != "usage"@,
        "stop_reason"@ != "wrapper"@,
        "stop_sequence"@ != "usage"@,
        "stop_sequence"@ != "wrapper"@,
        "usage"@ != "wrapper"@,
{
    reveal_strlit("id");
    reveal_strlit("type");
    reveal_strlit("role");
    reveal_strlit("model");
    reveal_strlit("content");
    reveal_strlit("stop_reason");
    reveal_strlit("stop_sequence");
    reveal_strlit("usage");
    reveal_strlit("wrapper");
    assert("id"@.len() != "type"@.len());
    assert("id"@.len() != "role"@.len());
    assert("id"@.len() != "model"@.len());
    assert("id"@.len() != "content"@.len());
    assert("id"@.len() != "stop_reason"@.len());
    assert("id"@.len() != "stop_sequence"@.len());
    assert("id"@.len() != "usage"@.len());
    assert("id"@.len() != "wrapper"@.len());
    assert("type"@[0] != "role"@[0]);
    assert("type"@.len() != "model"@.len());
    assert("type"@.len() != "content"@.len());
    assert("type"@.len() != "stop_reason"@.len());
    assert("type"@.len() != "stop_sequence"@.len());
    assert("type"@.len() != "usage"@.len());
    assert("type"@.len() != "wrapper"@.len());
    assert("role"@.len() != "model"@.len());
    assert("role"@.len() != "content"@.len());
    assert("role"@.len() != "stop_reason"@.len());
    assert("role"@.len() != "stop_sequence"@.len());
    assert("role"@.len() != "usage"@.len());
    assert("role"@.len() != "wrapper"@.len());
    assert("model"@.len() != "content"@.len());
    assert("model"@.len() != "stop_reason"@.len());
    assert("model"@.len() != "stop_sequence"@.len());
    assert("model"@[0] != "usage"@[0]);
    assert("model"@.len() != "wrapper"@.len());
    assert("content"@.len() != "stop_reason"@.len());
    assert("content"@.len() != "stop_sequence"@.len());
    assert("content"@.len() != "usage"@.len());
    assert("content"@[0] != "wrapper"@[0]);
    assert("stop_reason"@.len() != "stop_sequence"@.len());
    assert("stop_reason"@.len() != "usage"@.len());
    assert("stop_reason"@.len() != "wrapper"@.len());
    assert("stop_sequence"@.len() != "usage"@.len());
    assert("stop_sequence"@.len() != "wrapper"@.len());
    assert("usage"@.len() != "wrapper"@.len());
}

proof fn lemma_small_names()
    ensures
        "type"@ != "text"@,
        "type"@ != "input_tokens"@,
        "type"@ != "output_tokens"@,
        "type"@ != "email"@,
        "type"@ != "planType"@,
        "text"@ != "input_tokens"@,
        "text"@ != "output_tokens"@,
        "text"@ != "email"@,
        "text"@ != "planType"@,
        "input_tokens"@ != "output_tokens"@,
        "input_tokens"@ != "email"@,
        "input_tokens"@ != "planType"@,
        "output_tokens"@ != "email"@,
        "output_tokens"@ != "planType"@,
        "email"@ != "planType"@,
{
    reveal_strlit("type");
    reveal_strlit("text");
    reveal_strlit("input_tokens");
    reveal_strlit("output_tokens");
    reveal_strlit("email");
    reveal_strlit("planType");
    assert("type"@[1] != "text"@[1]);
    assert("type"@.len() != "input_tokens"@.len());
    assert("type"@.len() != "output_tokens"@.len());
    assert("type"@.len() != "email"@.len());
    assert("type"@.len() != "planType"@.len());
    assert("text"@.len() != "input_tokens"@.len());
    assert("text"@.len() != "output_tokens"@.len());
    assert("text"@.len() != "email"@.len());
    assert("text"@.len() != "planType"@.len());
    assert("input_tokens"@.len() != "output_tokens"@.len());
    assert("input_tokens"@.len() != "email"@.len());
    assert("input_tokens"@.len() != "planType"@.len());
    assert("output_tokens"@.len() != "email"@.len());
    assert("output_tokens"@.len() != "planType"@.len());
    assert("email"@.len() != "planType"@.len());
}

/// A chat completion carries its text, character for character, as the content of the assistant's
/// one message, under the id and model that it was given, and with its usage.
pub proof fn law_completion_carries_the_text(
    id: Seq<char>,
    created: i64,
    model: Seq<char>,
    text: Seq<char>,
    usage: UsageBlock,
    wrapper: Option<WrapperMetadata>,
) -> (shown: (Map<Seq<char>, JsonView>, Map<Seq<char>, JsonView>, Map<Seq<char>, JsonView>))
    ensures
        completion_json(id, created, model, text, usage, wrapper) == JsonView::Object(shown.0),
        shown.0["id"@] == JsonView::Text(id),
        shown.0["object"@] == JsonView::Text("chat.completion"@),
        shown.0["created"@].as_i64() == Some(created),
        shown.0["model"@] == JsonView::Text(model),
        shown.0["service_tier"@] == JsonView::Text("default"@),
        shown.0["usage"@] == usage_block_json(usage),
        shown.0["choices"@] == JsonView::Array(seq![JsonView::Object(shown.1)]),
        shown.1["index"@].as_i64() == Some(0i64),
        shown.1["finish_reason"@] == JsonView::Text("stop"@),
        shown.1["logprobs"@] == JsonView::Null,
        shown.1["message"@] == JsonView::Object(shown.2),
        shown.2["role"@] == JsonView::Text("assistant"@),
        shown.2["content"@] == JsonView::Text(text),
        shown.2["refusal"@] == JsonView::Null,
        shown.2["annotations"@] == JsonView::Array(Seq::empty()),
{
    lemma_completion_names();
    lemma_choice_names();
    lemma_answer_names();
    let choice = completion_choice(text)->Object_0;
    (
        completion_json(id, created, model, text, usage, wrapper)->Object_0,
        choice,
        choice["message"@]->Object_0,
    )
}

/// An Anthropic message carries its text, character for character, in its one block, under the
/// id and model that it was given, and with the counts of the turn.
pub proof fn law_message_carries_the_text(
    id: Seq<char>,
    model: Seq<char>,
    text: Seq<char>,
    usage: ExecUsage,
    wrapper: Option<WrapperMetadata>,
) -> (shown: (Map<Seq<char>, JsonView>, Map<Seq<char>, JsonView>, Map<Seq<char>, JsonView>))
    ensures
        message_json(id, model, text, usage, wrapper) == JsonView::Object(shown.0),
        shown.0["id"@] == JsonView::Text(id),
        shown.0["type"@] == JsonView::Text("message"@),
        shown.0["role"@] == JsonView::Text("assistant"@),
        shown.0["model"@] == JsonView::Text(model),
        shown.0["stop_reason"@] == JsonView::Text("end_turn"@),
        shown.0["stop_sequence"@] == JsonView::Null,
        wrapper matches Some(metadata) ==> shown.0["wrapper"@] == wrapper_json(metadata),
        wrapper is None ==> shown.0["wrapper"@] == JsonView::Null,
        shown.0["content"@] == JsonView::Array(seq![JsonView::Object(shown.1)]),
        shown.1["type"@] == JsonView::Text("text"@),
        shown.1["text"@] == JsonView::Text(text),
        shown.0["usage"@] == JsonView::Object(shown.2),
        shown.2["input_tokens"@].as_i64() == Some(usage.input_tokens),
        shown.2["output_tokens"@].as_i64() == Some(usage.output_tokens),
{
    lemma_message_names();
    lemma_small_names();
    let members = message_json(id, model, text, usage, wrapper)->Object_0;
    (members, members["content"@]->Array_0[0]->Object_0, members["usage"@]->Object_0)
}

/// An account is shown by its kind, with the address and the plan that it has.
pub proof fn law_account_shows_what_it_is(email: String, plan_type: String)
    ensures
        account_json(None) == JsonView::Null,
        account_json(Some(CodexAccount::ApiKey)) is Object,
        account_json(Some(CodexAccount::ApiKey))->Object_0["type"@] == JsonView::Text("apiKey"@),
        ({
            let shown = account_json(Some(CodexAccount::Chatgpt { email, plan_type }));
            &&& shown is Object
            &&& shown->Object_0["type"@] == JsonView::Text("chatgpt"@)
            &&& shown->Object_0["email"@] == JsonView::Text(email@)
            &&& shown->Object_0["planType"@] == JsonView::Text(plan_type@)
        }),
{
    lemma_small_names();
}

/// The members of a chat completion stand in their usual order, the metadata last.
pub proof fn law_completion_members_stand_in_order(wrapper: Option<WrapperMetadata>)
    ensures
        ({
            let placed = completion_layout(wrapper)->Members_0;
            &&& completion_layout(wrapper) is Members
            &&& placed[0].0 == "id"@
            &&& placed[1].0 == "object"@
            &&& placed[2].0 == "created"@
            &&& placed[3].0 == "model"@
            &&& placed[4].0 == "choices"@
            &&& placed[5].0 == "usage"@
            &&& placed[6].0 == "service_tier"@
            &&& wrapper is Some ==> placed.len() == 8 && placed[7].0 == "wrapper"@
            &&& wrapper is None ==> placed.len() == 7
        }),
{
}

} // verus!
