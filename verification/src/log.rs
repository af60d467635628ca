//! What is logged of requests and responses.

use crate::json::{json_views, slice_text, text_of, text_or_null, JsonValue, JsonView};
use crate::models::{model_log, model_log_value, CodexModel};
use crate::prompt::PromptBundle;
use crate::request::{
    message_text, normalize_message_text, tools_enabled, web_search_enabled, ChatCompletionRequest,
    ChatMessage, JsonSchemaConfig, ResponseFormatRequest,
};
use crate::turn::Requested;
use crate::usage::{wrapper_json_or_null, wrapper_to_json, WrapperMetadata};
use vstd::prelude::*;

verus! {

/// A message as the log shows it.
pub open spec fn message_log(message: ChatMessage) -> JsonView {
    JsonView::Object(
        map![
            "role"@ => JsonView::Text(message.role@),
            "content"@ => JsonView::Text(message_text(message)),
        ],
    )
}

/// Messages as the log shows them.
pub open spec fn messages_log(messages: Seq<ChatMessage>) -> Seq<JsonView> {
    messages.map_values(|message: ChatMessage| message_log(message))
}

/// The messages of a request as the log shows them.
pub fn request_messages_for_log(request: &ChatCompletionRequest) -> (messages: Vec<JsonValue>)
    ensures
        json_views(messages@) == messages_log(request.messages@),
{
    let ghost shown = messages_log(request.messages@);
    let mut messages: Vec<JsonValue> = Vec::new();
    let mut at: usize = 0;
    while at < request.messages.len()
        invariant
            at <= request.messages.len(),
            at == messages.len(),
            shown == messages_log(request.messages@),
            json_views(messages@) == shown.take(at as int),
        decreases request.messages.len() - at,
    {
        let message = &request.messages[at];
        messages.push(
            JsonValue::object().with("role", JsonValue::from_text(message.role.as_str())).with(
                "content",
                JsonValue::Text(normalize_message_text(message)),
            ),
        );
        at = at + 1;
        assert(json_views(messages@) == shown.take(at as int));
    }
    assert(shown.take(request.messages.len() as int) == shown);
    messages
}

/// The name of the form that a request wants its answer in.
pub open spec fn format_name(format: Option<ResponseFormatRequest>) -> Seq<char> {
    match format {
        Some(ResponseFormatRequest::Text) => "text"@,
        Some(ResponseFormatRequest::JsonObject) => "json_object"@,
        Some(ResponseFormatRequest::JsonSchema { json_schema }) => "json_schema"@,
        None => "default"@,
    }
}

/// The name of the form that a request wants its answer in.
pub fn response_format_for_log(request: &ChatCompletionRequest) -> (name: &'static str)
    ensures
        name@ == format_name(request.response_format),
{
    match &request.response_format {
        Some(ResponseFormatRequest::Text) => "text",
        Some(ResponseFormatRequest::JsonObject) => "json_object",
        Some(ResponseFormatRequest::JsonSchema { .. }) => "json_schema",
        None => "default",
    }
}

/// The log entry for a request.
pub fn log_request_summary(
    api: &str,
    requested: &Requested,
    request: &ChatCompletionRequest,
    bundle: &PromptBundle,
    resumed_session: bool,
    model: &Option<CodexModel>,
) -> (entry: JsonValue)
    ensures
        entry@ == JsonView::Object(
            map![
                "event"@ => JsonView::Text("wrapper_request"@),
                "api"@ => JsonView::Text(api@),
                "stream"@ => JsonView::Bool(request.stream),
                "session_id"@ => text_or_null(text_of(request.session_id)),
                "resumed_session"@ => JsonView::Bool(resumed_session),
                "requested_model"@ => JsonView::Text(requested.model@),
                "resolved_model"@ => JsonView::Text(request.model@),
                "requested_reasoning_effort"@ => text_or_null(
                    text_of(requested.reasoning_effort),
                ),
                "resolved_reasoning_effort"@ => text_or_null(text_of(request.reasoning_effort)),
                "enable_tools"@ => JsonView::Bool(tools_enabled(*request)),
                "enable_web_search"@ => JsonView::Bool(web_search_enabled(*request)),
                "working_directory"@ => text_or_null(text_of(request.working_directory)),
                "response_format"@ => JsonView::Text(format_name(request.response_format)),
                "messages"@ => JsonView::Array(messages_log(request.messages@)),
                "model_details"@ => model_log(*model),
                "codex_prompt"@ => JsonView::Text(bundle.prompt@),
                "codex_developer_instructions"@ => text_or_null(
                    text_of(bundle.developer_instructions),
                ),
            ],
        ),
{
    JsonValue::object().with("event", JsonValue::from_text("wrapper_request")).with(
        "api",
        JsonValue::from_text(api),
    ).with("stream", JsonValue::Bool(request.stream)).with(
        "session_id",
        JsonValue::from_optional_text(&request.session_id),
    ).with("resumed_session", JsonValue::Bool(resumed_session)).with(
        "requested_model",
        JsonValue::from_text(requested.model.as_str()),
    ).with("resolved_model", JsonValue::from_text(request.model.as_str())).with(
        "requested_reasoning_effort",
        JsonValue::from_optional_text(&requested.reasoning_effort),
    ).with(
        "resolved_reasoning_effort",
        JsonValue::from_optional_text(&request.reasoning_effort),
    ).with("enable_tools", JsonValue::Bool(request.enable_tools())).with(
        "enable_web_search",
        JsonValue::Bool(request.enable_web_search()),
    ).with(
        "working_directory",
        JsonValue::from_optional_text(&request.working_directory),
    ).with("response_format", JsonValue::from_text(response_format_for_log(request))).with(
        "messages",
        JsonValue::array(request_messages_for_log(request)),
    ).with("model_details", model_log_value(model)).with(
        "codex_prompt",
        JsonValue::from_text(bundle.prompt.as_str()),
    ).with(
        "codex_developer_instructions",
        JsonValue::from_optional_text(&bundle.developer_instructions),
    )
}

/// The log entry for a response.
pub fn log_response_summary(
    api: &str,
    request: &ChatCompletionRequest,
    model: &Option<CodexModel>,
    stream: bool,
    thread_id: &str,
    assistant_text: &str,
    wrapper: &Option<WrapperMetadata>,
) -> (entry: JsonValue)
    ensures
        entry@ == JsonView::Object(
            map![
                "event"@ => JsonView::Text("wrapper_response"@),
                "api"@ => JsonView::Text(api@),
                "stream"@ => JsonView::Bool(stream),
                "session_id"@ => text_or_null(text_of(request.session_id)),
                "thread_id"@ => JsonView::Text(thread_id@),
                "resolved_model"@ => JsonView::Text(request.model@),
                "resolved_reasoning_effort"@ => text_or_null(text_of(request.reasoning_effort)),
                "assistant_text"@ => JsonView::Text(assistant_text@),
                "model_details"@ => model_log(*model),
                "wrapper"@ => wrapper_json_or_null(*wrapper),
            ],
        ),
{
    JsonValue::object().with("event", JsonValue::from_text("wrapper_response")).with(
        "api",
        JsonValue::from_text(api),
    ).with("stream", JsonValue::Bool(stream)).with(
        "session_id",
        JsonValue::from_optional_text(&request.session_id),
    ).with("thread_id", JsonValue::from_text(thread_id)).with(
        "resolved_model",
        JsonValue::from_text(request.model.as_str()),
    ).with(
        "resolved_reasoning_effort",
        JsonValue::from_optional_text(&request.reasoning_effort),
    ).with("assistant_text", JsonValue::from_text(assistant_text)).with(
        "model_details",
        model_log_value(model),
    ).with("wrapper", wrapper_to_json(wrapper))
}

/// The log entry for a response that failed.
pub fn log_response_error_summary(
    api: &str,
    request: &ChatCompletionRequest,
    model: &Option<CodexModel>,
    stream: bool,
    thread_id: Option<&str>,
    error_text: &str,
    partial_assistant_text: &str,
) -> (entry: JsonValue)
    ensures
        entry@ == JsonView::Object(
            map![
                "event"@ => JsonView::Text("wrapper_response_error"@),
                "api"@ => JsonView::Text(api@),
                "stream"@ => JsonView::Bool(stream),
                "session_id"@ => text_or_null(text_of(request.session_id)),
                "thread_id"@ => text_or_null(slice_text(thread_id)),
                "resolved_model"@ => JsonView::Text(request.model@),
                "resolved_reasoning_effort"@ => text_or_null(text_of(request.reasoning_effort)),
                "error"@ => JsonView::Text(error_text@),
                "partial_assistant_text"@ => JsonView::Text(partial_assistant_text@),
                "model_details"@ => model_log(*model),
            ],
        ),
{
    let thread = match thread_id {
        Some(id) => JsonValue::from_text(id),
        None => JsonValue::Null,
    };
    JsonValue::object().with("event", JsonValue::from_text("wrapper_response_error")).with(
        "api",
        JsonValue::from_text(api),
    ).with("stream", JsonValue::Bool(stream)).with(
        "session_id",
        JsonValue::from_optional_text(&request.session_id),
    ).with("thread_id", thread).with(
        "resolved_model",
        JsonValue::from_text(request.model.as_str()),
    ).with(
        "resolved_reasoning_effort",
        JsonValue::from_optional_text(&request.reasoning_effort),
    ).with("error", JsonValue::from_text(error_text)).with(
        "partial_assistant_text",
        JsonValue::from_text(partial_assistant_text),
    ).with("model_details", model_log_value(model))
}

proof fn lemma_log_names()
    ensures
        "role"@ != "content"@,
{
    reveal_strlit("role");
    reveal_strlit("content");
    assert("role"@.len() != "content"@.len());
}

/// The log shows every message in its place, with its role and its whole text.
pub proof fn law_log_shows_every_message(messages: Seq<ChatMessage>, at: int)
    requires
        0 <= at < messages.len(),
    ensures
        messages_log(messages).len() == messages.len(),
        messages_log(messages)[at] is Object,
        messages_log(messages)[at]->Object_0["role"@] == JsonView::Text(messages[at].role@),
        messages_log(messages)[at]->Object_0["content"@] == JsonView::Text(
            message_text(messages[at]),
        ),
{
    lemma_log_names();
}

/// The log names the form of the answer by its name in the request.
pub proof fn law_log_names_the_format(config: JsonSchemaConfig)
    ensures
        format_name(None) == "default"@,
        format_name(Some(ResponseFormatRequest::Text)) == "text"@,
        format_name(Some(ResponseFormatRequest::JsonObject)) == "json_object"@,
        format_name(Some(ResponseFormatRequest::JsonSchema { json_schema: config }))
            == "json_schema"@,
{
}

} // verus!
