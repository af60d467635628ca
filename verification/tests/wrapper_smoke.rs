use codex_openai_wrapper::anthropic::{
    AnthropicContentBlock, AnthropicImageSource, AnthropicMessage, AnthropicMessageContent,
    AnthropicMessagesRequest,
};
use codex_openai_wrapper::auth::{api_key_accepted, rate_limit_key};
use codex_openai_wrapper::config::{AppConfig, EnvSettings};
use codex_openai_wrapper::error::AppError;
use codex_openai_wrapper::exec::{exec_args, read_exec_line, ExecEvent, ExecItem, ExecLine, ExecTurn};
use codex_openai_wrapper::ids::{new_chat_id, new_message_id};
use codex_openai_wrapper::image::image_files;
use codex_openai_wrapper::json::JsonValue;
use codex_openai_wrapper::limiter::RateLimiter;
use codex_openai_wrapper::models::CodexModel;
use codex_openai_wrapper::reply::chat_completion_reply;
use codex_openai_wrapper::request::{
    ChatCompletionRequest, ChatMessage, ImageUrlPayload, MessageContent, MessagePart,
    ResponseFormatRequest,
};
use codex_openai_wrapper::rpc::JsonRpcMessage;
use codex_openai_wrapper::schema::build_output_schema;
use codex_openai_wrapper::sessions::SessionStore;
use codex_openai_wrapper::stream::{AnthropicStep, AnthropicStream, SseEvent};
use codex_openai_wrapper::thread::turn_params;
use codex_openai_wrapper::turn::{admit_request, plan_turn, TurnPlan};
use codex_openai_wrapper::usage::{
    build_openai_usage, build_wrapper_metadata, wrapper_usage_from_exec,
    wrapper_usage_from_stream, ExecUsage, PricingQuote,
};
use serde_json::Value;

fn settings(default_model: Option<&str>, default_reasoning_effort: Option<&str>) -> EnvSettings {
    EnvSettings {
        host: Some("127.0.0.1".to_string()),
        port: Some("8123".to_string()),
        codex_path: Some("codex".to_string()),
        codex_home: Some("/tmp/codex-home".to_string()),
        codex_wrapper_cwd: None,
        wrapper_data_dir: Some("/tmp/data".to_string()),
        default_model: default_model.map(str::to_string),
        default_reasoning_effort: Some(default_reasoning_effort.unwrap_or("").to_string()),
        model_cache_ttl_secs: None,
        rate_limit_requests: Some("20".to_string()),
        rate_limit_window_secs: Some("60".to_string()),
        enable_responses_websockets: None,
        enable_responses_websockets_v2: None,
        wrapper_api_key: Some("test-key".to_string()),
        wrapper_service_name: None,
        wrapper_pricing_file: Some("/tmp/pricing.json".to_string()),
    }
}

fn config(default_model: Option<&str>, default_reasoning_effort: Option<&str>) -> AppConfig {
    AppConfig::from_env(&settings(default_model, default_reasoning_effort))
}

fn live_models() -> Vec<CodexModel> {
    vec![CodexModel {
        id: "gpt-5.4".to_string(),
        model: "gpt-5.4".to_string(),
        display_name: "GPT-5.4".to_string(),
        description: "Mock model".to_string(),
        hidden: false,
        is_default: true,
        default_reasoning_effort: "medium".to_string(),
    }]
}

fn message(role: &str, text: &str) -> ChatMessage {
    ChatMessage { role: role.to_string(), content: MessageContent::Text(text.to_string()) }
}

fn request(model: &str, messages: Vec<ChatMessage>) -> ChatCompletionRequest {
    ChatCompletionRequest {
        model: model.to_string(),
        messages,
        stream: false,
        session_id: None,
        enable_tools: None,
        enable_web_search: None,
        working_directory: None,
        reasoning_effort: None,
        n: None,
        max_tokens: None,
        max_completion_tokens: None,
        temperature: None,
        top_p: None,
        stop: None,
        response_format: None,
        tools: None,
        tool_choice: None,
        metadata: None,
        user: None,
        include_wrapper_metadata: None,
        stream_options: None,
    }
}

fn anthropic_request(messages: Vec<AnthropicMessage>) -> AnthropicMessagesRequest {
    AnthropicMessagesRequest {
        model: "gpt-5.4".to_string(),
        messages,
        system: None,
        stream: false,
        max_tokens: None,
        temperature: None,
        top_p: None,
        stop_sequences: None,
        metadata: None,
        tools: None,
        tool_choice: None,
        thinking: None,
        session_id: None,
        enable_tools: None,
        enable_web_search: None,
        working_directory: None,
        reasoning_effort: None,
    }
}

fn plan(config: &AppConfig, request: &mut ChatCompletionRequest) -> TurnPlan {
    admit_request(config, request).unwrap();
    plan_turn(&live_models(), &config.default_model, &SessionStore::new(), request).unwrap()
}

fn arguments(request: &ChatCompletionRequest, plan: &TurnPlan, schema: Option<&str>) -> Vec<String> {
    exec_args(
        request,
        "/workspace",
        "/tmp/data/images/turn",
        &schema.map(str::to_string),
        &plan.bundle,
        &plan.existing_session,
    )
    .unwrap()
}

fn image_arguments(arguments: &[String]) -> Vec<&str> {
    arguments.iter().map(String::as_str).filter(|argument| argument.starts_with("--image")).collect()
}

/// The addresses of the image items in the input of an app-server turn.
fn image_urls(request: &ChatCompletionRequest, plan: &TurnPlan) -> Vec<String> {
    let params = turn_params(request, &None, &plan.bundle, "thread-new", "/workspace").to_value();
    let input = params["input"].as_array().unwrap();
    assert_eq!(input[0]["type"], "text");
    input[1..]
        .iter()
        .map(|item| {
            assert_eq!(item["type"], "image");
            item["url"].as_str().unwrap().to_string()
        })
        .collect()
}

fn has_setting(arguments: &[String], setting: &str) -> bool {
    arguments.windows(2).any(|pair| pair[0] == "-c" && pair[1] == setting)
}

fn let_in(config: &AppConfig, authorization: Option<&str>, api_key: Option<&str>) -> bool {
    api_key_accepted(&config.wrapper_api_key, authorization, api_key)
}

/// Runs the lines of a turn, decoding finished items and turns as the service does.
fn run_turn(lines: &[&str]) -> ExecTurn {
    let mut turn = ExecTurn::new(&None);
    for line in lines {
        match read_exec_line(line).unwrap() {
            ExecLine::ThreadStarted(thread_id) => turn.apply(ExecEvent::Thread(thread_id)),
            ExecLine::ItemCompleted(value) => {
                if value.text_at_path("item", "type") == Some("agent_message") {
                    let text = value.text_at_path("item", "text").unwrap().to_string();
                    turn.apply(ExecEvent::Item(ExecItem::AgentMessage { text }));
                }
            }
            ExecLine::TurnCompleted(value) => {
                let usage = value.get("usage").unwrap();
                turn.apply(ExecEvent::Usage(ExecUsage {
                    input_tokens: usage.get("input_tokens").unwrap().as_i64().unwrap(),
                    cached_input_tokens: usage.get("cached_input_tokens").unwrap().as_i64().unwrap(),
                    output_tokens: usage.get("output_tokens").unwrap().as_i64().unwrap(),
                }));
            }
            ExecLine::TurnFailed(value) => {
                let text = value.text_at_path("error", "message").unwrap().to_string();
                turn.apply(ExecEvent::Failure(text));
            }
            ExecLine::ErrorReport(_) | ExecLine::Nothing => {}
        }
    }
    turn
}

#[test]
fn chat_completions_returns_wrapper_metadata_and_cost() {
    let config = config(None, None);
    assert!(let_in(&config, Some("Bearer test-key"), None));
    let mut request = request(
        "default",
        vec![message("system", "Return JSON."), message("user", "Say hi.")],
    );
    request.include_wrapper_metadata = Some(true);
    request.response_format = Some(ResponseFormatRequest::JsonObject);

    let plan = plan(&config, &mut request);
    let schema = build_output_schema(&request).unwrap().unwrap();
    assert_eq!(schema.to_text(), "{\"type\":\"object\"}");
    let arguments = arguments(&request, &plan, Some("/tmp/data/schemas/a.json"));
    assert!(arguments
        .windows(2)
        .any(|pair| pair[0] == "--output-schema" && pair[1] == "/tmp/data/schemas/a.json"));

    let turn = run_turn(&[
        "{\"type\":\"thread.started\",\"thread_id\":\"thread-new\"}",
        "{\"type\":\"item.completed\",\"item\":{\"type\":\"agent_message\",\"id\":\"1\",\"text\":\"{\\\"message\\\":\\\"mock json\\\"}\"}}",
        "{\"type\":\"turn.completed\",\"usage\":{\"input_tokens\":100,\"cached_input_tokens\":20,\"output_tokens\":40}}",
    ]);
    let result = turn.finish(true, "exit status: 0", "").unwrap();

    let usage = wrapper_usage_from_exec(&result.usage);
    let tokens = usage.billable();
    let cost = (tokens.input as f64 * 1.0
        + tokens.cached_input as f64 * 0.1
        + tokens.output as f64 * 2.0
        + tokens.reasoning as f64 * 0.5)
        / 1_000_000.0;
    let quote = PricingQuote {
        estimated_cost_usd: Some(JsonValue::from_value(Value::from(cost))),
        source: "/tmp/pricing.json".to_string(),
    };
    let wrapper = build_wrapper_metadata(&request, &result.thread_id, usage, &Some(quote));
    let reply = chat_completion_reply(
        &new_chat_id(),
        1,
        &request.model,
        &result.text,
        &build_openai_usage(&result.usage),
        &wrapper,
    );

    let body: Value = reply.to_value();
    assert_eq!(body["model"], "gpt-5.4");
    assert!(body["choices"][0]["message"]["content"]
        .as_str()
        .unwrap()
        .contains("\"mock json\""));
    assert_eq!(body["wrapper"]["thread_id"], "thread-new");
    assert!(body["wrapper"]["estimated_cost_usd"].as_f64().unwrap() > 0.0);
}

#[test]
fn default_model_alias_applies_to_default_requests() {
    let config = config(Some("gpt-5.4-high"), None);
    let mut request = request("default", vec![message("user", "Use the wrapper default.")]);
    let plan = plan(&config, &mut request);
    assert_eq!(request.model, "gpt-5.4");
    assert!(has_setting(&arguments(&request, &plan, None), "model_reasoning_effort=\"high\""));
}

#[test]
fn plain_default_model_still_applies_to_default_requests() {
    let config = config(Some("gpt-5.4"), None);
    let mut request = request("default", vec![message("user", "Use the plain wrapper default.")]);
    let plan = plan(&config, &mut request);
    assert_eq!(request.model, "gpt-5.4");
    assert!(arguments(&request, &plan, None)
        .iter()
        .all(|argument| !argument.starts_with("model_reasoning_effort")));
}

#[test]
fn default_reasoning_effort_env_applies_to_default_requests() {
    let config = config(Some("gpt-5.4"), Some("xhigh"));
    let mut request = request(
        "default",
        vec![message("user", "Use the configured default reasoning effort.")],
    );
    let plan = plan(&config, &mut request);
    assert_eq!(request.model, "gpt-5.4");
    assert!(has_setting(&arguments(&request, &plan, None), "model_reasoning_effort=\"xhigh\""));
}

#[test]
fn chat_completions_accepts_reasoning_suffix_alias() {
    let config = config(None, None);
    let mut request = request("gpt-5.4-xhigh", vec![message("user", "Use careful reasoning.")]);
    let plan = plan(&config, &mut request);
    assert_eq!(request.model, "gpt-5.4");
    assert!(has_setting(&arguments(&request, &plan, None), "model_reasoning_effort=\"xhigh\""));
}

#[test]
fn chat_completions_forwards_image_inputs_to_codex() {
    let config = config(None, None);
    let parts = vec![
        MessagePart::Text { text: "Analyze the attached image.".to_string() },
        MessagePart::ImageUrl {
            image_url: ImageUrlPayload::Object { url: "https://example.com/sample.png".to_string() },
        },
    ];
    let mut request = request(
        "gpt-5.4",
        vec![ChatMessage { role: "user".to_string(), content: MessageContent::Parts(parts) }],
    );
    let plan = plan(&config, &mut request);
    assert_eq!(
        image_arguments(&arguments(&request, &plan, None)),
        ["--image=https://example.com/sample.png"]
    );
    assert_eq!(image_urls(&request, &plan), ["https://example.com/sample.png"]);
    assert!(image_files(&plan.bundle.images).is_empty());
    assert!(plan.bundle.prompt.contains("[Image URL: https://example.com/sample.png]"));
}

#[test]
fn anthropic_messages_forward_image_inputs_to_codex() {
    let config = config(None, None);
    let blocks = vec![
        AnthropicContentBlock::Text { text: "Describe this image.".to_string() },
        AnthropicContentBlock::Image {
            source: AnthropicImageSource {
                media_type: Some("image/png".to_string()),
                source_type: Some("base64".to_string()),
                data: Some("aGVsbG8=".to_string()),
                url: None,
            },
        },
    ];
    let mut request = anthropic_request(vec![AnthropicMessage {
        role: "user".to_string(),
        content: AnthropicMessageContent::Blocks(blocks),
    }])
    .into_chat_completion();
    let plan = plan(&config, &mut request);
    assert_eq!(
        image_arguments(&arguments(&request, &plan, None)),
        ["--image=/tmp/data/images/turn/0.png"]
    );
    let files = image_files(&plan.bundle.images);
    assert_eq!(files.len(), 1);
    assert_eq!(files[0].name, "0.png");
    assert_eq!(files[0].bytes, b"hello");
    assert_eq!(image_urls(&request, &plan), ["data:image/png;base64,aGVsbG8="]);
    assert!(plan.bundle.prompt.contains("[Anthropic image block: image/png (base64)]"));
}

#[test]
fn conflicting_reasoning_alias_and_field_returns_bad_request() {
    let config = config(None, None);
    let mut request = request("gpt-5.4-low", vec![message("user", "This should fail.")]);
    request.reasoning_effort = Some("xhigh".to_string());
    let error = admit_request(&config, &mut request).unwrap_err();
    let reply = error.into_response();
    assert_eq!(reply.status, 400);
    let body: Value = reply.body.to_value();
    assert!(body["error"]["message"]
        .as_str()
        .unwrap()
        .contains("conflicts with explicit reasoning_effort"));
    assert_eq!(
        body["error"]["message"],
        "Model alias `gpt-5.4-low` implies reasoning_effort `low`, which conflicts with explicit reasoning_effort `xhigh`."
    );
}

fn app_server_message(text: &str) -> JsonRpcMessage {
    let value = JsonValue::parse(text).unwrap();
    JsonRpcMessage {
        id: value.get("id").map(JsonValue::copy),
        method: value.text_at("method").map(str::to_string),
        params: value.get("params").map(JsonValue::copy),
        result: value.get("result").map(JsonValue::copy),
        error: None,
    }
}

fn sse_text(events: &[SseEvent]) -> String {
    events.iter().map(|sent| format!("event: {}\ndata: {}\n\n", sent.event, sent.data)).collect()
}

#[test]
fn anthropic_messages_streams_expected_events() {
    let config = config(None, None);
    assert!(let_in(&config, None, Some("test-key")));
    let mut anthropic = anthropic_request(vec![AnthropicMessage {
        role: "user".to_string(),
        content: AnthropicMessageContent::Text("Stream this response.".to_string()),
    }]);
    anthropic.max_tokens = Some(256);
    anthropic.stream = true;
    let mut request = anthropic.into_chat_completion();
    plan(&config, &mut request);
    assert!(request.stream);

    let mut stream = AnthropicStream::new(new_message_id(), request.model.clone());
    let mut body = sse_text(&stream.start());
    for text in [
        "{\"method\":\"turn/started\",\"params\":{}}",
        "{\"method\":\"item/agentMessage/delta\",\"params\":{\"delta\":\"streamed mock\"}}",
        "{\"method\":\"thread/tokenUsage/updated\",\"params\":{\"tokenUsage\":{\"last\":{\"inputTokens\":7,\"outputTokens\":3}}}}",
    ] {
        match stream.on_message(&app_server_message(text)) {
            AnthropicStep::Send(events) => body.push_str(&sse_text(&events)),
            _ => panic!("the stream should go on"),
        }
    }
    let step = stream.on_message(&app_server_message("{\"method\":\"turn/completed\"}"));
    assert!(matches!(step, AnthropicStep::Complete));
    let usage = wrapper_usage_from_stream(&stream.progress.usage);
    let wrapper = build_wrapper_metadata(&request, "thread-new", usage, &None);
    body.push_str(&sse_text(&stream.finish(&wrapper)));

    assert!(body.contains("event: message_start"));
    assert!(body.contains("event: content_block_delta"));
    assert!(body.contains("streamed mock"));
    assert!(body.contains("\"wrapper\""));
    assert!(body.contains("\"wrapper\":{\"thread_id\":\"thread-new\""));
    assert!(body.ends_with("event: message_stop\ndata: {\"type\":\"message_stop\"}\n\n"));
}

#[test]
fn rate_limit_triggers_after_repeated_requests() {
    let mut limiter = RateLimiter::new(2, 60);
    let key = rate_limit_key(None, None, Some("Bearer test-key"));
    for _ in 0..2 {
        assert!(limiter.can_check(&key, 1_000));
        assert!(limiter.check(&key, 1_000).is_ok());
    }
    assert!(limiter.can_check(&key, 1_001));
    let seconds = limiter.check(&key, 1_001).unwrap_err();
    assert_eq!(seconds, 59);
    let reply = AppError::RateLimited(seconds).into_response();
    assert_eq!(reply.status, 429);
    assert_eq!(reply.retry_after, Some("59".to_string()));
}
