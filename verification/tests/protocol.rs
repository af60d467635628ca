use codex_openai_wrapper::anthropic::{
    render_anthropic_message_content, render_anthropic_system_prompt, AnthropicContentBlock,
    AnthropicImageSource, AnthropicMessage, AnthropicMessageContent, AnthropicMessagesRequest,
    AnthropicSystemBlock, AnthropicSystemPrompt,
};
use codex_openai_wrapper::clock::{timestamp_from_seconds, unix_timestamp};
use codex_openai_wrapper::config::{AppConfig, EnvSettings, APP_VERSION};
use codex_openai_wrapper::error::AppError;
use codex_openai_wrapper::exec::{
    exec_args, read_exec_event, read_exec_line, ExecEvent, ExecItem, ExecLine, ExecTurn,
};
use codex_openai_wrapper::ids::{
    chat_id, image_directory_name, message_id, new_chat_id, new_image_directory_name,
    new_message_id, new_schema_file_name, schema_file_name,
};
use codex_openai_wrapper::image::{image_files, read_base64, read_image_url, ImageInput};
use codex_openai_wrapper::json::JsonValue;
use codex_openai_wrapper::log::{
    log_request_summary, log_response_error_summary, log_response_summary,
    request_messages_for_log, response_format_for_log,
};
use codex_openai_wrapper::pages::index;
use codex_openai_wrapper::prompt::{build_prompt_bundle, capitalize_role, PromptBundle};
use codex_openai_wrapper::reply::{
    anthropic_reply, auth_status_reply, chat_completion_reply, health_reply, version_reply,
    CodexAccount, CodexAccountResult,
};
use codex_openai_wrapper::request::{
    normalize_message_text, ChatCompletionRequest, ChatMessage, ImageUrlPayload, JsonSchemaConfig,
    MessageContent, MessagePart, ResponseFormatRequest, StopSequences, TemperatureBand,
};
use codex_openai_wrapper::rpc::{
    account_params, app_server_args, check_initialized, closed_error, holds_message,
    initialize_params, notification_line, reply_to, JsonRpcError, JsonRpcMessage, RequestCounter,
};
use codex_openai_wrapper::schema::build_output_schema;
use codex_openai_wrapper::sessions::SessionRecord;
use codex_openai_wrapper::stream::{
    wants_usage, AnthropicStep, AnthropicStream, ChatStep, ChatStream, Progress, TurnNews,
};
use codex_openai_wrapper::text::{
    characters, contains, decimal_text, first_segment, join, parse_unsigned, rsplit_once,
    same, same_ignoring_case, signed_decimal_text, strip_prefix, to_lower, trim,
};
use codex_openai_wrapper::thread::{
    build_thread_config, resolve_working_directory, thread_id_of, thread_request, turn_params,
    WorkingDirectory,
};
use codex_openai_wrapper::toml::toml_string;
use codex_openai_wrapper::turn::Requested;
use codex_openai_wrapper::usage::{
    build_openai_usage, build_openai_usage_from_stream, build_wrapper_metadata,
    update_streaming_usage, wrapper_to_json, wrapper_usage_from_exec, wrapper_usage_from_stream,
    ExecUsage, PricingQuote, StreamingUsage, WrapperUsageMetadata,
};

fn text(value: &str) -> Option<String> {
    Some(value.to_string())
}

fn json(document: &str) -> JsonValue {
    JsonValue::parse(document).unwrap()
}

fn message(role: &str, content: &str) -> ChatMessage {
    ChatMessage { role: role.to_string(), content: MessageContent::Text(content.to_string()) }
}

fn request(messages: Vec<ChatMessage>) -> ChatCompletionRequest {
    ChatCompletionRequest {
        model: "gpt-5.4".to_string(),
        messages,
        stream: false,
        session_id: None,
        enable_tools: None,
        enable_web_search: None,
        working_directory: None,
        reasoning_effort: None,
        n: None,
        max_tokens: None,
        max_completion_tokens: None,
        temperature: None,
        top_p: None,
        stop: None,
        response_format: None,
        tools: None,
        tool_choice: None,
        metadata: None,
        user: None,
        include_wrapper_metadata: None,
        stream_options: None,
    }
}

fn config() -> AppConfig {
    AppConfig::from_env(&EnvSettings {
        host: None,
        port: None,
        codex_path: None,
        codex_home: None,
        codex_wrapper_cwd: None,
        wrapper_data_dir: None,
        default_model: None,
        default_reasoning_effort: None,
        model_cache_ttl_secs: None,
        rate_limit_requests: None,
        rate_limit_window_secs: None,
        enable_responses_websockets: Some("on".to_string()),
        enable_responses_websockets_v2: None,
        wrapper_api_key: None,
        wrapper_service_name: Some("svc".to_string()),
        wrapper_pricing_file: None,
    })
}

fn bundle(prompt: &str, instructions: Option<&str>) -> PromptBundle {
    PromptBundle {
        prompt: prompt.to_string(),
        developer_instructions: instructions.map(str::to_string),
        images: Vec::new(),
    }
}

fn session(thread_id: &str) -> SessionRecord {
    SessionRecord {
        session_id: "s".to_string(),
        thread_id: thread_id.to_string(),
        model: "gpt-5.4".to_string(),
        created_at: 1,
        updated_at: 2,
    }
}

fn news(method: &str, params: Option<&str>) -> JsonRpcMessage {
    JsonRpcMessage {
        id: None,
        method: text(method),
        params: params.map(json),
        result: None,
        error: None,
    }
}

#[test]
fn texts_are_trimmed_split_and_joined() {
    assert_eq!(trim("\u{2003} a b\u{85}\n"), "a b");
    assert_eq!(trim(" \t "), "");
    assert_eq!(characters("añ"), vec!['a', 'ñ']);
    assert_eq!(to_lower("ÀB-Z1"), "Àb-z1");
    assert!(same("a", "a") && !same("a", "A"));
    assert!(same_ignoring_case("GPT-a", "gpt-A") && !same_ignoring_case("é", "É"));
    assert!(contains("abcabd", "abd") && !contains("ab", "abc") && contains("x", ""));
    assert_eq!(rsplit_once("a-b-c", '-'), Some(("a-b", "c")));
    assert_eq!(rsplit_once("abc", '-'), None);
    assert_eq!(first_segment("a,b,c", ','), "a");
    assert_eq!(first_segment("abc", ','), "abc");
    assert_eq!(strip_prefix("Bearer x", "Bearer "), Some("x"));
    assert_eq!(strip_prefix("Bear", "Bearer "), None);
    assert_eq!(join(&vec!["a".to_string(), "".to_string(), "c".to_string()], ", "), "a, , c");
    assert_eq!(join(&Vec::new(), ", "), "");
}

#[test]
fn numbers_are_written_and_read_in_decimal() {
    for n in [0u64, 7, 10, 1_234_567, u64::MAX] {
        assert_eq!(decimal_text(n), n.to_string());
        assert_eq!(parse_unsigned(&decimal_text(n), u64::MAX), Some(n));
    }
    for n in [i64::MIN, -1, 0, 42, i64::MAX] {
        assert_eq!(signed_decimal_text(n), n.to_string());
    }
    assert_eq!(parse_unsigned("18446744073709551616", u64::MAX), None);
    assert_eq!(parse_unsigned("007", u64::MAX), Some(7));
}

#[test]
fn json_is_read_and_written() {
    let value = json("{\"b\":[1,-2,2.5,null,true],\"a\":\"x\\n\",\"a\":\"y\"}");
    assert_eq!(value.to_text(), "{\"a\":\"y\",\"b\":[1,-2,2.5,null,true]}");
    assert_eq!(value.text_at("a"), Some("y"));
    assert_eq!(value.text_at("b"), None);
    assert!(value.get("c").is_none());
    assert_eq!(json("{\"a\":{\"b\":\"c\"}}").text_at_path("a", "b"), Some("c"));
    assert_eq!(json("[\"a\"]").text_at_path("a", "b"), None);
    assert!(json("{\"f\":true}").flag_at("f") && !json("{\"f\":1}").flag_at("f"));
    assert_eq!(json("18446744073709551615").as_u64(), Some(u64::MAX));
    assert_eq!(json("18446744073709551615").as_i64(), None);
    assert_eq!(json("-5").as_i64(), Some(-5));
    assert_eq!(json("-5").as_u64(), None);
    assert_eq!(json("1.0").as_i64(), None);
    assert_eq!(JsonValue::from_i64(-7).to_text(), "-7");
    assert_eq!(JsonValue::from_u64(u64::MAX).to_text(), "18446744073709551615");
    assert_eq!(
        String::from_utf8(json("{\"a\":1}").to_pretty_bytes().unwrap()).unwrap(),
        "{\n  \"a\": 1\n}"
    );
    assert!(JsonValue::parse("{").is_err());
    assert_eq!(JsonValue::from_value(value.to_value()), json(&value.to_text()));
    assert_eq!(value.copy().to_text(), value.clone().to_text());
    assert_eq!(JsonValue::Null.with("a", JsonValue::Null).to_text(), "null");
}

#[test]
fn roles_start_with_a_capital() {
    assert_eq!(capitalize_role("user"), "User");
    assert_eq!(capitalize_role("éa"), "éa");
    assert_eq!(capitalize_role(""), "Message");
}

#[test]
fn message_parts_become_lines() {
    let parts = vec![
        MessagePart::Text { text: "a".to_string() },
        MessagePart::Unsupported,
        MessagePart::ImageUrl { image_url: ImageUrlPayload::Raw("u".to_string()) },
    ];
    let message =
        ChatMessage { role: "user".to_string(), content: MessageContent::Parts(parts) };
    assert_eq!(normalize_message_text(&message), "a\n[Image URL: u]");
}

#[test]
fn a_new_thread_is_given_the_whole_conversation() {
    let request = request(vec![
        message("system", "Be brief."),
        message("user", "Hi."),
        message("developer", " "),
        message("assistant", "Hello."),
        message("", "Odd."),
        message("user", "\n"),
    ]);
    let bundle = build_prompt_bundle(&request, false).unwrap();
    assert_eq!(
        bundle.prompt,
        "Conversation transcript:\n\nUser:\nHi.\n\nAssistant:\nHello.\n\nMessage:\nOdd.\n\nReply as the assistant to the latest user request."
    );
    assert_eq!(
        bundle.developer_instructions.unwrap(),
        "System instructions:\nBe brief.\n\nTool policy:\nDefault to a direct answer. Do not run shell commands, modify files, or use external connectors unless the request explicitly requires tool-enabled behavior.\n\nWeb search policy:\nDo not browse the web for this request."
    );
}

#[test]
fn a_resumed_thread_is_given_the_latest_turn_alone() {
    let mut request = request(vec![message("user", "One."), message("user", "Two.")]);
    request.enable_tools = Some(true);
    request.enable_web_search = Some(true);
    request.max_tokens = Some(5);
    request.max_completion_tokens = Some(9);
    request.stop = Some(StopSequences::Multiple(vec!["a".to_string(), "b".to_string()]));
    request.temperature = Some(TemperatureBand::High);
    request.top_p = text("0.50");
    request.user = text("u1");
    request.metadata = Some(json("{\"k\":1}"));
    let bundle = build_prompt_bundle(&request, true).unwrap();
    assert_eq!(bundle.prompt, "Latest user message:\nTwo.");
    assert_eq!(
        bundle.developer_instructions.unwrap(),
        [
            "Tool policy:\nTool-enabled mode is allowed for this request. Use Codex capabilities only when they materially improve correctness.",
            "Web search policy:\nLive web search is enabled for this request if Codex needs it.",
            "Length policy:\nAim to keep the final answer within approximately 9 tokens.",
            "Stop sequence policy:\nDo not emit any of these sequences in the final answer: a, b",
            "Sampling policy:\nMore creative variation is acceptable, but do not compromise correctness.",
            "Sampling note:\nThe caller requested top_p=0.50. Keep output aligned with the most probable valid answer.",
            "Caller identity:\nOpenAI user field: u1",
            "Request metadata:\n{\"k\":1}",
            "Session note:\nThis request is being attached to an existing Codex thread. Only the latest message from the incoming payload is forwarded as the new turn; prior context comes from the stored Codex session.",
        ]
        .join("\n\n")
    );
}

#[test]
fn temperatures_and_single_stops_are_mentioned() {
    let mut request = request(vec![message("user", "x")]);
    request.temperature = Some(TemperatureBand::Low);
    request.stop = Some(StopSequences::Single("END".to_string()));
    let low = build_prompt_bundle(&request, false).unwrap().developer_instructions.unwrap();
    assert!(low.contains("Sampling policy:\nPrefer a deterministic and minimally varied answer."));
    assert!(low.contains("in the final answer: END"));
    request.temperature = Some(TemperatureBand::Middle);
    request.stop = Some(StopSequences::Multiple(Vec::new()));
    let middle = build_prompt_bundle(&request, false).unwrap().developer_instructions.unwrap();
    assert!(middle.contains("Sampling policy:\nKeep a balanced level of variation."));
    assert!(!middle.contains("Stop sequence policy"));
}

#[test]
fn a_request_without_conversation_is_refused() {
    let request = request(vec![message("system", "Only this.")]);
    let error = build_prompt_bundle(&request, false).unwrap_err();
    assert!(matches!(error, AppError::BadRequest(_)));
    assert_eq!(
        error.message(),
        "No user-visible conversation content was found in `messages`."
    );
}

fn picture(url: &str) -> MessagePart {
    MessagePart::ImageUrl { image_url: ImageUrlPayload::Raw(url.to_string()) }
}

fn pictures(role: &str, urls: &[&str]) -> ChatMessage {
    ChatMessage {
        role: role.to_string(),
        content: MessageContent::Parts(urls.iter().map(|url| picture(url)).collect()),
    }
}

fn addresses(bundle: &PromptBundle) -> Vec<String> {
    bundle.images.iter().map(ImageInput::url).collect()
}

#[test]
fn images_of_the_forwarded_turns_are_handed_over_in_order() {
    let request = request(vec![
        pictures("system", &["s"]),
        pictures("user", &["a", "b"]),
        message("assistant", "fine"),
        pictures("user", &["c", "data:image/jpeg;base64,/+8="]),
        message("user", " "),
    ]);
    let fresh = build_prompt_bundle(&request, false).unwrap();
    assert_eq!(addresses(&fresh), ["a", "b", "c", "data:image/jpeg;base64,/+8="]);
    let resumed = build_prompt_bundle(&request, true).unwrap();
    assert_eq!(addresses(&resumed), ["c", "data:image/jpeg;base64,/+8="]);

    let arguments = exec_args(&request, "/w", "/i", &None, &resumed, &None).unwrap();
    assert_eq!(arguments[17..19].to_vec(), ["--image=c", "--image=/i/1.jpg"]);
    let params = turn_params(&request, &None, &resumed, "t", "/w").to_value();
    assert_eq!(params["input"].as_array().unwrap().len(), 3);
    assert_eq!(params["input"][1]["url"], "c");
    assert_eq!(params["input"][2]["url"], "data:image/jpeg;base64,/+8=");
    let files = image_files(&resumed.images);
    assert_eq!((files.len(), files[0].name.as_str()), (1, "1.jpg"));
    assert_eq!(files[0].bytes, [0xff, 0xef]);
}

#[test]
fn data_addresses_hold_the_image_itself() {
    assert!(matches!(
        read_image_url("data:image/gif;base64,AA=="),
        ImageInput::Data { media_type, data } if media_type == "image/gif" && data == "AA=="
    ));
    for url in ["https://e.com/a,b", "data:image/png,raw", "data:;base64", "DATA:x;base64,AA=="] {
        assert!(matches!(read_image_url(url), ImageInput::Url(kept) if kept == url), "{url}");
    }
    for url in ["data:;base64,", "data:a;base64,x,y", "data:,", "plain"] {
        assert_eq!(read_image_url(url).url(), url);
    }
}

#[test]
fn base64_is_read_in_all_its_forms() {
    let forms = ["aGVsbG8=", "aGVsbG8", "aGVs\r\nbG8=\n", " a G V s b G 8 = ", "aGVsbG9="];
    for form in forms {
        assert_eq!(read_base64(form), b"hello", "{form:?}");
    }
    assert_eq!(read_base64("aGVsbA=="), b"hell");
    assert_eq!(read_base64("aGVs"), b"hel");
    assert_eq!(read_base64("+/+/"), [0xfb, 0xff, 0xbf]);
    assert_eq!(read_base64("-_-_"), [0xfb, 0xff, 0xbf]);
    for nothing in ["", "====", "?", "a"] {
        assert!(read_base64(nothing).is_empty(), "{nothing:?}");
    }
    let bare = vec![ImageInput::Data { media_type: "m".to_string(), data: "aGVsbG8".to_string() }];
    assert_eq!(image_files(&bare)[0].bytes, b"hello");
}

#[test]
fn anthropic_messages_without_images_become_plain_text() {
    let request = AnthropicMessagesRequest {
        model: "m".to_string(),
        messages: vec![
            AnthropicMessage {
                role: "user".to_string(),
                content: AnthropicMessageContent::Text("hi".to_string()),
            },
            AnthropicMessage {
                role: "assistant".to_string(),
                content: AnthropicMessageContent::Blocks(vec![
                    AnthropicContentBlock::Text { text: "a".to_string() },
                    AnthropicContentBlock::Text { text: "b".to_string() },
                ]),
            },
        ],
        system: Some(AnthropicSystemPrompt::Text("sys".to_string())),
        stream: false,
        max_tokens: None,
        temperature: None,
        top_p: None,
        stop_sequences: None,
        metadata: Some(json("{\"session_id\":\"s1\"}")),
        tools: Some(json("[]")),
        tool_choice: None,
        thinking: Some(json("{\"type\":\"enabled\"}")),
        session_id: None,
        enable_tools: None,
        enable_web_search: None,
        working_directory: None,
        reasoning_effort: None,
    }
    .into_chat_completion();
    let shown: Vec<(&str, &str)> = request
        .messages
        .iter()
        .map(|message| match &message.content {
            MessageContent::Text(text) => (message.role.as_str(), text.as_str()),
            MessageContent::Parts(_) => panic!("plain text is expected"),
        })
        .collect();
    assert_eq!(shown, [("system", "sys"), ("user", "hi"), ("assistant", "a\nb")]);
    assert_eq!(request.session_id, text("s1"));
    assert!(request.stop.is_none());
}

#[test]
fn anthropic_images_stay_in_their_messages() {
    let image = |data: Option<&str>, url: Option<&str>, media_type: Option<&str>| {
        AnthropicContentBlock::Image {
            source: AnthropicImageSource {
                media_type: media_type.map(str::to_string),
                source_type: None,
                data: data.map(str::to_string),
                url: url.map(str::to_string),
            },
        }
    };
    let content = AnthropicMessageContent::Blocks(vec![
        image(Some("AAAA"), Some("u"), None),
        AnthropicContentBlock::Text { text: "t".to_string() },
        image(None, Some("u"), Some("image/webp")),
        image(None, None, None),
    ]);
    let rendered = render_anthropic_message_content(&content);
    let request = AnthropicMessagesRequest {
        model: "m".to_string(),
        messages: vec![AnthropicMessage { role: "user".to_string(), content }],
        system: None,
        stream: false,
        max_tokens: None,
        temperature: None,
        top_p: None,
        stop_sequences: None,
        metadata: None,
        tools: None,
        tool_choice: None,
        thinking: None,
        session_id: None,
        enable_tools: None,
        enable_web_search: None,
        working_directory: None,
        reasoning_effort: None,
    }
    .into_chat_completion();
    assert_eq!(normalize_message_text(&request.messages[0]), rendered);
    let bundle = build_prompt_bundle(&request, false).unwrap();
    assert_eq!(addresses(&bundle), ["data:application/octet-stream;base64,AAAA", "u"]);
}

#[test]
fn anthropic_blocks_become_lines() {
    let content = AnthropicMessageContent::Blocks(vec![
        AnthropicContentBlock::Text { text: "t".to_string() },
        AnthropicContentBlock::Image {
            source: AnthropicImageSource {
                media_type: None,
                source_type: None,
                data: None,
                url: None,
            },
        },
        AnthropicContentBlock::ToolUse {
            id: "i".to_string(),
            name: "n".to_string(),
            input: json("{\"a\":[1]}"),
        },
        AnthropicContentBlock::ToolResult {
            tool_use_id: "i".to_string(),
            content: JsonValue::Null,
        },
        AnthropicContentBlock::Unsupported,
    ]);
    assert_eq!(
        render_anthropic_message_content(&content),
        "t\n[Anthropic image block: image payload omitted (unknown source)]\n[Anthropic tool_use n (i)]\n{\"a\":[1]}\n[Anthropic tool_result for i]\nnull"
    );
    let system = AnthropicSystemPrompt::Blocks(vec![
        AnthropicSystemBlock::Text { text: "a".to_string() },
        AnthropicSystemBlock::Unsupported,
        AnthropicSystemBlock::Text { text: "b".to_string() },
    ]);
    assert_eq!(render_anthropic_system_prompt(&system), "a\nb");
}

#[test]
fn anthropic_requests_become_chat_requests() {
    let request = AnthropicMessagesRequest {
        model: "m".to_string(),
        messages: vec![AnthropicMessage {
            role: "user".to_string(),
            content: AnthropicMessageContent::Text("hi".to_string()),
        }],
        system: Some(AnthropicSystemPrompt::Text("sys".to_string())),
        stream: true,
        max_tokens: Some(3),
        temperature: Some(TemperatureBand::Middle),
        top_p: None,
        stop_sequences: Some(vec!["x".to_string()]),
        metadata: Some(json("{\"session_id\":\"from-metadata\"}")),
        tools: Some(json("[]")),
        tool_choice: None,
        thinking: Some(json("{}")),
        session_id: None,
        enable_tools: None,
        enable_web_search: None,
        working_directory: text("dir"),
        reasoning_effort: None,
    }
    .into_chat_completion();
    assert_eq!(request.session_id, text("from-metadata"));
    assert_eq!(request.enable_tools, Some(true));
    assert_eq!(request.reasoning_effort, text("medium"));
    assert_eq!(request.include_wrapper_metadata, Some(true));
    assert_eq!(request.n, Some(1));
    assert_eq!(request.max_tokens, Some(3));
    assert_eq!(request.stop_sequences(), ["x"]);
    let shown: Vec<(String, String)> = request
        .messages
        .iter()
        .map(|m| (m.role.clone(), normalize_message_text(m)))
        .collect();
    assert_eq!(
        shown,
        [("system".to_string(), "sys".to_string()), ("user".to_string(), "hi".to_string())]
    );
}

#[test]
fn a_blank_system_prompt_is_left_out() {
    let request = AnthropicMessagesRequest {
        model: "m".to_string(),
        messages: Vec::new(),
        system: Some(AnthropicSystemPrompt::Text(" \n".to_string())),
        stream: false,
        max_tokens: None,
        temperature: None,
        top_p: None,
        stop_sequences: None,
        metadata: Some(json("{\"session_id\":1}")),
        tools: None,
        tool_choice: None,
        thinking: None,
        session_id: None,
        enable_tools: None,
        enable_web_search: None,
        working_directory: None,
        reasoning_effort: text("low"),
    }
    .into_chat_completion();
    assert!(request.messages.is_empty());
    assert_eq!(request.session_id, None);
    assert_eq!(request.enable_tools, None);
    assert_eq!(request.reasoning_effort, text("low"));
}

fn schema_request(document: &str, name: Option<&str>, strict: Option<bool>) -> String {
    let mut request = request(Vec::new());
    request.response_format = Some(ResponseFormatRequest::JsonSchema {
        json_schema: JsonSchemaConfig {
            name: name.map(str::to_string),
            schema: json(document),
            strict,
        },
    });
    build_output_schema(&request).unwrap().unwrap().to_text()
}

#[test]
fn schemas_are_completed_and_kept() {
    assert_eq!(
        schema_request("{\"type\":\"object\"}", Some("n"), Some(true)),
        "{\"additionalProperties\":false,\"title\":\"n\",\"type\":\"object\"}"
    );
    assert_eq!(
        schema_request("{\"title\":\"own\",\"additionalProperties\":true}", Some("n"), Some(true)),
        "{\"additionalProperties\":true,\"title\":\"own\"}"
    );
    assert_eq!(schema_request("{}", Some("n"), Some(false)), "{\"title\":\"n\"}");
    assert_eq!(schema_request("{}", None, Some(true)), "{}");
    assert_eq!(schema_request("[1]", Some("n"), Some(true)), "[1]");
    let mut plain = request(Vec::new());
    assert!(build_output_schema(&plain).unwrap().is_none());
    plain.response_format = Some(ResponseFormatRequest::Text);
    assert!(build_output_schema(&plain).unwrap().is_none());
}

#[test]
fn strings_are_quoted_for_the_configuration() {
    assert_eq!(toml_string("plain").unwrap(), "\"plain\"");
    assert_eq!(
        toml_string("a\"b\\c\n\r\t\u{8}\u{c}\u{1}\u{1f}\u{7f}é").unwrap(),
        "\"a\\\"b\\\\c\\n\\r\\t\\b\\f\\u0001\\u001f\u{7f}é\""
    );
    assert_ne!(toml_string("a\nb").unwrap(), toml_string("a\\nb").unwrap());
}

#[test]
fn ids_have_their_shapes() {
    let chat = new_chat_id();
    let id = chat.strip_prefix("chatcmpl-").unwrap();
    let groups: Vec<usize> = id.split('-').map(str::len).collect();
    assert_eq!(groups, [8, 4, 4, 4, 12]);
    assert_eq!(&id[14..15], "4");
    assert!("89ab".contains(&id[19..20]));

    let message = new_message_id();
    let digits = message.strip_prefix("msg_").unwrap();
    assert_eq!(digits.len(), 32);
    assert!(digits.chars().all(|c| c.is_ascii_digit() || ('a'..='f').contains(&c)));
    assert_eq!(&digits[12..13], "4");
    assert!("89ab".contains(&digits[16..17]));

    let name = new_schema_file_name();
    assert_eq!(name.strip_suffix(".json").unwrap().len(), 36);
    assert_eq!(new_image_directory_name().len(), 36);
}

#[test]
fn ids_are_drawn_anew() {
    assert_ne!(new_chat_id(), new_chat_id());
    assert_ne!(new_message_id(), new_message_id());
    assert_ne!(new_schema_file_name(), new_schema_file_name());
    assert_ne!(new_image_directory_name(), new_image_directory_name());
}

#[test]
fn ids_spell_their_number() {
    let n: u128 = 0xa1a2a3a4_b1b2_41c2_81d2_d3d4d5d6d7d8;
    assert_eq!(chat_id(n), "chatcmpl-a1a2a3a4-b1b2-41c2-81d2-d3d4d5d6d7d8");
    assert_eq!(message_id(n), "msg_a1a2a3a4b1b241c281d2d3d4d5d6d7d8");
    assert_eq!(schema_file_name(n), "a1a2a3a4-b1b2-41c2-81d2-d3d4d5d6d7d8.json");
    assert_eq!(image_directory_name(n), "a1a2a3a4-b1b2-41c2-81d2-d3d4d5d6d7d8");
    assert_eq!(chat_id(0), "chatcmpl-00000000-0000-0000-0000-000000000000");
    assert_eq!(message_id(u128::MAX), format!("msg_{}", "f".repeat(32)));
}

#[test]
fn different_numbers_give_different_ids() {
    let numbers = [0, 1, 16, 1 << 64, u128::MAX - 1, u128::MAX];
    for n in numbers {
        for m in numbers {
            assert_eq!(chat_id(n) == chat_id(m), n == m);
            assert_eq!(message_id(n) == message_id(m), n == m);
            assert_eq!(schema_file_name(n) == schema_file_name(m), n == m);
            assert_eq!(image_directory_name(n) == image_directory_name(m), n == m);
        }
    }
}

#[test]
fn time_stamps_count_seconds_after_the_epoch() {
    assert_eq!(timestamp_from_seconds(Some(1_700_000_000)), 1_700_000_000);
    assert_eq!(timestamp_from_seconds(None), 0);
    assert_eq!(timestamp_from_seconds(Some(u64::MAX)), -1);
    let seconds = std::time::SystemTime::now()
        .duration_since(std::time::UNIX_EPOCH)
        .unwrap()
        .as_secs() as i64;
    assert!((unix_timestamp() - seconds).abs() <= 5);
}

#[test]
fn restrictive_arguments_are_the_default() {
    let request = request(Vec::new());
    let arguments =
        exec_args(&request, "/w", "", &None, &bundle("p", None), &None).unwrap();
    assert_eq!(
        arguments,
        [
            "exec",
            "--json",
            "--skip-git-repo-check",
            "--model",
            "gpt-5.4",
            "--cd",
            "/w",
            "--sandbox",
            "read-only",
            "-c",
            "approval_policy=\"never\"",
            "-c",
            "web_search=\"disabled\"",
            "-c",
            "features.apps=false",
            "-c",
            "features.shell_tool=false",
        ]
    );
}

#[test]
fn arguments_carry_what_the_turn_needs() {
    let mut request = request(Vec::new());
    request.tools = Some(json("[]"));
    request.enable_web_search = Some(true);
    request.reasoning_effort = text("high");
    let arguments = exec_args(
        &request,
        "/w",
        "/i",
        &text("/s.json"),
        &bundle("p", Some("do\nit")),
        &Some(session("thread-1")),
    )
    .unwrap();
    assert_eq!(
        arguments[7..].to_vec(),
        [
            "--sandbox",
            "workspace-write",
            "-c",
            "approval_policy=\"never\"",
            "-c",
            "web_search=\"live\"",
            "-c",
            "features.apps=false",
            "-c",
            "features.shell_tool=true",
            "--output-schema",
            "/s.json",
            "-c",
            "developer_instructions=\"do\\nit\"",
            "-c",
            "model_reasoning_effort=\"high\"",
            "resume",
            "thread-1",
        ]
    );
}

#[test]
fn output_lines_are_told_apart_by_type() {
    assert!(matches!(read_exec_line("  ").unwrap(), ExecLine::Nothing));
    assert!(matches!(read_exec_line("{\"type\":\"turn.started\"}").unwrap(), ExecLine::Nothing));
    assert!(matches!(read_exec_line("{\"type\":7}").unwrap(), ExecLine::Nothing));
    assert!(matches!(read_exec_line("[]").unwrap(), ExecLine::Nothing));
    assert!(matches!(
        read_exec_line("{\"type\":\"thread.started\",\"thread_id\":\"t\"}").unwrap(),
        ExecLine::ThreadStarted(Some(id)) if id == "t"
    ));
    assert!(matches!(
        read_exec_line("{\"type\":\"thread.started\",\"thread_id\":3}").unwrap(),
        ExecLine::ThreadStarted(None)
    ));
    assert!(matches!(
        read_exec_event(json("{\"type\":\"item.completed\"}")),
        ExecLine::ItemCompleted(_)
    ));
    assert!(matches!(
        read_exec_event(json("{\"type\":\"turn.completed\"}")),
        ExecLine::TurnCompleted(_)
    ));
    assert!(matches!(
        read_exec_event(json("{\"type\":\"turn.failed\"}")),
        ExecLine::TurnFailed(_)
    ));
    assert!(matches!(
        read_exec_event(json("{\"type\":\"error\",\"message\":\"m\"}")),
        ExecLine::ErrorReport(Some(m)) if m == "m"
    ));
    let error = read_exec_line("not json").unwrap_err();
    assert!(matches!(error, AppError::Json(_)));
    assert_eq!(error.message(), "expected ident at line 1 column 2");
}

fn usage() -> ExecUsage {
    ExecUsage { input_tokens: 10, cached_input_tokens: 4, output_tokens: 3 }
}

#[test]
fn a_turn_ends_with_what_it_reported() {
    let mut turn = ExecTurn::new(&Some(session("old")));
    for text in ["first", "second"] {
        turn.apply(ExecEvent::Item(ExecItem::AgentMessage { text: text.to_string() }));
    }
    turn.apply(ExecEvent::Item(ExecItem::Error { message: "on the way".to_string() }));
    turn.apply(ExecEvent::Item(ExecItem::Other));
    turn.apply(ExecEvent::Usage(usage()));
    let result = turn.finish(true, "exit status: 0", "noise").unwrap();
    assert_eq!((result.thread_id.as_str(), result.text.as_str()), ("old", "second"));
    assert_eq!(result.usage.input_tokens, 10);

    let mut silent = ExecTurn::new(&None);
    silent.apply(ExecEvent::Thread(text("new")));
    silent.apply(ExecEvent::Usage(usage()));
    assert_eq!(silent.finish(true, "", "").unwrap().text, "");
}

#[test]
fn a_turn_fails_for_one_reason_at_a_time() {
    let mut reported = ExecTurn::new(&None);
    reported.apply(ExecEvent::Failure("boom".to_string()));
    assert_eq!(reported.finish(false, "exit status: 1", "stderr").unwrap_err().message(), "boom");

    let status = ExecTurn::new(&None).finish(false, "exit status: 1", " \n").unwrap_err();
    assert_eq!(status.message(), "codex exec exited with status exit status: 1");
    let stderr = ExecTurn::new(&None).finish(false, "exit status: 1", "bad\n").unwrap_err();
    assert_eq!(stderr.message(), "bad\n");

    let mut unnamed = ExecTurn::new(&Some(session("old")));
    unnamed.apply(ExecEvent::Thread(None));
    unnamed.apply(ExecEvent::Usage(usage()));
    let error = unnamed.finish(true, "", "").unwrap_err();
    assert_eq!(error.message(), "codex exec did not return a thread id");

    let unpaid = ExecTurn::new(&Some(session("old")));
    let error = unpaid.finish(true, "", "").unwrap_err();
    assert!(matches!(error, AppError::Codex(_)));
    assert_eq!(error.message(), "codex exec did not return usage metadata");
}

#[test]
fn app_servers_are_started_with_explicit_transports() {
    assert_eq!(
        app_server_args(&config()),
        [
            "app-server",
            "-c",
            "features.responses_websockets=true",
            "-c",
            "features.responses_websockets_v2=false",
        ]
    );
    assert_eq!(
        initialize_params("svc").to_text(),
        format!("{{\"capabilities\":{{\"experimentalApi\":true}},\"clientInfo\":{{\"name\":\"svc\",\"title\":\"Codex OpenAI Wrapper\",\"version\":\"{APP_VERSION}\"}}}}")
    );
    assert!(check_initialized(&json("{\"userAgent\":null}")).is_ok());
    let error = check_initialized(&json("{}")).unwrap_err();
    assert_eq!(error.message(), "initialize returned an unexpected payload");
    assert_eq!(account_params().to_text(), "{\"refreshToken\":false}");
    assert_eq!(closed_error().message(), "codex app-server closed unexpectedly");
    assert!(holds_message("{}") && !holds_message(" \r"));
}

#[test]
fn requests_are_numbered_from_one() {
    let mut counter = RequestCounter::new();
    let (first, line) = counter.request("account/read", account_params());
    assert_eq!(first, 1);
    assert_eq!(
        line,
        "{\"id\":1,\"method\":\"account/read\",\"params\":{\"refreshToken\":false}}\n"
    );
    let (second, _) = counter.request("x", JsonValue::Null);
    assert_eq!(second, 2);
    assert_eq!(
        notification_line("initialized", JsonValue::object()),
        "{\"method\":\"initialized\",\"params\":{}}\n"
    );
}

fn reply(id: &str, result: Option<&str>, error: Option<JsonRpcError>) -> JsonRpcMessage {
    JsonRpcMessage {
        id: Some(json(id)),
        method: None,
        params: None,
        result: result.map(json),
        error,
    }
}

#[test]
fn replies_answer_the_request_with_their_number() {
    assert!(reply_to("m", 3, reply("4", Some("1"), None)).is_none());
    assert!(reply_to("m", 3, reply("\"3\"", Some("1"), None)).is_none());
    assert!(reply_to("m", 3, news("m", None)).is_none());
    let result = reply_to("m", 3, reply("3", Some("{\"a\":1}"), None)).unwrap().unwrap();
    assert_eq!(result.to_text(), "{\"a\":1}");
    let nothing = reply_to("m", 3, reply("3", None, None)).unwrap().unwrap();
    assert_eq!(nothing.to_text(), "null");

    let plain = JsonRpcError { code: -32600, message: "bad".to_string(), data: None };
    let error = reply_to("m", 3, reply("3", Some("1"), Some(plain))).unwrap().unwrap_err();
    assert_eq!(error.message(), "m failed [-32600]: bad");
    let detailed =
        JsonRpcError { code: 5, message: "bad".to_string(), data: Some(json("{\"x\":1}")) };
    let error = reply_to("m", 3, reply("3", None, Some(detailed))).unwrap().unwrap_err();
    assert!(matches!(error, AppError::Codex(_)));
    assert_eq!(error.message(), "m failed [5]: bad ({\"x\":1})");
}

#[test]
fn threads_are_started_or_resumed() {
    let request = request(Vec::new());
    let start = thread_request(&config(), &request, &None, &bundle("p", Some("i")), "/w");
    assert_eq!(start.method, "thread/start");
    let config_text = "{\"features\":{\"apps\":false,\"shell_tool\":false},\"sandbox_workspace_write\":{\"network_access\":false},\"web_search\":\"disabled\"}";
    assert_eq!(build_thread_config(&request).to_text(), config_text);
    assert_eq!(
        start.params.to_text(),
        format!("{{\"approvalPolicy\":\"never\",\"config\":{config_text},\"cwd\":\"/w\",\"developerInstructions\":\"i\",\"model\":\"gpt-5.4\",\"sandbox\":\"read-only\",\"serviceName\":\"svc\"}}")
    );
    let resume =
        thread_request(&config(), &request, &Some(session("t-9")), &bundle("p", None), "/w");
    assert_eq!(resume.method, "thread/resume");
    assert_eq!(resume.params.text_at("threadId"), Some("t-9"));
    assert_eq!(thread_id_of(&json("{\"thread\":{\"id\":\"t\"}}")).unwrap(), "t");
    let error = thread_id_of(&json("{\"thread\":\"t\"}")).unwrap_err();
    assert_eq!(error.message(), "thread start did not return a thread id");
}

#[test]
fn turns_carry_prompt_effort_and_schema() {
    let mut request = request(Vec::new());
    let bare = turn_params(&request, &None, &bundle("p", None), "t", "/w");
    assert_eq!(
        bare.to_text(),
        "{\"cwd\":\"/w\",\"effort\":null,\"input\":[{\"text\":\"p\",\"type\":\"text\"}],\"outputSchema\":null,\"threadId\":\"t\"}"
    );
    request.reasoning_effort = text("low");
    let full = turn_params(&request, &Some(json("{\"type\":\"object\"}")), &bundle("p", None), "t", "/w");
    assert_eq!(full.text_at("effort"), Some("low"));
    assert_eq!(full.text_at_path("outputSchema", "type"), Some("object"));
}

#[test]
fn working_directories_are_taken_from_the_configured_one() {
    assert!(matches!(resolve_working_directory(&None, false), WorkingDirectory::Configured));
    assert!(matches!(
        resolve_working_directory(&text("/a"), true),
        WorkingDirectory::Given(path) if path == "/a"
    ));
    assert!(matches!(
        resolve_working_directory(&text("a"), false),
        WorkingDirectory::BelowConfigured(path) if path == "a"
    ));
}

const DELTA: &str = "item/agentMessage/delta";
const ITEM: &str = "item/completed";
const WHOLE: &str = "{\"item\":{\"type\":\"agentMessage\",\"text\":\"whole\"}}";

#[test]
fn the_response_is_what_was_sent() {
    let mut progress = Progress::new();
    let mut sent = String::new();
    let messages = [
        news(DELTA, Some("{\"delta\":\"a\"}")),
        news(DELTA, Some("{\"delta\":5}")),
        news(DELTA, None),
        news("unknown", Some("{\"delta\":\"zzz\"}")),
        news(DELTA, Some("{\"delta\":\"\"}")),
        news(DELTA, Some("{\"delta\":\"b\"}")),
        news(ITEM, Some(WHOLE)),
    ];
    for message in &messages {
        if let TurnNews::Text(piece) = progress.read(message) {
            sent.push_str(&piece);
        }
    }
    assert_eq!(sent, "ab");
    assert_eq!(progress.response_text, "ab");
    assert!(progress.sent_any_text);
}

#[test]
fn a_completed_message_is_sent_where_nothing_was() {
    let mut progress = Progress::new();
    let other = news(ITEM, Some("{\"item\":{\"type\":\"reasoning\",\"text\":\"no\"}}"));
    assert!(matches!(progress.read(&other), TurnNews::Nothing));
    assert!(matches!(progress.read(&news(ITEM, Some(WHOLE))), TurnNews::Text(t) if t == "whole"));
    assert!(matches!(progress.read(&news(ITEM, Some(WHOLE))), TurnNews::Nothing));
    assert_eq!(progress.response_text, "whole");
}

#[test]
fn retried_errors_are_passed_over() {
    let mut progress = Progress::new();
    let retried = news("error", Some("{\"willRetry\":true,\"error\":{\"message\":\"m\"}}"));
    assert!(matches!(progress.read(&retried), TurnNews::Nothing));
    let told = news("error", Some("{\"willRetry\":false,\"error\":{\"message\":\"m\"}}"));
    assert!(matches!(progress.read(&told), TurnNews::Failed(t) if t == "m"));
    let bare = news("error", None);
    assert!(matches!(progress.read(&bare), TurnNews::Failed(t) if t == "Codex reported an error."));
}

fn chat_stream(include_usage: bool) -> ChatStream {
    ChatStream::new("id".to_string(), 7, "m".to_string(), include_usage)
}

const CHUNK: &str = "\"created\":7,\"id\":\"id\",\"model\":\"m\",\"object\":\"chat.completion.chunk\"";
const LAST: &str = "{\"choices\":[{\"delta\":{},\"finish_reason\":\"stop\",\"index\":0,\"logprobs\":null}],\"created\":7,\"id\":\"id\",\"model\":\"m\",\"object\":\"chat.completion.chunk\"}";

#[test]
fn chat_streams_open_send_and_close() {
    let mut stream = chat_stream(false);
    assert_eq!(
        stream.start(),
        format!("{{\"choices\":[{{\"delta\":{{\"content\":\"\",\"role\":\"assistant\"}},\"finish_reason\":null,\"index\":0,\"logprobs\":null}}],{CHUNK}}}")
    );
    match stream.on_message(&news(DELTA, Some("{\"delta\":\"hi\"}"))) {
        ChatStep::Send(events) => assert_eq!(
            events,
            [format!("{{\"choices\":[{{\"delta\":{{\"content\":\"hi\"}},\"finish_reason\":null,\"index\":0,\"logprobs\":null}}],{CHUNK}}}")]
        ),
        _ => panic!("text is sent"),
    }
    assert!(matches!(
        stream.on_message(&news("other", None)),
        ChatStep::Send(events) if events.is_empty()
    ));
    assert!(matches!(stream.on_message(&news("turn/completed", None)), ChatStep::Complete));
    assert_eq!(stream.finish(false, &None), [LAST.to_string(), "[DONE]".to_string()]);
    assert_eq!(
        stream.finish(true, &None),
        [
            LAST.to_string(),
            format!("{{\"choices\":[],{CHUNK},\"wrapper\":null}}"),
            "[DONE]".to_string()
        ]
    );
}

#[test]
fn chat_streams_report_usage_where_it_is_wanted() {
    let mut stream = chat_stream(true);
    let report = news(
        "thread/tokenUsage/updated",
        Some("{\"tokenUsage\":{\"last\":{\"inputTokens\":10,\"cachedInputTokens\":2,\"outputTokens\":5,\"reasoningOutputTokens\":1}}}"),
    );
    assert!(matches!(stream.on_message(&report), ChatStep::Send(events) if events.is_empty()));
    assert!(stream.progress.usage.has_total());
    let events = stream.finish(true, &None);
    assert_eq!(
        events[1],
        format!("{{\"choices\":[],{CHUNK},\"usage\":{{\"completion_tokens\":5,\"completion_tokens_details\":{{\"accepted_prediction_tokens\":0,\"audio_tokens\":0,\"reasoning_tokens\":1,\"rejected_prediction_tokens\":0}},\"prompt_tokens\":10,\"prompt_tokens_details\":{{\"audio_tokens\":0,\"cached_tokens\":2}},\"total_tokens\":15}},\"wrapper\":null}}")
    );
    assert_eq!(events.last().unwrap(), "[DONE]");
    assert!(wants_usage(&Some(json("{\"include_usage\":true}"))));
    assert!(!wants_usage(&Some(json("{\"include_usage\":\"yes\"}"))));
    assert!(!wants_usage(&None));
}

#[test]
fn chat_streams_tell_an_error_where_nothing_was_sent() {
    let failure = news("error", Some("{\"error\":{\"message\":\"boom\"}}"));
    match chat_stream(false).on_message(&failure) {
        ChatStep::Fail { events, told_error } => {
            assert_eq!(told_error, text("boom"));
            assert_eq!(events.len(), 3);
            assert!(events[0].contains("\"content\":\"Codex error: boom\""));
            assert_eq!(events[1], LAST);
            assert_eq!(events[2], "[DONE]");
        }
        _ => panic!("the stream fails"),
    }
    let mut begun = chat_stream(false);
    begun.on_message(&news(DELTA, Some("{\"delta\":\"a\"}")));
    match begun.on_message(&failure) {
        ChatStep::Fail { events, told_error } => {
            assert_eq!(told_error, None);
            assert_eq!(events, [LAST, "[DONE]"]);
        }
        _ => panic!("the stream fails"),
    }
}

#[test]
fn anthropic_streams_open_send_close_and_fail() {
    let mut stream = AnthropicStream::new("msg_1".to_string(), "m".to_string());
    let opening = stream.start();
    assert_eq!(opening[0].event, "message_start");
    assert_eq!(
        opening[0].data,
        "{\"message\":{\"content\":[],\"id\":\"msg_1\",\"model\":\"m\",\"role\":\"assistant\",\"stop_reason\":null,\"stop_sequence\":null,\"type\":\"message\",\"usage\":{\"input_tokens\":0,\"output_tokens\":0}},\"type\":\"message_start\"}"
    );
    assert_eq!(
        opening[1].data,
        "{\"content_block\":{\"text\":\"\",\"type\":\"text\"},\"index\":0,\"type\":\"content_block_start\"}"
    );
    match stream.on_message(&news(DELTA, Some("{\"delta\":\"hi\"}"))) {
        AnthropicStep::Send(events) => {
            assert_eq!(events.len(), 1);
            assert_eq!(events[0].event, "content_block_delta");
            assert_eq!(
                events[0].data,
                "{\"delta\":{\"text\":\"hi\",\"type\":\"text_delta\"},\"index\":0,\"type\":\"content_block_delta\"}"
            );
        }
        _ => panic!("text is sent"),
    }
    assert!(matches!(stream.on_message(&news("turn/completed", None)), AnthropicStep::Complete));
    let closing = stream.finish(&None);
    let names: Vec<&str> = closing.iter().map(|sent| sent.event).collect();
    assert_eq!(names, ["content_block_stop", "message_delta", "message_stop"]);
    assert_eq!(
        closing[1].data,
        "{\"delta\":{\"stop_reason\":\"end_turn\",\"stop_sequence\":null},\"type\":\"message_delta\",\"usage\":{\"output_tokens\":0},\"wrapper\":null}"
    );
    match stream.on_message(&news("error", Some("{\"error\":{\"message\":\"boom\"}}"))) {
        AnthropicStep::Fail { events, error } => {
            assert_eq!(error, "boom");
            assert_eq!(events[0].event, "error");
            assert_eq!(
                events[0].data,
                "{\"error\":{\"message\":\"boom\",\"type\":\"api_error\"},\"type\":\"error\"}"
            );
        }
        _ => panic!("the stream fails"),
    }
}

#[test]
fn usage_reports_replace_the_counts_they_hold() {
    let mut usage = StreamingUsage::default();
    update_streaming_usage(
        &mut usage,
        &json("{\"tokenUsage\":{\"last\":{\"inputTokens\":5,\"outputTokens\":-1,\"cachedInputTokens\":\"x\"}}}"),
    );
    assert_eq!((usage.input_tokens, usage.output_tokens, usage.cached_input_tokens), (5, -1, 0));
    update_streaming_usage(&mut usage, &json("{\"tokenUsage\":{\"total\":{\"inputTokens\":9}}}"));
    assert_eq!(usage.input_tokens, 5);
    let metadata = wrapper_usage_from_stream(&usage);
    assert_eq!((metadata.input_tokens, metadata.reasoning_output_tokens), (5, 0));
    assert_eq!(
        build_openai_usage_from_stream(&usage).get("total_tokens").unwrap().as_i64(),
        Some(4)
    );
}

#[test]
fn usage_blocks_add_up() {
    let usage = usage();
    assert!(usage.has_total());
    let block = build_openai_usage(&usage);
    assert_eq!((block.prompt_tokens, block.completion_tokens, block.total_tokens), (10, 3, 13));
    assert_eq!(block.prompt_tokens_details.cached_tokens, 4);
    assert_eq!(block.completion_tokens_details.reasoning_tokens, 0);
    let metadata = wrapper_usage_from_exec(&usage);
    assert_eq!(
        (metadata.input_tokens, metadata.cached_input_tokens, metadata.output_tokens),
        (10, 4, 3)
    );
    assert_eq!(metadata.reasoning_output_tokens, 0);
    let huge = ExecUsage { input_tokens: i64::MAX, cached_input_tokens: 0, output_tokens: 1 };
    assert!(!huge.has_total());
}

#[test]
fn billable_tokens_are_never_negative() {
    let usage = WrapperUsageMetadata {
        input_tokens: 10,
        cached_input_tokens: 14,
        output_tokens: -3,
        reasoning_output_tokens: 2,
    };
    assert!(usage.has_uncached());
    let tokens = usage.billable();
    assert_eq!((tokens.input, tokens.cached_input, tokens.output, tokens.reasoning), (0, 14, 0, 2));
    let far = WrapperUsageMetadata { input_tokens: i64::MIN, cached_input_tokens: 1, ..usage };
    assert!(!far.has_uncached());
}

#[test]
fn wrapper_metadata_comes_only_where_it_is_wanted() {
    let usage = wrapper_usage_from_exec(&usage());
    let mut request = request(Vec::new());
    request.session_id = text("s");
    assert!(build_wrapper_metadata(&request, "t", usage, &None).is_none());
    request.include_wrapper_metadata = Some(true);
    let bare = build_wrapper_metadata(&request, "t", usage, &None);
    assert_eq!(
        wrapper_to_json(&bare).to_text(),
        "{\"session_id\":\"s\",\"thread_id\":\"t\",\"usage\":{\"cached_input_tokens\":4,\"input_tokens\":10,\"output_tokens\":3,\"reasoning_output_tokens\":0}}"
    );
    let quote = PricingQuote {
        estimated_cost_usd: Some(json("0.25")),
        source: "prices.json".to_string(),
    };
    request.session_id = None;
    let priced = build_wrapper_metadata(&request, "t", usage, &Some(quote));
    assert_eq!(
        wrapper_to_json(&priced).to_text(),
        "{\"estimated_cost_usd\":0.25,\"pricing_source\":\"prices.json\",\"thread_id\":\"t\",\"usage\":{\"cached_input_tokens\":4,\"input_tokens\":10,\"output_tokens\":3,\"reasoning_output_tokens\":0}}"
    );
    assert_eq!(wrapper_to_json(&None).to_text(), "null");
}

#[test]
fn completions_and_messages_have_their_forms() {
    let block = build_openai_usage(&usage());
    let completion = chat_completion_reply("c1", 9, "m", "hi", &block, &None);
    assert_eq!(
        completion.to_text(),
        "{\"choices\":[{\"finish_reason\":\"stop\",\"index\":0,\"logprobs\":null,\"message\":{\"annotations\":[],\"content\":\"hi\",\"refusal\":null,\"role\":\"assistant\"}}],\"created\":9,\"id\":\"c1\",\"model\":\"m\",\"object\":\"chat.completion\",\"service_tier\":\"default\",\"usage\":{\"completion_tokens\":3,\"completion_tokens_details\":{\"accepted_prediction_tokens\":0,\"audio_tokens\":0,\"reasoning_tokens\":0,\"rejected_prediction_tokens\":0},\"prompt_tokens\":10,\"prompt_tokens_details\":{\"audio_tokens\":0,\"cached_tokens\":4},\"total_tokens\":13}}"
    );
    let JsonValue::Object(members) = &completion else { panic!("a completion is an object") };
    let names: Vec<&str> = members.iter().map(|(name, _)| name.as_str()).collect();
    assert_eq!(names, ["id", "object", "created", "model", "choices", "usage", "service_tier"]);
    let message = anthropic_reply("m1", "m", "hi", &usage(), &None);
    assert_eq!(
        message.to_text(),
        "{\"content\":[{\"text\":\"hi\",\"type\":\"text\"}],\"id\":\"m1\",\"model\":\"m\",\"role\":\"assistant\",\"stop_reason\":\"end_turn\",\"stop_sequence\":null,\"type\":\"message\",\"usage\":{\"input_tokens\":10,\"output_tokens\":3},\"wrapper\":null}"
    );
}

#[test]
fn status_replies_have_their_forms() {
    let signed_in = CodexAccountResult {
        account: Some(CodexAccount::Chatgpt { email: "e".to_string(), plan_type: "pro".to_string() }),
        requires_openai_auth: true,
    };
    assert_eq!(
        auth_status_reply(&signed_in).to_text(),
        "{\"account\":{\"email\":\"e\",\"planType\":\"pro\",\"type\":\"chatgpt\"},\"authenticated\":true,\"requires_openai_auth\":true}"
    );
    let by_key = CodexAccountResult { account: Some(CodexAccount::ApiKey), requires_openai_auth: false };
    assert_eq!(
        auth_status_reply(&by_key).to_text(),
        "{\"account\":{\"type\":\"apiKey\"},\"authenticated\":true,\"requires_openai_auth\":false}"
    );
    let signed_out = CodexAccountResult { account: None, requires_openai_auth: true };
    assert_eq!(
        auth_status_reply(&signed_out).to_text(),
        "{\"account\":null,\"authenticated\":false,\"requires_openai_auth\":true}"
    );
    assert_eq!(
        health_reply(&config(), "/h", "/w", true).to_text(),
        format!("{{\"codex_cwd\":\"/w\",\"codex_home\":\"/h\",\"codex_path\":\"codex\",\"pricing_enabled\":true,\"rate_limit\":{{\"max_requests\":120,\"window_secs\":60}},\"service\":\"codex-openai-wrapper\",\"status\":\"ok\",\"version\":\"{APP_VERSION}\"}}")
    );
    assert_eq!(
        version_reply().to_text(),
        format!("{{\"name\":\"codex-openai-wrapper\",\"version\":\"{APP_VERSION}\"}}")
    );
}

#[test]
fn the_landing_page_shows_hint_and_model() {
    let mut config = config();
    config.default_model = "model-x".to_string();
    let open = index(&config);
    assert!(open.starts_with("<!doctype html>") && open.ends_with("</html>"));
    assert!(open.contains("<strong>Auth:</strong> This server accepts any Bearer token by default"));
    assert!(open.contains("model=\"model-x\","));
    assert!(open.contains("<input id=\"model\" value=\"model-x\" />"));
    assert!(open.contains("* { box-sizing: border-box; }"));
    config.wrapper_api_key = text("k");
    assert!(index(&config).contains("This server requires the configured wrapper API key"));
}

#[test]
fn log_entries_have_their_forms() {
    let mut request = request(vec![message("user", "hi")]);
    request.response_format = Some(ResponseFormatRequest::JsonObject);
    assert_eq!(response_format_for_log(&request), "json_object");
    assert_eq!(
        request_messages_for_log(&request)[0].to_text(),
        "{\"content\":\"hi\",\"role\":\"user\"}"
    );
    let requested = Requested { model: "asked".to_string(), reasoning_effort: None };
    let entry = log_request_summary("api", &requested, &request, &bundle("p", None), true, &None);
    assert_eq!(
        entry.to_text(),
        "{\"api\":\"api\",\"codex_developer_instructions\":null,\"codex_prompt\":\"p\",\"enable_tools\":false,\"enable_web_search\":false,\"event\":\"wrapper_request\",\"messages\":[{\"content\":\"hi\",\"role\":\"user\"}],\"model_details\":null,\"requested_model\":\"asked\",\"requested_reasoning_effort\":null,\"resolved_model\":\"gpt-5.4\",\"resolved_reasoning_effort\":null,\"response_format\":\"json_object\",\"resumed_session\":true,\"session_id\":null,\"stream\":false,\"working_directory\":null}"
    );
    let answered = log_response_summary("api", &request, &None, true, "t", "out", &None);
    assert_eq!(
        answered.to_text(),
        "{\"api\":\"api\",\"assistant_text\":\"out\",\"event\":\"wrapper_response\",\"model_details\":null,\"resolved_model\":\"gpt-5.4\",\"resolved_reasoning_effort\":null,\"session_id\":null,\"stream\":true,\"thread_id\":\"t\",\"wrapper\":null}"
    );
    let failed = log_response_error_summary("api", &request, &None, true, None, "bad", "par");
    assert_eq!(
        failed.to_text(),
        "{\"api\":\"api\",\"error\":\"bad\",\"event\":\"wrapper_response_error\",\"model_details\":null,\"partial_assistant_text\":\"par\",\"resolved_model\":\"gpt-5.4\",\"resolved_reasoning_effort\":null,\"session_id\":null,\"stream\":true,\"thread_id\":null}"
    );
}
