use codex_openai_wrapper::auth::{api_key_accepted, rate_limit_key};
use codex_openai_wrapper::config::{
    configured_default_model, env_flag, AppConfig, DirSetting, EnvSettings,
};
use codex_openai_wrapper::error::{classify_codex_error, AppError};
use codex_openai_wrapper::limiter::{saturating_difference, RateLimiter};
use codex_openai_wrapper::models::{
    list_models, lookup_model_for_log, model_log_value, resolve_model, CodexModel,
    CodexModelListResult, ModelCache, ModelListing,
};
use codex_openai_wrapper::reasoning::{
    apply_configured_default_model, canonical_reasoning_effort, clean_effort,
    normalize_model_and_reasoning, split_model_reasoning_alias, validate_chat_request_shape,
};
use codex_openai_wrapper::request::{ChatCompletionRequest, ChatMessage, MessageContent};
use codex_openai_wrapper::sessions::{
    deleted_session_reply, get_session, list_sessions, SessionRecord, SessionStore,
};
use codex_openai_wrapper::turn::{admit_request, plan_turn, record_turn};

fn no_settings() -> EnvSettings {
    EnvSettings {
        host: None,
        port: None,
        codex_path: None,
        codex_home: None,
        codex_wrapper_cwd: None,
        wrapper_data_dir: None,
        default_model: None,
        default_reasoning_effort: None,
        model_cache_ttl_secs: None,
        rate_limit_requests: None,
        rate_limit_window_secs: None,
        enable_responses_websockets: None,
        enable_responses_websockets_v2: None,
        wrapper_api_key: None,
        wrapper_service_name: None,
        wrapper_pricing_file: None,
    }
}

fn text(value: &str) -> Option<String> {
    Some(value.to_string())
}

fn request(model: &str, effort: Option<&str>) -> ChatCompletionRequest {
    ChatCompletionRequest {
        model: model.to_string(),
        messages: vec![ChatMessage {
            role: "user".to_string(),
            content: MessageContent::Text("hello".to_string()),
        }],
        stream: false,
        session_id: None,
        enable_tools: None,
        enable_web_search: None,
        working_directory: None,
        reasoning_effort: effort.map(str::to_string),
        n: None,
        max_tokens: None,
        max_completion_tokens: None,
        temperature: None,
        top_p: None,
        stop: None,
        response_format: None,
        tools: None,
        tool_choice: None,
        metadata: None,
        user: None,
        include_wrapper_metadata: None,
        stream_options: None,
    }
}

fn model(name: &str, id: &str, display_name: &str, hidden: bool, is_default: bool) -> CodexModel {
    CodexModel {
        id: id.to_string(),
        model: name.to_string(),
        display_name: display_name.to_string(),
        description: "about".to_string(),
        hidden,
        is_default,
        default_reasoning_effort: "medium".to_string(),
    }
}

#[test]
fn configuration_has_the_documented_defaults() {
    let config = AppConfig::from_env(&no_settings());
    assert_eq!(config.bind_addr, "127.0.0.1:8000");
    assert_eq!(config.codex_path, "codex");
    assert!(matches!(&config.codex_home, DirSetting::InCurrent(name) if name == ".codex-home"));
    assert!(matches!(&config.data_dir, DirSetting::InCurrent(name) if name == ".wrapper-data"));
    assert!(matches!(config.codex_cwd, DirSetting::Current));
    assert_eq!(config.default_model, "gpt-5.4");
    assert_eq!(config.default_reasoning_effort, None);
    assert!(!config.has_explicit_default_model);
    assert_eq!(config.model_cache_ttl_secs, 30);
    assert_eq!(config.rate_limit_requests, 120);
    assert_eq!(config.rate_limit_window_secs, 60);
    assert!(!config.enable_responses_websockets);
    assert!(!config.enable_responses_websockets_v2);
    assert_eq!(config.wrapper_api_key, None);
    assert_eq!(config.service_name, "codex-openai-wrapper");
    assert_eq!(config.pricing_file, None);
}

#[test]
fn configuration_takes_what_is_set() {
    let mut settings = no_settings();
    settings.host = text("0.0.0.0");
    settings.port = text("+9000");
    settings.codex_home = text("/var/lib/codex");
    settings.codex_wrapper_cwd = text("/workspace");
    settings.rate_limit_requests = text("0");
    settings.rate_limit_window_secs = text("18446744073709551615");
    settings.model_cache_ttl_secs = text("7");
    settings.enable_responses_websockets = text(" Yes ");
    settings.wrapper_service_name = text("svc");
    settings.wrapper_pricing_file = text("prices.json");
    let config = AppConfig::from_env(&settings);
    assert_eq!(config.bind_addr, "0.0.0.0:9000");
    assert!(matches!(&config.codex_home, DirSetting::Given(path) if path == "/var/lib/codex"));
    assert!(matches!(&config.codex_cwd, DirSetting::Given(path) if path == "/workspace"));
    assert_eq!(config.rate_limit_requests, 0);
    assert_eq!(config.rate_limit_window_secs, u64::MAX);
    assert_eq!(config.model_cache_ttl_secs, 7);
    assert!(config.enable_responses_websockets);
    assert_eq!(config.service_name, "svc");
    assert_eq!(config.pricing_file, text("prices.json"));
}

#[test]
fn unreadable_numbers_fall_back_to_defaults() {
    for bad in ["", "+", "-1", " 80", "65536", "8x", "99999999999999999999"] {
        let mut settings = no_settings();
        settings.port = text(bad);
        assert_eq!(AppConfig::from_env(&settings).bind_addr, "127.0.0.1:8000", "{bad:?}");
    }
    let mut settings = no_settings();
    settings.rate_limit_requests = text("4294967296");
    assert_eq!(AppConfig::from_env(&settings).rate_limit_requests, 120);
}

#[test]
fn flags_are_set_by_four_words() {
    for on in ["1", "true", "YES", "\ton\n"] {
        assert!(env_flag(&text(on)), "{on:?}");
    }
    for off in ["", "0", "false", "yess", "o n"] {
        assert!(!env_flag(&text(off)), "{off:?}");
    }
    assert!(!env_flag(&None));
}

#[test]
fn configured_default_model_reads_aliases_and_efforts() {
    assert_eq!(
        configured_default_model(&text(" gpt-5.4-HIGH "), &text("low")),
        ("gpt-5.4".to_string(), text("high"), true)
    );
    assert_eq!(
        configured_default_model(&text("gpt-5.4"), &text(" XHigh ")),
        ("gpt-5.4".to_string(), text("xhigh"), true)
    );
    assert_eq!(
        configured_default_model(&text("gpt-5.4"), &text("  ")),
        ("gpt-5.4".to_string(), None, true)
    );
    assert_eq!(
        configured_default_model(&text("  "), &text("low")),
        ("gpt-5.4".to_string(), None, false)
    );
}

#[test]
fn efforts_are_canonical_up_to_case_and_space() {
    assert_eq!(canonical_reasoning_effort(" XHIGH\n"), Some("xhigh"));
    assert_eq!(canonical_reasoning_effort("Minimal"), Some("minimal"));
    assert_eq!(canonical_reasoning_effort("low"), Some("low"));
    assert_eq!(canonical_reasoning_effort("medium"), Some("medium"));
    assert_eq!(canonical_reasoning_effort("high"), Some("high"));
    assert_eq!(canonical_reasoning_effort("higher"), None);
    assert_eq!(canonical_reasoning_effort(""), None);
    assert_eq!(clean_effort(&text(" custom ")), text("custom"));
    assert_eq!(clean_effort(&text("\u{3000}")), None);
}

#[test]
fn aliases_split_at_the_last_hyphen() {
    assert_eq!(
        split_model_reasoning_alias("gpt-5.4-xhigh"),
        Some(("gpt-5.4".to_string(), "xhigh"))
    );
    assert_eq!(split_model_reasoning_alias(" a - Low "), Some(("a".to_string(), "low")));
    assert_eq!(split_model_reasoning_alias("gpt-5.4"), None);
    assert_eq!(split_model_reasoning_alias("-high"), None);
    assert_eq!(split_model_reasoning_alias(" -high"), None);
    assert_eq!(split_model_reasoning_alias("high"), None);
    for effort in ["minimal", "low", "medium", "high", "xhigh"] {
        let alias = format!("base-{effort}");
        let (base, found) = split_model_reasoning_alias(&alias).unwrap();
        assert_eq!((base.as_str(), found), ("base", effort));
    }
}

#[test]
fn an_alias_agrees_with_the_same_effort_only() {
    let mut agreeing = request("gpt-5.4-high", Some(" HIGH "));
    normalize_model_and_reasoning(&mut agreeing).unwrap();
    assert_eq!(agreeing.model, "gpt-5.4");
    assert_eq!(agreeing.reasoning_effort, text("high"));

    let mut blank = request("gpt-5.4-high", Some("   "));
    normalize_model_and_reasoning(&mut blank).unwrap();
    assert_eq!(blank.reasoning_effort, text("high"));

    let mut other = request("gpt-5.4-high", Some("turbo"));
    let error = normalize_model_and_reasoning(&mut other).unwrap_err();
    assert!(matches!(error, AppError::BadRequest(_)));
    assert_eq!(other.model, "gpt-5.4-high");
}

#[test]
fn a_settled_model_stays_unless_it_is_an_alias_again() {
    let mut once = request(" gpt-5.4 ", Some("Custom"));
    normalize_model_and_reasoning(&mut once).unwrap();
    normalize_model_and_reasoning(&mut once).unwrap();
    assert_eq!(once.model, "gpt-5.4");
    assert_eq!(once.reasoning_effort, text("Custom"));

    let mut twice = request("gpt-high-low", None);
    normalize_model_and_reasoning(&mut twice).unwrap();
    assert_eq!(twice.model, "gpt-high");
    assert!(normalize_model_and_reasoning(&mut twice).is_err());
}

#[test]
fn default_requests_take_the_configured_model() {
    let mut settings = no_settings();
    settings.default_model = text("gpt-5.4-high");
    let config = AppConfig::from_env(&settings);

    let mut plain = request(" Default ", None);
    apply_configured_default_model(&config, &mut plain);
    assert_eq!((plain.model.as_str(), plain.reasoning_effort), ("gpt-5.4", text("high")));

    let mut own = request("", Some("low"));
    apply_configured_default_model(&config, &mut own);
    assert_eq!((own.model.as_str(), own.reasoning_effort), ("gpt-5.4", text("low")));

    let mut other = request("other", None);
    apply_configured_default_model(&config, &mut other);
    assert_eq!((other.model.as_str(), other.reasoning_effort), ("other", None));

    let mut unset = request("default", None);
    apply_configured_default_model(&AppConfig::from_env(&no_settings()), &mut unset);
    assert_eq!((unset.model.as_str(), unset.reasoning_effort), ("default", None));
}

#[test]
fn requests_must_have_messages_and_ask_for_one_answer() {
    let mut empty = request("m", None);
    empty.messages.clear();
    empty.n = Some(2);
    let error = validate_chat_request_shape(&empty).unwrap_err();
    assert_eq!(error.message(), "`messages` must not be empty");

    let mut many = request("m", None);
    many.n = Some(2);
    let error = validate_chat_request_shape(&many).unwrap_err();
    assert_eq!(error.message(), "This wrapper currently supports only `n = 1`.");

    many.n = Some(1);
    assert!(validate_chat_request_shape(&many).is_ok());
    many.n = None;
    assert!(validate_chat_request_shape(&many).is_ok());
}

#[test]
fn admission_reports_a_contradiction_before_the_shape() {
    let config = AppConfig::from_env(&no_settings());
    let mut bad = request("m-low", Some("high"));
    bad.messages.clear();
    let error = admit_request(&config, &mut bad).unwrap_err();
    assert!(error.message().starts_with("Model alias `m-low` implies"));

    let mut shapeless = request("m-low", None);
    shapeless.messages.clear();
    let error = admit_request(&config, &mut shapeless).unwrap_err();
    assert_eq!(error.message(), "`messages` must not be empty");

    let mut good = request(" m-low ", None);
    let requested = admit_request(&config, &mut good).unwrap();
    assert_eq!(requested.model, " m-low ");
    assert_eq!(requested.reasoning_effort, None);
    assert_eq!(good.model, "m");
    assert_eq!(good.reasoning_effort, text("low"));
}

#[test]
fn errors_are_reported_with_status_type_and_code() {
    let cases = [
        (AppError::BadRequest("b".to_string()), 400, "invalid_request_error", "bad_request", "b"),
        (AppError::Unauthorized, 401, "authentication_error", "unauthorized", "unauthorized"),
        (AppError::NotFound("n".to_string()), 404, "invalid_request_error", "not_found", "n"),
        (AppError::Codex("c".to_string()), 502, "api_error", "codex_error", "c"),
        (AppError::Internal("i".to_string()), 500, "server_error", "internal_error", "i"),
        (AppError::Io("o".to_string()), 500, "server_error", "internal_error", "o"),
        (AppError::Json("j".to_string()), 500, "server_error", "internal_error", "j"),
    ];
    for (error, status, kind, code, message) in cases {
        let reply = error.into_response();
        assert_eq!(reply.status, status);
        assert_eq!(reply.retry_after, None);
        assert_eq!(
            reply.body.to_text(),
            format!("{{\"error\":{{\"code\":\"{code}\",\"message\":\"{message}\",\"type\":\"{kind}\"}}}}")
        );
    }
    let limited = AppError::RateLimited(12).into_response();
    assert_eq!(limited.status, 429);
    assert_eq!(limited.retry_after, text("12"));
    assert_eq!(
        limited.body.to_text(),
        "{\"error\":{\"code\":\"rate_limit_exceeded\",\"message\":\"rate limit exceeded\",\"type\":\"rate_limit_error\"}}"
    );
}

#[test]
fn codex_errors_are_told_apart_by_what_they_mention() {
    let cases = [
        ("401 Unauthorized", (401, "authentication_error", "codex_auth_error")),
        ("Authentication needed", (401, "authentication_error", "codex_auth_error")),
        ("missing API key, rate limit", (401, "authentication_error", "codex_auth_error")),
        ("Context Window exceeded", (400, "invalid_request_error", "context_window_exceeded")),
        ("Rate limit hit", (429, "rate_limit_error", "usage_limit_exceeded")),
        ("usage LIMIT", (429, "rate_limit_error", "usage_limit_exceeded")),
        ("overloaded", (503, "api_error", "provider_overloaded")),
        ("too many failed attempts", (503, "api_error", "provider_overloaded")),
        ("rate  limit", (502, "api_error", "codex_error")),
        ("", (502, "api_error", "codex_error")),
    ];
    for (message, class) in cases {
        assert_eq!(classify_codex_error(message), class, "{message:?}");
    }
}

#[test]
fn wrapper_key_is_accepted_in_both_headers() {
    let key = text("dev-token");
    assert!(api_key_accepted(&None, None, None));
    assert!(api_key_accepted(&None, Some("Bearer anything"), None));
    assert!(api_key_accepted(&key, Some("Bearer dev-token"), None));
    assert!(api_key_accepted(&key, Some("Bearer   dev-token "), Some("wrong")));
    assert!(api_key_accepted(&key, None, Some(" dev-token ")));
    assert!(api_key_accepted(&key, Some("Bearer  "), Some("dev-token")));
    assert!(api_key_accepted(&key, Some("Basic x"), Some("dev-token")));
    assert!(!api_key_accepted(&key, Some("Bearer wrong"), Some("dev-token")));
    assert!(!api_key_accepted(&key, Some("bearer dev-token"), None));
    assert!(!api_key_accepted(&key, Some("dev-token"), None));
    assert!(!api_key_accepted(&key, None, None));
    assert!(api_key_accepted(&text(""), None, None));
}

#[test]
fn rate_limits_go_by_address_then_key_then_authorization() {
    assert_eq!(rate_limit_key(Some(" 1.2.3.4 , 5.6.7.8"), Some("k"), Some("a")), "1.2.3.4");
    assert_eq!(rate_limit_key(Some("1.2.3.4"), None, None), "1.2.3.4");
    assert_eq!(rate_limit_key(Some(" , 5.6.7.8"), Some(" k "), Some("a")), "k");
    assert_eq!(rate_limit_key(None, Some(""), Some(" Bearer t ")), "Bearer t");
    assert_eq!(rate_limit_key(None, None, None), "anonymous");
    assert_eq!(rate_limit_key(Some(""), Some(" "), Some("\t")), "anonymous");
}

#[test]
fn rate_limits_count_a_sliding_window_for_each_caller() {
    let mut limiter = RateLimiter::new(2, 10);
    assert_eq!(limiter.check("a", 0), Ok(()));
    assert_eq!(limiter.check("a", 4), Ok(()));
    assert_eq!(limiter.check("a", 5), Err(5));
    assert_eq!(limiter.check("b", 5), Ok(()));
    assert_eq!(limiter.check("a", 10), Err(1));
    assert_eq!(limiter.check("a", 11), Ok(()));
    assert_eq!(limiter.check("a", 12), Err(2));
    assert_eq!(limiter.check("a", 15), Ok(()));
}

#[test]
fn waiting_longer_than_told_is_enough() {
    let mut limiter = RateLimiter::new(1, 60);
    assert_eq!(limiter.check("a", 100), Ok(()));
    let told = limiter.check("a", 130).unwrap_err();
    assert_eq!(told, 30);
    assert_eq!(limiter.check("a", 160), Err(1));
    assert_eq!(limiter.check("a", 130 + told as i64 + 1), Ok(()));
}

#[test]
fn limit_zero_admits_everything() {
    let mut limiter = RateLimiter::new(0, 60);
    for _ in 0..500 {
        assert!(limiter.can_check("a", 7));
        assert_eq!(limiter.check("a", 7), Ok(()));
    }
}

#[test]
fn a_wait_that_does_not_fit_is_noticed_first() {
    let mut limiter = RateLimiter::new(1, i64::MAX as u64);
    assert!(limiter.can_check("a", 5));
    assert_eq!(limiter.check("a", 5), Ok(()));
    assert!(!limiter.can_check("a", 6));
    assert!(limiter.can_check("b", 6));

    let mut wrapping = RateLimiter::new(1, u64::MAX);
    for _ in 0..3 {
        assert!(wrapping.can_check("a", 5));
        assert_eq!(wrapping.check("a", 5), Ok(()));
    }
}

#[test]
fn differences_stay_in_range() {
    assert_eq!(saturating_difference(3, 5), -2);
    assert_eq!(saturating_difference(i64::MIN, 1), i64::MIN);
    assert_eq!(saturating_difference(i64::MAX, -1), i64::MAX);
}

#[test]
fn cached_models_are_used_for_their_time() {
    let mut cache = ModelCache::new(30);
    assert!(cache.get(100).is_none());
    cache.refresh(100, &vec![model("m", "i", "d", false, false)]);
    assert_eq!(cache.get(100).unwrap()[0].model, "m");
    assert!(cache.get(129).is_some());
    assert!(cache.get(130).is_none());
    assert!(cache.get(99).is_some());

    let mut off = ModelCache::new(0);
    off.refresh(100, &Vec::new());
    assert!(off.get(100).is_none());
}

#[test]
fn models_resolve_by_any_of_their_names() {
    let models = vec![
        model("gpt-a", "id-a", "Model A", false, false),
        model("gpt-b", "id-b", "Model B", true, true),
        model("gpt-c", "GPT-A", "Model C", false, true),
    ];
    assert_eq!(resolve_model(&models, "cfg", " GPT-A ").unwrap(), "gpt-a");
    assert_eq!(resolve_model(&models, "cfg", "ID-B").unwrap(), "gpt-b");
    assert_eq!(resolve_model(&models, "cfg", "model c").unwrap(), "gpt-c");
    assert_eq!(resolve_model(&models, "cfg", "DEFAULT").unwrap(), "gpt-b");
    assert_eq!(resolve_model(&models, "cfg", "  ").unwrap(), "gpt-b");
    assert_eq!(resolve_model(&vec![], "cfg", "default").unwrap(), "cfg");
    let error = resolve_model(&models, "cfg", " nope ").unwrap_err();
    assert!(matches!(error, AppError::BadRequest(_)));
    assert_eq!(
        error.message(),
        "Unsupported model `nope`. Call `/v1/models` to see the available Codex-backed models."
    );
}

#[test]
fn the_model_list_leaves_hidden_models_out() {
    let models = vec![
        model("gpt-a", "id-a", "Model A", true, false),
        model("gpt-b", "id-b", "Model B", false, true),
    ];
    assert_eq!(
        list_models(&models).to_text(),
        "{\"data\":[{\"codex_id\":\"id-b\",\"created\":0,\"default_reasoning_effort\":\"medium\",\"description\":\"about\",\"display_name\":\"Model B\",\"id\":\"gpt-b\",\"is_default\":true,\"object\":\"model\",\"owned_by\":\"openai\",\"provider\":\"codex\",\"supports_response_format\":true,\"supports_streaming\":true}],\"object\":\"list\"}"
    );
}

#[test]
fn the_log_shows_the_details_of_the_resolved_model() {
    let models = vec![model("gpt-a", "id-a", "Model A", true, false)];
    let found = lookup_model_for_log(&models, "GPT-A");
    assert_eq!(
        model_log_value(&found).to_text(),
        "{\"codex_id\":\"id-a\",\"default_reasoning_effort\":\"medium\",\"description\":\"about\",\"display_name\":\"Model A\",\"hidden\":true,\"id\":\"gpt-a\",\"is_default\":false,\"owned_by\":\"openai\",\"provider\":\"codex\",\"supports_response_format\":true,\"supports_streaming\":true}"
    );
    let missing = lookup_model_for_log(&models, "id-a");
    assert!(missing.is_none());
    assert_eq!(model_log_value(&missing).to_text(), "null");
}

#[test]
fn the_model_listing_follows_the_cursor() {
    let mut listing = ModelListing::new();
    assert_eq!(
        listing.params().to_text(),
        "{\"cursor\":null,\"includeHidden\":false,\"limit\":100}"
    );
    listing.add_page(CodexModelListResult {
        data: vec![model("a", "a", "a", false, false)],
        next_cursor: text("next"),
    });
    assert!(!listing.complete);
    assert_eq!(
        listing.params().to_text(),
        "{\"cursor\":\"next\",\"includeHidden\":false,\"limit\":100}"
    );
    listing.add_page(CodexModelListResult {
        data: vec![model("b", "b", "b", false, false)],
        next_cursor: None,
    });
    assert!(listing.complete);
    let names: Vec<&str> = listing.models.iter().map(|m| m.model.as_str()).collect();
    assert_eq!(names, ["a", "b"]);
}

fn record(id: &str, thread: &str, created_at: i64, updated_at: i64) -> SessionRecord {
    SessionRecord {
        session_id: id.to_string(),
        thread_id: thread.to_string(),
        model: "m".to_string(),
        created_at,
        updated_at,
    }
}

fn upsert(store: &mut SessionStore, id: &str, thread: &str, now: i64) -> SessionRecord {
    store.upsert(id.to_string(), thread.to_string(), "m".to_string(), now)
}

#[test]
fn a_session_is_found_again_and_keeps_its_creation_time() {
    let mut store = SessionStore::new();
    assert!(store.get("s").is_none());
    upsert(&mut store, "s", "t1", 10);
    upsert(&mut store, "other", "t9", 11);
    let second = upsert(&mut store, "s", "t2", 20);
    assert_eq!((second.created_at, second.updated_at), (10, 20));
    let found = store.get("s").unwrap();
    assert_eq!((found.thread_id.as_str(), found.created_at, found.updated_at), ("t2", 10, 20));
    assert_eq!(store.get("other").unwrap().thread_id, "t9");
}

#[test]
fn sessions_are_listed_latest_first() {
    let mut store = SessionStore::new();
    upsert(&mut store, "a", "ta", 5);
    upsert(&mut store, "b", "tb", 9);
    upsert(&mut store, "c", "tc", 7);
    upsert(&mut store, "a", "ta", 8);
    let ids: Vec<String> = store.list().into_iter().map(|r| r.session_id).collect();
    assert_eq!(ids, ["b", "a", "c"]);
    assert_eq!(
        list_sessions(&SessionStore::from_records(vec![record("s", "t", 1, -2)])).to_text(),
        "{\"data\":[{\"created_at\":1,\"model\":\"m\",\"session_id\":\"s\",\"thread_id\":\"t\",\"updated_at\":-2}],\"object\":\"list\"}"
    );
}

#[test]
fn a_deleted_session_is_gone() {
    let mut store = SessionStore::from_records(vec![record("a", "ta", 1, 1), record("b", "tb", 2, 2)]);
    let removed = store.delete("a");
    assert_eq!(
        deleted_session_reply("a", &removed).unwrap().to_text(),
        "{\"deleted\":true,\"note\":\"This removes the wrapper mapping. It does not delete Codex's persisted thread rollout.\",\"session\":{\"created_at\":1,\"model\":\"m\",\"session_id\":\"a\",\"thread_id\":\"ta\",\"updated_at\":1}}"
    );
    assert!(store.get("a").is_none());
    assert_eq!(store.get("b").unwrap().thread_id, "tb");
    let again = store.delete("a");
    let error = deleted_session_reply("a", &again).unwrap_err();
    assert!(matches!(error, AppError::NotFound(_)));
    assert_eq!(error.message(), "unknown session `a`");
}

#[test]
fn one_session_can_be_read() {
    let store = SessionStore::from_records(vec![record("a", "ta", 1, 1)]);
    assert_eq!(
        get_session(&store, "a").unwrap().to_text(),
        "{\"created_at\":1,\"model\":\"m\",\"session_id\":\"a\",\"thread_id\":\"ta\",\"updated_at\":1}"
    );
    assert_eq!(get_session(&store, "b").unwrap_err().message(), "unknown session `b`");
}

#[test]
fn saved_sessions_come_back_and_the_later_of_two_counts() {
    let mut store = SessionStore::new();
    upsert(&mut store, "a", "ta", 5);
    upsert(&mut store, "b", "tb", 9);
    let back = SessionStore::from_records(store.snapshot());
    assert_eq!(back.list().len(), 2);
    assert_eq!(back.get("a").unwrap().thread_id, "ta");

    let twice = SessionStore::from_records(vec![
        record("a", "old", 1, 1),
        record("b", "tb", 1, 1),
        record("a", "new", 2, 2),
    ]);
    assert_eq!(twice.list().len(), 2);
    assert_eq!(twice.get("a").unwrap().thread_id, "new");
}

#[test]
fn a_turn_continues_the_session_that_it_names() {
    let models = vec![model("gpt-a", "id-a", "Model A", false, true)];
    let mut store = SessionStore::new();

    let mut first = request("default", None);
    first.session_id = text("demo");
    let plan = plan_turn(&models, "cfg", &store, &mut first).unwrap();
    assert!(plan.existing_session.is_none());
    assert!(plan.bundle.prompt.starts_with("Conversation transcript:\n\n"));
    assert_eq!(first.model, "gpt-a");
    upsert(&mut store, "other", "thread-1", 1);
    assert!(record_turn(&mut store, &first, "thread-7", 2));
    assert_eq!(store.get("demo").unwrap().model, "gpt-a");
    assert_eq!(store.get("other").unwrap().thread_id, "thread-1");

    let mut second = request("default", None);
    second.session_id = text("demo");
    let plan = plan_turn(&models, "cfg", &store, &mut second).unwrap();
    assert_eq!(plan.existing_session.unwrap().thread_id, "thread-7");
    assert_eq!(plan.bundle.prompt, "Latest user message:\nhello");

    let mut fresh = request("default", None);
    let plan = plan_turn(&models, "cfg", &store, &mut fresh).unwrap();
    assert!(plan.existing_session.is_none());
    assert!(!record_turn(&mut store, &fresh, "thread-8", 3));
    assert_eq!(store.list().len(), 2);
    assert_eq!(store.get("demo").unwrap().thread_id, "thread-7");

    let mut unknown = request("nope", None);
    let error = plan_turn(&models, "cfg", &store, &mut unknown).unwrap_err();
    assert!(error.message().starts_with("Unsupported model `nope`"));
    assert_eq!(unknown.model, "nope");

    let mut silent = request("default", None);
    silent.messages[0].content = MessageContent::Text(" \n".to_string());
    let error = plan_turn(&models, "cfg", &store, &mut silent).unwrap_err();
    assert_eq!(
        error.message(),
        "No user-visible conversation content was found in `messages`."
    );
}
