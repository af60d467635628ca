//! The service's configuration, read from environment settings.

use crate::json::{slice_text, text_of};
use crate::reasoning::{
    alias_parts, clean_effort, cleaned_effort, law_alias_is_trimmed, law_efforts_make_aliases,
    law_efforts_stand_for_themselves, law_plain_names_are_no_aliases, split_model_reasoning_alias,
};
use crate::request::copy_text;
use crate::text::{
    decimal, decimal_text, is_blank, law_decimal_round_trip, law_only_numbers_are_read, lowered,
    parse_unsigned, parsed_unsigned, same, to_lower, trim, trimmed,
};
use vstd::prelude::*;

verus! {

/// The name of the service.
pub const APP_NAME: &'static str = "codex-openai-wrapper";

/// The version of the service.
pub const APP_VERSION: &'static str = "0.1.0";

/// The environment settings, each as it was found.
pub struct EnvSettings {
    pub host: Option<String>,
    pub port: Option<String>,
    pub codex_path: Option<String>,
    pub codex_home: Option<String>,
    pub codex_wrapper_cwd: Option<String>,
    pub wrapper_data_dir: Option<String>,
    pub default_model: Option<String>,
    pub default_reasoning_effort: Option<String>,
    pub model_cache_ttl_secs: Option<String>,
    pub rate_limit_requests: Option<String>,
    pub rate_limit_window_secs: Option<String>,
    pub enable_responses_websockets: Option<String>,
    pub enable_responses_websockets_v2: Option<String>,
    pub wrapper_api_key: Option<String>,
    pub wrapper_service_name: Option<String>,
    pub wrapper_pricing_file: Option<String>,
}

/// A directory of the service.
#[derive(Debug, Clone)]
pub enum DirSetting {
    /// The directory that was set.
    Given(String),
    /// The directory of this name in the current directory.
    InCurrent(String),
    /// The current directory.
    Current,
}

/// The configuration.
#[derive(Debug, Clone)]
pub struct AppConfig {
    pub bind_addr: String,
    pub codex_path: String,
    pub codex_home: DirSetting,
    pub codex_cwd: DirSetting,
    pub data_dir: DirSetting,
    pub default_model: String,
    pub default_reasoning_effort: Option<String>,
    pub has_explicit_default_model: bool,
    pub model_cache_ttl_secs: u64,
    pub rate_limit_requests: u32,
    pub rate_limit_window_secs: u64,
    pub enable_responses_websockets: bool,
    pub enable_responses_websockets_v2: bool,
    pub wrapper_api_key: Option<String>,
    pub service_name: String,
    pub pricing_file: Option<String>,
}

/// Whether a setting switches something on.
pub open spec fn flag_set(value: Option<Seq<char>>) -> bool {
    match value {
        Some(text) => {
            let word = lowered(trimmed(text));
            word == "1"@ || word == "true"@ || word == "yes"@ || word == "on"@
        },
        None => false,
    }
}

/// A numeric setting: the number it writes, or the default.
pub open spec fn number_setting(value: Option<Seq<char>>, max: nat, default: nat) -> nat {
    match value {
        Some(text) => match parsed_unsigned(text, max) {
            Some(n) => n,
            None => default,
        },
        None => default,
    }
}

/// A text setting: what was set, or the default.
pub open spec fn text_setting(value: Option<Seq<char>>, default: Seq<char>) -> Seq<char> {
    match value {
        Some(text) => text,
        None => default,
    }
}

/// The default model, its reasoning effort, and whether the model was set at all. A model
/// alias brings its own effort; with a plain model the effort setting counts.
pub open spec fn default_model_setting(model: Option<Seq<char>>, effort: Option<Seq<char>>) -> (
    Seq<char>,
    Option<Seq<char>>,
    bool,
) {
    match model {
        Some(text) => if is_blank(text) {
            ("gpt-5.4"@, None, false)
        } else {
            match alias_parts(trimmed(text)) {
                Some((base, alias_effort)) => (base, Some(alias_effort), true),
                None => (trimmed(text), cleaned_effort(effort), true),
            }
        },
        None => ("gpt-5.4"@, None, false),
    }
}

/// What a directory setting stands for.
pub open spec fn dir_given(
    dir: DirSetting,
    value: Option<Seq<char>>,
    name: Option<Seq<char>>,
) -> bool {
    match (value, name) {
        (Some(path), _) => dir matches DirSetting::Given(p) && p@ == path,
        (None, Some(n)) => dir matches DirSetting::InCurrent(d) && d@ == n,
        (None, None) => dir is Current,
    }
}

/// Whether a setting switches something on.
pub fn env_flag(value: &Option<String>) -> (on: bool)
    ensures
        on == flag_set(text_of(*value)),
{
    match value {
        Some(text) => {
            let word = to_lower(trim(text.as_str()));
            same(word.as_str(), "1") || same(word.as_str(), "true") || same(word.as_str(), "yes")
                || same(word.as_str(), "on")
        },
        None => false,
    }
}

fn number_or(value: &Option<String>, max: u64, default: u64) -> (n: u64)
    requires
        default <= max,
    ensures
        n == number_setting(text_of(*value), max as nat, default as nat),
        n <= max,
{
    match value {
        Some(text) => match parse_unsigned(text.as_str(), max) {
            Some(n) => n,
            None => default,
        },
        None => default,
    }
}

fn text_or(value: &Option<String>, default: &str) -> (text: String)
    ensures
        text@ == text_setting(text_of(*value), default@),
{
    match value {
        Some(text) => text.clone(),
        None => default.to_owned(),
    }
}

fn dir_or(value: &Option<String>, name: Option<&str>) -> (dir: DirSetting)
    ensures
        dir_given(dir, text_of(*value), slice_text(name)),
{
    match value {
        Some(path) => DirSetting::Given(path.clone()),
        None => match name {
            Some(n) => DirSetting::InCurrent(n.to_owned()),
            None => DirSetting::Current,
        },
    }
}

/// The default model, its reasoning effort, and whether the model was set at all.
pub fn configured_default_model(model: &Option<String>, effort: &Option<String>) -> (setting: (
    String,
    Option<String>,
    bool,
))
    ensures
        (setting.0@, text_of(setting.1), setting.2) == default_model_setting(
            text_of(*model),
            text_of(*effort),
        ),
{
    match model {
        Some(text) => {
            let value = trim(text.as_str());
            if value.is_empty() {
                ("gpt-5.4".to_owned(), None, false)
            } else {
                match split_model_reasoning_alias(value) {
                    Some((base, alias_effort)) => (base, Some(alias_effort.to_owned()), true),
                    None => (value.to_owned(), clean_effort(effort), true),
                }
            }
        },
        None => ("gpt-5.4".to_owned(), None, false),
    }
}

impl AppConfig {
    /// Reads the configuration from the environment settings.
    pub fn from_env(env: &EnvSettings) -> (config: AppConfig)
        ensures
            config.bind_addr@ == text_setting(text_of(env.host), "127.0.0.1"@) + ":"@ + decimal(
                number_setting(text_of(env.port), u16::MAX as nat, 8000),
            ),
            config.codex_path@ == text_setting(text_of(env.codex_path), "codex"@),
            dir_given(config.codex_home, text_of(env.codex_home), Some(".codex-home"@)),
            dir_given(config.codex_cwd, text_of(env.codex_wrapper_cwd), None),
            dir_given(config.data_dir, text_of(env.wrapper_data_dir), Some(".wrapper-data"@)),
            (
                config.default_model@,
                text_of(config.default_reasoning_effort),
                config.has_explicit_default_model,
            ) == default_model_setting(
                text_of(env.default_model),
                text_of(env.default_reasoning_effort),
            ),
            config.model_cache_ttl_secs == number_setting(
                text_of(env.model_cache_ttl_secs),
                u64::MAX as nat,
                30,
            ),
            config.rate_limit_requests == number_setting(
                text_of(env.rate_limit_requests),
                u32::MAX as nat,
                120,
            ),
            config.rate_limit_window_secs == number_setting(
                text_of(env.rate_limit_window_secs),
                u64::MAX as nat,
                60,
            ),
            config.enable_responses_websockets == flag_set(
                text_of(env.enable_responses_websockets),
            ),
            config.enable_responses_websockets_v2 == flag_set(
                text_of(env.enable_responses_websockets_v2),
            ),
            config.wrapper_api_key == env.wrapper_api_key,
            config.service_name@ == text_setting(text_of(env.wrapper_service_name), APP_NAME@),
            config.pricing_file == env.wrapper_pricing_file,
    {
        let mut bind_addr = text_or(&env.host, "127.0.0.1");
        bind_addr.append(":");
        bind_addr.append(decimal_text(number_or(&env.port, 65535, 8000)).as_str());
        let (default_model, default_reasoning_effort, has_explicit_default_model) =
            configured_default_model(&env.default_model, &env.default_reasoning_effort);
        AppConfig {
            bind_addr,
            codex_path: text_or(&env.codex_path, "codex"),
            codex_home: dir_or(&env.codex_home, Some(".codex-home")),
            codex_cwd: dir_or(&env.codex_wrapper_cwd, None),
            data_dir: dir_or(&env.wrapper_data_dir, Some(".wrapper-data")),
            default_model,
            default_reasoning_effort,
            has_explicit_default_model,
            model_cache_ttl_secs: number_or(&env.model_cache_ttl_secs, u64::MAX, 30),
            rate_limit_requests: number_or(&env.rate_limit_requests, u32::MAX as u64, 120) as u32,
            rate_limit_window_secs: number_or(&env.rate_limit_window_secs, u64::MAX, 60),
            enable_responses_websockets: env_flag(&env.enable_responses_websockets),
            enable_responses_websockets_v2: env_flag(&env.enable_responses_websockets_v2),
            wrapper_api_key: copy_text(&env.wrapper_api_key),
            service_name: text_or(&env.wrapper_service_name, APP_NAME),
            pricing_file: copy_text(&env.wrapper_pricing_file),
        }
    }
}

/// A flag is set by `1`, `true`, `yes` and `on`, in any case and with white space around them, and
/// by nothing else.
pub proof fn law_flags_are_set_by_four_words(text: Seq<char>)
    ensures
        flag_set(Some(text)) <==> lowered(trimmed(text)) == "1"@ || lowered(trimmed(text))
            == "true"@ || lowered(trimmed(text)) == "yes"@ || lowered(trimmed(text)) == "on"@,
        !flag_set(None),
{
}

/// A number that is set is the number that counts; where none is set, or what is set is no number
/// or too large, the default does.
pub proof fn law_number_settings_are_read(n: nat, max: nat, default: nat, text: Seq<char>)
    ensures
        n <= max ==> number_setting(Some(decimal(n)), max, default) == n,
        number_setting(None, max, default) == default,
        text.len() == 0 ==> number_setting(Some(text), max, default) == default,
        (exists|i: int| 0 < i < text.len() && !('0' <= #[trigger] text[i] <= '9'))
            ==> number_setting(Some(text), max, default) == default,
        number_setting(Some(text), max, default) <= max || number_setting(Some(text), max, default)
            == default,
{
    if n <= max {
        law_decimal_round_trip(n, max);
    }
    law_only_numbers_are_read(text, max);
}

/// A text that is set counts as it stands, and the default where none is.
pub proof fn law_text_settings_are_kept(text: Seq<char>, default: Seq<char>)
    ensures
        text_setting(Some(text), default) == text,
        text_setting(None, default) == default,
{
}

/// A directory that is set is that directory; else it is the one of its name in the current
/// directory, or the current directory itself.
pub proof fn law_directory_settings_are_kept(dir: DirSetting, path: Seq<char>, name: Seq<char>)
    ensures
        dir_given(dir, Some(path), Some(name)) ==> dir is Given && dir->Given_0@ == path,
        dir_given(dir, Some(path), None) ==> dir is Given && dir->Given_0@ == path,
        dir_given(dir, None, Some(name)) ==> dir is InCurrent && dir->InCurrent_0@ == name,
        dir_given(dir, None, None) ==> dir is Current,
{
}

/// A plain model that is set is the default model, with the effort that is set beside it; an alias
/// is its base with its own effort; and where none is set, or a blank one, it is the built-in one
/// without an effort.
pub proof fn law_default_model_is_the_one_set(
    model: Seq<char>,
    base: Seq<char>,
    effort: Seq<char>,
    other: Option<Seq<char>>,
    blank_text: Seq<char>,
)
    requires
        !model.contains('-'),
        !is_blank(model),
        trimmed(model) == model,
        base.len() > 0,
        trimmed(base) == base,
        effort == "minimal"@ || effort == "low"@ || effort == "medium"@ || effort == "high"@
            || effort == "xhigh"@,
        is_blank(blank_text),
    ensures
        default_model_setting(Some(model), Some(effort)) == (model, Some(effort), true),
        default_model_setting(Some(model), None) == (model, None::<Seq<char>>, true),
        default_model_setting(Some(base + "-"@ + effort), other) == (base, Some(effort), true),
        default_model_setting(None, other) == ("gpt-5.4"@, None::<Seq<char>>, false),
        default_model_setting(Some(blank_text), other) == ("gpt-5.4"@, None::<Seq<char>>, false),
{
    law_plain_names_are_no_aliases(model);
    law_efforts_make_aliases(base, effort);
    law_efforts_stand_for_themselves(effort);
    law_alias_is_trimmed(base, effort);
}

} // verus!
