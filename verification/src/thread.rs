//! Threads and turns: what the app-server is asked for a streamed request.

use crate::config::AppConfig;
use crate::error::AppError;
use crate::image::{image_item, image_views, ImageInput, ImageView};
use crate::json::{json_views, text_field, text_field_of, text_of, text_or_null, JsonValue, JsonView};
use crate::prompt::PromptBundle;
use crate::request::{tools_enabled, web_search_enabled, ChatCompletionRequest};
use crate::sessions::{thread_of, SessionRecord};
use crate::usage::json_of;
use vstd::prelude::*;

verus! {

/// The directory that a turn works in.
#[derive(Debug)]
pub enum WorkingDirectory {
    /// The configured one.
    Configured,
    /// This one.
    Given(String),
    /// This one, seen from the configured one.
    BelowConfigured(String),
}

/// The directory that a turn works in: the request's own, taken from the configured one unless
/// it is absolute.
pub fn resolve_working_directory(requested: &Option<String>, is_absolute: bool) -> (directory:
    WorkingDirectory)
    ensures
        match *requested {
            None => directory is Configured,
            Some(path) => if is_absolute {
                directory == WorkingDirectory::Given(path)
            } else {
                directory == WorkingDirectory::BelowConfigured(path)
            },
        },
{
    match requested {
        Some(path) => if is_absolute {
            WorkingDirectory::Given(path.clone())
        } else {
            WorkingDirectory::BelowConfigured(path.clone())
        },
        None => WorkingDirectory::Configured,
    }
}

/// How much a turn may touch: the workspace with tools, nothing without.
pub open spec fn sandbox_text(request: ChatCompletionRequest) -> Seq<char> {
    if tools_enabled(request) {
        "workspace-write"@
    } else {
        "read-only"@
    }
}

/// Whether a turn may search the web.
pub open spec fn web_search_text(request: ChatCompletionRequest) -> Seq<char> {
    if web_search_enabled(request) {
        "live"@
    } else {
        "disabled"@
    }
}

/// How much a turn may touch.
pub fn sandbox_mode(request: &ChatCompletionRequest) -> (mode: &'static str)
    ensures
        mode@ == sandbox_text(*request),
{
    if request.enable_tools() {
        "workspace-write"
    } else {
        "read-only"
    }
}

/// Whether a turn may search the web.
pub fn web_search_mode(request: &ChatCompletionRequest) -> (mode: &'static str)
    ensures
        mode@ == web_search_text(*request),
{
    if request.enable_web_search() {
        "live"
    } else {
        "disabled"
    }
}

/// The configuration of a thread.
pub open spec fn thread_config(request: ChatCompletionRequest) -> JsonView {
    JsonView::Object(
        map![
            "web_search"@ => JsonView::Text(web_search_text(request)),
            "features"@ => JsonView::Object(
                map![
                    "apps"@ => JsonView::Bool(false),
                    "shell_tool"@ => JsonView::Bool(tools_enabled(request)),
                ],
            ),
            "sandbox_workspace_write"@ => JsonView::Object(
                map!["network_access"@ => JsonView::Bool(web_search_enabled(request))],
            ),
        ],
    )
}

/// The configuration of a thread.
pub fn build_thread_config(request: &ChatCompletionRequest) -> (config: JsonValue)
    ensures
        config@ == thread_config(*request),
{
    let features = JsonValue::object().with("apps", JsonValue::Bool(false)).with(
        "shell_tool",
        JsonValue::Bool(request.enable_tools()),
    );
    let sandbox = JsonValue::object().with(
        "network_access",
        JsonValue::Bool(request.enable_web_search()),
    );
    JsonValue::object().with("web_search", JsonValue::from_text(web_search_mode(request))).with(
        "features",
        features,
    ).with("sandbox_workspace_write", sandbox)
}

/// The members that start a thread and resume one alike.
pub open spec fn thread_members(
    config: AppConfig,
    request: ChatCompletionRequest,
    instructions: Option<Seq<char>>,
    cwd: Seq<char>,
) -> Map<Seq<char>, JsonView> {
    map![
        "model"@ => JsonView::Text(request.model@),
        "cwd"@ => JsonView::Text(cwd),
        "sandbox"@ => JsonView::Text(sandbox_text(request)),
        "approvalPolicy"@ => JsonView::Text("never"@),
        "developerInstructions"@ => text_or_null(instructions),
        "serviceName"@ => JsonView::Text(config.service_name@),
        "config"@ => thread_config(request),
    ]
}

/// The method that asks for the thread of a turn: a known thread is resumed, else a new one is
/// started.
pub open spec fn thread_method(thread_id: Option<Seq<char>>) -> Seq<char> {
    if thread_id is Some {
        "thread/resume"@
    } else {
        "thread/start"@
    }
}

/// The parameters that ask for the thread of a turn. A known thread is named.
pub open spec fn thread_params(
    config: AppConfig,
    request: ChatCompletionRequest,
    instructions: Option<Seq<char>>,
    cwd: Seq<char>,
    thread_id: Option<Seq<char>>,
) -> JsonView {
    let members = thread_members(config, request, instructions, cwd);
    JsonView::Object(
        match thread_id {
            Some(id) => members.insert("threadId"@, JsonView::Text(id)),
            None => members,
        },
    )
}

/// A request for a thread: its method and its parameters.
pub struct ThreadRequest {
    pub method: &'static str,
    pub params: JsonValue,
}

/// The request for the thread of a turn: a known session's thread is resumed, else a new one
/// is started.
pub fn thread_request(
    config: &AppConfig,
    request: &ChatCompletionRequest,
    existing_session: &Option<SessionRecord>,
    bundle: &PromptBundle,
    cwd: &str,
) -> (thread: ThreadRequest)
    ensures
        thread.method@ == thread_method(thread_of(*existing_session)),
        thread.params@ == thread_params(
            *config,
            *request,
            text_of(bundle.developer_instructions),
            cwd@,
            thread_of(*existing_session),
        ),
{
    let params = JsonValue::object().with("model", JsonValue::from_text(request.model.as_str())).with(
        "cwd",
        JsonValue::from_text(cwd),
    ).with("sandbox", JsonValue::from_text(sandbox_mode(request))).with(
        "approvalPolicy",
        JsonValue::from_text("never"),
    ).with(
        "developerInstructions",
        JsonValue::from_optional_text(&bundle.developer_instructions),
    ).with("serviceName", JsonValue::from_text(config.service_name.as_str())).with(
        "config",
        build_thread_config(request),
    );
    match existing_session {
        Some(session) => ThreadRequest {
            method: "thread/resume",
            params: params.with("threadId", JsonValue::from_text(session.thread_id.as_str())),
        },
        None => ThreadRequest { method: "thread/start", params },
    }
}

/// The id of the thread that the app-server answered with.
pub fn thread_id_of(result: &JsonValue) -> (outcome: Result<String, AppError>)
    ensures
        match outcome {
            Ok(thread_id) => text_field_of(result@, "thread"@, "id"@) == Some(thread_id@),
            Err(error) => {
                &&& text_field_of(result@, "thread"@, "id"@) is None
                &&& error matches AppError::Codex(message)
                &&& message@ == "thread start did not return a thread id"@
            },
        },
{
    match result.text_at_path("thread", "id") {
        Some(thread_id) => Ok(thread_id.to_owned()),
        None => Err(AppError::Codex("thread start did not return a thread id".to_owned())),
    }
}

/// The value of an optional JSON tree, `null` where there is none.
pub open spec fn json_or_null(value: Option<JsonView>) -> JsonView {
    match value {
        Some(v) => v,
        None => JsonView::Null,
    }
}

/// The input of a turn: the prompt, then the images.
pub open spec fn turn_input(prompt: Seq<char>, images: Seq<ImageView>) -> Seq<JsonView> {
    seq![
        JsonView::Object(
            map!["type"@ => JsonView::Text("text"@), "text"@ => JsonView::Text(prompt)],
        ),
    ] + images.map_values(|image: ImageView| image_item(image))
}

fn build_input(prompt: &str, images: &Vec<ImageInput>) -> (input: Vec<JsonValue>)
    ensures
        json_views(input@) == turn_input(prompt@, image_views(images@)),
{
    let ghost whole = turn_input(prompt@, image_views(images@));
    let mut input: Vec<JsonValue> = Vec::new();
    input.push(
        JsonValue::object().with("type", JsonValue::from_text("text")).with(
            "text",
            JsonValue::from_text(prompt),
        ),
    );
    let mut at: usize = 0;
    assert(json_views(input@) == whole.take(1));
    while at < images.len()
        invariant
            at <= images.len(),
            input.len() == at + 1,
            whole == turn_input(prompt@, image_views(images@)),
            json_views(input@) == whole.take(at + 1),
        decreases images.len() - at,
    {
        input.push(images[at].to_item());
        assert(whole[at + 1] == image_item(images@[at as int]@));
        at = at + 1;
        assert(json_views(input@) == whole.take(at + 1));
    }
    assert(whole.take(whole.len() as int) == whole);
    input
}

/// The parameters of the `turn/start` request.
pub fn turn_params(
    request: &ChatCompletionRequest,
    output_schema: &Option<JsonValue>,
    bundle: &PromptBundle,
    thread_id: &str,
    cwd: &str,
) -> (params: JsonValue)
    ensures
        params@ == JsonView::Object(
            map![
                "threadId"@ => JsonView::Text(thread_id@),
                "cwd"@ => JsonView::Text(cwd@),
                "effort"@ => text_or_null(text_of(request.reasoning_effort)),
                "outputSchema"@ => json_or_null(json_of(*output_schema)),
                "input"@ => JsonView::Array(
                    turn_input(bundle.prompt@, image_views(bundle.images@)),
                ),
            ],
        ),
{
    let schema = match output_schema {
        Some(value) => value.copy(),
        None => JsonValue::Null,
    };
    let input = build_input(bundle.prompt.as_str(), &bundle.images);
    JsonValue::object().with("threadId", JsonValue::from_text(thread_id)).with(
        "cwd",
        JsonValue::from_text(cwd),
    ).with("effort", JsonValue::from_optional_text(&request.reasoning_effort)).with(
        "outputSchema",
        schema,
    ).with("input", JsonValue::array(input))
}

/// Resuming names the thread; starting names none.
pub proof fn law_only_resuming_names_a_thread(
    config: AppConfig,
    request: ChatCompletionRequest,
    instructions: Option<Seq<char>>,
    cwd: Seq<char>,
    thread_id: Seq<char>,
)
    ensures
        text_field(
            thread_params(config, request, instructions, cwd, Some(thread_id)),
            "threadId"@,
        ) == Some(thread_id),
        thread_params(config, request, instructions, cwd, None).field("threadId"@) is None,
{
    reveal_strlit("threadId");
    reveal_strlit("model");
    reveal_strlit("cwd");
    reveal_strlit("sandbox");
    reveal_strlit("approvalPolicy");
    reveal_strlit("developerInstructions");
    reveal_strlit("serviceName");
    reveal_strlit("config");
    assert("threadId"@.len() == 8);
    assert("model"@.len() == 5 && "cwd"@.len() == 3 && "sandbox"@.len() == 7);
    assert("approvalPolicy"@.len() == 14 && "developerInstructions"@.len() == 21);
    assert("serviceName"@.len() == 11 && "config"@.len() == 6);
}

/// A request that opts into nothing runs read-only, without the shell tool, without web search
/// and without network access.
pub proof fn law_defaults_are_restrictive(request: ChatCompletionRequest)
    requires
        request.enable_tools is None,
        request.tools is None,
        request.tool_choice is None,
        request.enable_web_search is None,
    ensures
        sandbox_text(request) == "read-only"@,
        web_search_text(request) == "disabled"@,
        thread_config(request).field_of("features"@, "shell_tool"@) == Some(JsonView::Bool(false)),
        thread_config(request).field_of("sandbox_workspace_write"@, "network_access"@) == Some(
            JsonView::Bool(false),
        ),
{
    lemma_thread_config_members(request);
}

/// Whatever a request asks for, apps stay off and nobody is asked for approval.
pub proof fn law_apps_stay_off_and_approval_is_never_asked(
    config: AppConfig,
    request: ChatCompletionRequest,
    instructions: Option<Seq<char>>,
    cwd: Seq<char>,
)
    ensures
        thread_config(request).field_of("features"@, "apps"@) == Some(JsonView::Bool(false)),
        thread_members(config, request, instructions, cwd)["approvalPolicy"@] == JsonView::Text(
            "never"@,
        ),
{
    lemma_thread_config_members(request);
    reveal_strlit("approvalPolicy");
    reveal_strlit("developerInstructions");
    reveal_strlit("serviceName");
    reveal_strlit("config");
    assert("approvalPolicy"@.len() != "developerInstructions"@.len());
    assert("approvalPolicy"@.len() != "serviceName"@.len());
    assert("approvalPolicy"@.len() != "config"@.len());
}

proof fn lemma_thread_config_members(request: ChatCompletionRequest)
    ensures
        thread_config(request).field_of("features"@, "apps"@) == Some(JsonView::Bool(false)),
        thread_config(request).field_of("features"@, "shell_tool"@) == Some(
            JsonView::Bool(tools_enabled(request)),
        ),
        thread_config(request).field_of("sandbox_workspace_write"@, "network_access"@) == Some(
            JsonView::Bool(web_search_enabled(request)),
        ),
{
    reveal_strlit("web_search");
    reveal_strlit("features");
    reveal_strlit("sandbox_workspace_write");
    reveal_strlit("apps");
    reveal_strlit("shell_tool");
    assert("features"@.len() != "sandbox_workspace_write"@.len());
    assert("features"@.len() != "web_search"@.len());
    assert("apps"@.len() != "shell_tool"@.len());
}

proof fn lemma_thread_names()
    ensures
        "model"@ != "cwd"@,
        "model"@ != "sandbox"@,
        "model"@ != "approvalPolicy"@,
        "model"@ != "developerInstructions"@,
        "model"@ != "serviceName"@,
        "model"@ != "config"@,
        "model"@ != "threadId"@,
        "cwd"@ != "sandbox"@,
        "cwd"@ != "approvalPolicy"@,
        "cwd"@ != "developerInstructions"@,
        "cwd"@ != "serviceName"@,
        "cwd"@ != "config"@,
        "cwd"@ != "threadId"@,
        "sandbox"@ != "approvalPolicy"@,
        "sandbox"@ != "developerInstructions"@,
        "sandbox"@ != "serviceName"@,
        "sandbox"@ != "config"@,
        "sandbox"@ != "threadId"@,
        "approvalPolicy"@ != "developerInstructions"@,
        "approvalPolicy"@ != "serviceName"@,
        "approvalPolicy"@ != "config"@,
        "approvalPolicy"@ != "threadId"@,
        "developerInstructions"@ != "serviceName"@,
        "developerInstructions"@ != "config"@,
        "developerInstructions"@ != "threadId"@,
        "serviceName"@ != "config"@,
        "serviceName"@ != "threadId"@,
        "config"@ != "threadId"@,
{
    reveal_strlit("model");
    reveal_strlit("cwd");
    reveal_strlit("sandbox");
    reveal_strlit("approvalPolicy");
    reveal_strlit("developerInstructions");
    reveal_strlit("serviceName");
    reveal_strlit("config");
    reveal_strlit("threadId");
    assert("model"@.len() != "cwd"@.len());
    assert("model"@.len() != "sandbox"@.len());
    assert("model"@.len() != "approvalPolicy"@.len());
    assert("model"@.len() != "developerInstructions"@.len());
    assert("model"@.len() != "serviceName"@.len());
    assert("model"@.len() != "config"@.len());
    assert("model"@.len() != "threadId"@.len());
    assert("cwd"@.len() != "sandbox"@.len());
    assert("cwd"@.len() != "approvalPolicy"@.len());
    assert("cwd"@.len() != "developerInstructions"@.len());
    assert("cwd"@.len() != "serviceName"@.len());
    assert("cwd"@.len() != "config"@.len());
    assert("cwd"@.len() != "threadId"@.len());
    assert("sandbox"@.len() != "approvalPolicy"@.len());
    assert("sandbox"@.len() != "developerInstructions"@.len());
    assert("sandbox"@.len() != "serviceName"@.len());
    assert("sandbox"@.len() != "config"@.len());
    assert("sandbox"@.len() != "threadId"@.len());
    assert("approvalPolicy"@.len() != "developerInstructions"@.len());
    assert("approvalPolicy"@.len() != "serviceName"@.len());
    assert("approvalPolicy"@.len() != "config"@.len());
    assert("approvalPolicy"@.len() != "threadId"@.len());
    assert("developerInstructions"@.len() != "serviceName"@.len());
    assert("developerInstructions"@.len() != "config"@.len());
    assert("developerInstructions"@.len() != "threadId"@.len());
    assert("serviceName"@.len() != "config"@.len());
    assert("serviceName"@.len() != "threadId"@.len());
    assert("config"@.len() != "threadId"@.len());
}

proof fn lemma_config_names()
    ensures
        "web_search"@ != "features"@,
        "web_search"@ != "sandbox_workspace_write"@,
        "web_search"@ != "apps"@,
        "web_search"@ != "shell_tool"@,
        "web_search"@ != "network_access"@,
        "features"@ != "sandbox_workspace_write"@,
        "features"@ != "apps"@,
        "features"@ != "shell_tool"@,
        "features"@ != "network_access"@,
        "sandbox_workspace_write"@ != "apps"@,
        "sandbox_workspace_write"@ != "shell_tool"@,
        "sandbox_workspace_write"@ != "network_access"@,
        "apps"@ != "shell_tool"@,
        "apps"@ != "network_access"@,
        "shell_tool"@ != "network_access"@,
{
    reveal_strlit("web_search");
    reveal_strlit("features");
    reveal_strlit("sandbox_workspace_write");
    reveal_strlit("apps");
    reveal_strlit("shell_tool");
    reveal_strlit("network_access");
    assert("web_search"@.len() != "features"@.len());
    assert("web_search"@.len() != "sandbox_workspace_write"@.len());
    assert("web_search"@.len() != "apps"@.len());
    assert("web_search"@[0] != "shell_tool"@[0]);
    assert("web_search"@.len() != "network_access"@.len());
    assert("features"@.len() != "sandbox_workspace_write"@.len());
    assert("features"@.len() != "apps"@.len());
    assert("features"@.len() != "shell_tool"@.len());
    assert("features"@.len() != "network_access"@.len());
    assert("sandbox_workspace_write"@.len() != "apps"@.len());
    assert("sandbox_workspace_write"@.len() != "shell_tool"@.len());
    assert("sandbox_workspace_write"@.len() != "network_access"@.len());
    assert("apps"@.len() != "shell_tool"@.len());
    assert("apps"@.len() != "network_access"@.len());
    assert("shell_tool"@.len() != "network_access"@.len());
}

/// A turn may write to the workspace and use the shell exactly where the request allows tools, and
/// search the web and reach the network exactly where it asks for that.
pub proof fn law_turn_may_do_what_the_request_allows(request: ChatCompletionRequest) -> (config: (
    Map<Seq<char>, JsonView>,
    Map<Seq<char>, JsonView>,
    Map<Seq<char>, JsonView>,
))
    ensures
        ({
            let named = request.tools is Some || request.tool_choice is Some;
            let tools = request.enable_tools == Some(true) || request.enable_tools is None && named;
            let web = request.enable_web_search == Some(true);
            &&& tools ==> sandbox_text(request) == "workspace-write"@
            &&& !tools ==> sandbox_text(request) == "read-only"@
            &&& web ==> web_search_text(request) == "live"@
            &&& !web ==> web_search_text(request) == "disabled"@
            &&& thread_config(request) == JsonView::Object(config.0)
            &&& web ==> config.0["web_search"@] == JsonView::Text("live"@)
            &&& !web ==> config.0["web_search"@] == JsonView::Text("disabled"@)
            &&& config.0["features"@] == JsonView::Object(config.1)
            &&& config.1["apps"@] == JsonView::Bool(false)
            &&& config.1["shell_tool"@] == JsonView::Bool(tools)
            &&& config.0["sandbox_workspace_write"@] == JsonView::Object(config.2)
            &&& config.2["network_access"@] == JsonView::Bool(web)
        }),
{
    lemma_config_names();
    let members = thread_config(request)->Object_0;
    (members, members["features"@]->Object_0, members["sandbox_workspace_write"@]->Object_0)
}

/// A thread is asked for with the model and the instructions of the turn as they stand, in its
/// directory; it is named exactly where it is resumed.
pub proof fn law_thread_is_asked_for_with_what_the_turn_needs(
    config: AppConfig,
    request: ChatCompletionRequest,
    instructions: Option<Seq<char>>,
    cwd: Seq<char>,
    thread_id: Option<Seq<char>>,
) -> (params: Map<Seq<char>, JsonView>)
    ensures
        thread_params(config, request, instructions, cwd, thread_id) == JsonView::Object(params),
        params["model"@] == JsonView::Text(request.model@),
        params["cwd"@] == JsonView::Text(cwd),
        params["sandbox"@] == JsonView::Text(sandbox_text(request)),
        params["approvalPolicy"@] == JsonView::Text("never"@),
        params["serviceName"@] == JsonView::Text(config.service_name@),
        params["config"@] == thread_config(request),
        instructions matches Some(text) ==> params["developerInstructions"@] == JsonView::Text(
            text,
        ),
        instructions is None ==> params["developerInstructions"@] == JsonView::Null,
        params.contains_key("threadId"@) <==> thread_id is Some,
        thread_id matches Some(id) ==> params["threadId"@] == JsonView::Text(id),
        thread_id is Some ==> thread_method(thread_id) == "thread/resume"@,
        thread_id is None ==> thread_method(thread_id) == "thread/start"@,
{
    lemma_thread_names();
    thread_params(config, request, instructions, cwd, thread_id)->Object_0
}

proof fn lemma_item_names()
    ensures
        "type"@ != "text"@,
        "type"@ != "url"@,
        "text"@ != "url"@,
{
    reveal_strlit("type");
    reveal_strlit("text");
    reveal_strlit("url");
    assert("type"@[1] != "text"@[1]);
    assert("type"@.len() != "url"@.len());
    assert("text"@.len() != "url"@.len());
}

/// The input of a turn starts with its prompt, as it stands, and then hands over one image after
/// the other, each by its address.
pub proof fn law_turn_input_starts_with_the_prompt(
    prompt: Seq<char>,
    images: Seq<ImageView>,
    at: int,
)
    ensures
        turn_input(prompt, images).len() == images.len() + 1,
        turn_input(prompt, images)[0] is Object,
        turn_input(prompt, images)[0]->Object_0["type"@] == JsonView::Text("text"@),
        turn_input(prompt, images)[0]->Object_0["text"@] == JsonView::Text(prompt),
        0 <= at < images.len() ==> {
            let item = turn_input(prompt, images)[at + 1];
            &&& item is Object
            &&& item->Object_0["type"@] == JsonView::Text("image"@)
            &&& images[at] matches ImageView::Url(url) ==> item->Object_0["url"@] == JsonView::Text(
                url,
            )
            &&& images[at] matches ImageView::Data { media_type, data } ==> item->Object_0["url"@]
                == JsonView::Text("data:"@ + media_type + ";base64,"@ + data)
        },
{
    lemma_item_names();
}

/// The thread of a session is the one that it was recorded with.
pub proof fn law_session_resumes_its_own_thread(session: SessionRecord, value: JsonValue)
    ensures
        thread_of(Some(session)) == Some(session.thread_id@),
        thread_of(None) is None,
        json_or_null(json_of(Some(value))) == value@,
        json_or_null(json_of(None)) == JsonView::Null,
{
}

} // verus!
