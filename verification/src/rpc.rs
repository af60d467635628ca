//! The messages that go to and come from the Codex app-server.

use crate::config::{AppConfig, APP_VERSION};
use crate::error::AppError;
use crate::json::{integer, json_text, JsonValue, JsonView};
use crate::text::{blank, concat, is_blank, signed_decimal, signed_decimal_text, texts};
use vstd::prelude::*;

verus! {

/// A message from the app-server.
#[derive(Debug)]
pub struct JsonRpcMessage {
    pub id: Option<JsonValue>,
    pub method: Option<String>,
    pub params: Option<JsonValue>,
    pub result: Option<JsonValue>,
    pub error: Option<JsonRpcError>,
}

/// The error in a reply.
#[derive(Debug)]
pub struct JsonRpcError {
    pub code: i64,
    pub message: String,
    pub data: Option<JsonValue>,
}

/// `true` or `false`.
pub open spec fn truth_text(truth: bool) -> Seq<char> {
    if truth {
        "true"@
    } else {
        "false"@
    }
}

/// `true` or `false`.
pub fn truth_word(truth: bool) -> (word: &'static str)
    ensures
        word@ == truth_text(truth),
{
    if truth {
        "true"
    } else {
        "false"
    }
}

/// Adds an argument.
pub fn add_argument(arguments: &mut Vec<String>, argument: &str)
    ensures
        texts(final(arguments)@) == texts(old(arguments)@).push(argument@),
{
    let ghost before = texts(arguments@);
    arguments.push(argument.to_owned());
    assert(texts(arguments@) == before.push(argument@));
}

/// The arguments that start an app-server: the transport features are always set, one way or
/// the other.
pub fn app_server_args(config: &AppConfig) -> (arguments: Vec<String>)
    ensures
        texts(arguments@) == seq![
            "app-server"@,
            "-c"@,
            "features.responses_websockets="@ + truth_text(config.enable_responses_websockets),
            "-c"@,
            "features.responses_websockets_v2="@ + truth_text(
                config.enable_responses_websockets_v2,
            ),
        ],
{
    let mut arguments: Vec<String> = Vec::new();
    assert(texts(arguments@) == Seq::<Seq<char>>::empty());
    add_argument(&mut arguments, "app-server");
    add_argument(&mut arguments, "-c");
    add_argument(
        &mut arguments,
        concat(
            "features.responses_websockets=",
            truth_word(config.enable_responses_websockets),
        ).as_str(),
    );
    add_argument(&mut arguments, "-c");
    add_argument(
        &mut arguments,
        concat(
            "features.responses_websockets_v2=",
            truth_word(config.enable_responses_websockets_v2),
        ).as_str(),
    );
    arguments
}

/// The parameters of the `initialize` request.
pub fn initialize_params(service_name: &str) -> (params: JsonValue)
    ensures
        params@ == JsonView::Object(
            map![
                "clientInfo"@ => JsonView::Object(
                    map![
                        "name"@ => JsonView::Text(service_name@),
                        "title"@ => JsonView::Text("Codex OpenAI Wrapper"@),
                        "version"@ => JsonView::Text(APP_VERSION@),
                    ],
                ),
                "capabilities"@ => JsonView::Object(
                    map!["experimentalApi"@ => JsonView::Bool(true)],
                ),
            ],
        ),
{
    let client = JsonValue::object().with("name", JsonValue::from_text(service_name)).with(
        "title",
        JsonValue::from_text("Codex OpenAI Wrapper"),
    ).with("version", JsonValue::from_text(APP_VERSION));
    let capabilities = JsonValue::object().with("experimentalApi", JsonValue::Bool(true));
    JsonValue::object().with("clientInfo", client).with("capabilities", capabilities)
}

/// Checks the reply to `initialize`.
pub fn check_initialized(result: &JsonValue) -> (outcome: Result<(), AppError>)
    ensures
        match outcome {
            Ok(_) => result@.field("userAgent"@) is Some,
            Err(error) => {
                &&& result@.field("userAgent"@) is None
                &&& error matches AppError::Codex(message)
                &&& message@ == "initialize returned an unexpected payload"@
            },
        },
{
    if result.get("userAgent").is_none() {
        return Err(AppError::Codex("initialize returned an unexpected payload".to_owned()));
    }
    Ok(())
}

/// The parameters of the `account/read` request.
pub fn account_params() -> (params: JsonValue)
    ensures
        params@ == JsonView::Object(map!["refreshToken"@ => JsonView::Bool(false)]),
{
    JsonValue::object().with("refreshToken", JsonValue::Bool(false))
}

/// A request as JSON.
pub open spec fn request_json(method: Seq<char>, id: u64, params: JsonView) -> JsonView {
    JsonView::Object(
        map![
            "method"@ => JsonView::Text(method),
            "id"@ => integer(id as int),
            "params"@ => params,
        ],
    )
}

/// A notification as JSON.
pub open spec fn notification_json(method: Seq<char>, params: JsonView) -> JsonView {
    JsonView::Object(map!["method"@ => JsonView::Text(method), "params"@ => params])
}

/// The line that carries a message.
pub open spec fn message_line(message: JsonView) -> Seq<char> {
    json_text(message) + "\n"@
}

fn line_of(message: &JsonValue) -> (line: String)
    ensures
        line@ == message_line(message@),
{
    concat(message.to_text().as_str(), "\n")
}

/// Numbers the requests to one app-server.
pub struct RequestCounter {
    pub next_id: u64,
}

impl RequestCounter {
    /// A counter that starts at one.
    pub fn new() -> (counter: RequestCounter)
        ensures
            counter.next_id == 1,
    {
        RequestCounter { next_id: 1 }
    }

    /// The next request: its number and its line. The last number cannot be used.
    pub fn request(&mut self, method: &str, params: JsonValue) -> (request: (u64, String))
        requires
            old(self).next_id < u64::MAX,
        ensures
            request.0 == old(self).next_id,
            request.1@ == message_line(request_json(method@, old(self).next_id, params@)),
            final(self).next_id == old(self).next_id + 1,
    {
        let id: u64 = self.next_id;
        self.next_id = self.next_id + 1;
        let message = JsonValue::object().with("method", JsonValue::from_text(method)).with(
            "id",
            JsonValue::from_u64(id),
        ).with("params", params);
        (id, line_of(&message))
    }
}

/// The line of a notification.
pub fn notification_line(method: &str, params: JsonValue) -> (line: String)
    ensures
        line@ == message_line(notification_json(method@, params@)),
{
    let message = JsonValue::object().with("method", JsonValue::from_text(method)).with(
        "params",
        params,
    );
    line_of(&message)
}

/// Whether a line from the app-server holds a message; blank lines are passed over.
pub fn holds_message(line: &str) -> (yes: bool)
    ensures
        yes == !is_blank(line@),
{
    !blank(line)
}

/// The error for an app-server that went away.
pub fn closed_error() -> (error: AppError)
    ensures
        error matches AppError::Codex(message) && message@
            == "codex app-server closed unexpectedly"@,
{
    AppError::Codex("codex app-server closed unexpectedly".to_owned())
}

/// Whether a message is the reply to the request with this number.
pub open spec fn replies_to(message: JsonRpcMessage, request_id: u64) -> bool {
    match message.id {
        Some(id) => id@.as_u64() == Some(request_id),
        None => false,
    }
}

/// A message replies to one request at most.
pub proof fn law_message_replies_to_one_request(message: JsonRpcMessage, one: u64, other: u64)
    requires
        replies_to(message, one),
        replies_to(message, other),
    ensures
        one == other,
{
}

/// The text of an error in a reply.
pub open spec fn reply_error_text(method: Seq<char>, error: JsonRpcError) -> Seq<char> {
    let head = method + " failed ["@ + signed_decimal(error.code as int) + "]: "@ + error.message@;
    match error.data {
        Some(data) => head + " ("@ + json_text(data@) + ")"@,
        None => head,
    }
}

fn reply_error(method: &str, error: &JsonRpcError) -> (text: String)
    ensures
        text@ == reply_error_text(method@, *error),
{
    let mut text = concat(method, " failed [");
    text.append(signed_decimal_text(error.code).as_str());
    text.append("]: ");
    text.append(error.message.as_str());
    match &error.data {
        Some(data) => {
            text.append(" (");
            text.append(data.to_text().as_str());
            text.append(")");
        },
        None => {},
    }
    text
}

/// What a message says to the request with this number: nothing, its result, or an error.
pub fn reply_to(method: &str, request_id: u64, message: JsonRpcMessage) -> (reply: Option<
    Result<JsonValue, AppError>,
>)
    ensures
        match reply {
            None => !replies_to(message, request_id),
            Some(Ok(result)) => {
                &&& replies_to(message, request_id)
                &&& message.error is None
                &&& result@ == (match message.result {
                    Some(value) => value@,
                    None => JsonView::Null,
                })
            },
            Some(Err(error)) => {
                &&& replies_to(message, request_id)
                &&& message.error is Some
                &&& error matches AppError::Codex(text)
                &&& text@ == reply_error_text(method@, message.error->0)
            },
        },
{
    let number = match &message.id {
        Some(id) => id.as_u64(),
        None => None,
    };
    let matched = match number {
        Some(n) => n == request_id,
        None => false,
    };
    if !matched {
        return None;
    }
    match message.error {
        Some(error) => Some(Err(AppError::Codex(reply_error(method, &error)))),
        None => match message.result {
            Some(result) => Some(Ok(result)),
            None => Some(Ok(JsonValue::Null)),
        },
    }
}

proof fn lemma_request_names()
    ensures
        "method"@ != "id"@,
        "method"@ != "params"@,
        "id"@ != "params"@,
{
    reveal_strlit("method");
    reveal_strlit("id");
    reveal_strlit("params");
    assert("method"@.len() != "id"@.len());
    assert("method"@[0] != "params"@[0]);
    assert("id"@.len() != "params"@.len());
}

/// A request carries its method, its number and its parameters as they stand; a notification has
/// no number.
pub proof fn law_messages_carry_what_they_are_for(
    method: Seq<char>,
    id: u64,
    params: JsonView,
) -> (sent: (Map<Seq<char>, JsonView>, Map<Seq<char>, JsonView>))
    ensures
        request_json(method, id, params) == JsonView::Object(sent.0),
        sent.0["method"@] == JsonView::Text(method),
        sent.0["id"@].as_u64() == Some(id),
        sent.0["params"@] == params,
        notification_json(method, params) == JsonView::Object(sent.1),
        sent.1["method"@] == JsonView::Text(method),
        sent.1["params"@] == params,
        !sent.1.contains_key("id"@),
{
    lemma_request_names();
    (request_json(method, id, params)->Object_0, notification_json(method, params)->Object_0)
}

/// A message is sent on one line, with the line break at its end.
pub proof fn law_messages_end_their_line(message: JsonView)
    ensures
        message_line(message).len() == json_text(message).len() + 1,
        message_line(message).last() == '\n',
        message_line(message).drop_last() == json_text(message),
{
    reveal_strlit("\n");
    assert(message_line(message).drop_last() =~= json_text(message));
}

/// A message replies to a request exactly if it has an id and that is the number of the request;
/// the reply to a request is found by the number that the request was sent with.
pub proof fn law_replies_are_found_by_their_number(message: JsonRpcMessage, request_id: u64)
    ensures
        message.id is None ==> !replies_to(message, request_id),
        message.id matches Some(id) ==> (id@ == integer(request_id as int) ==> replies_to(
            message,
            request_id,
        )),
        message.id matches Some(id) ==> (id@ is Text || id@ is Null ==> !replies_to(
            message,
            request_id,
        )),
{
}

/// The text of an error names the method and the code, and holds the message as it stands; data
/// that came with it follows.
pub proof fn law_reply_errors_hold_their_message(method: Seq<char>, error: JsonRpcError)
    ensures
        error.data is None ==> reply_error_text(method, error) == method + " failed ["@
            + signed_decimal(error.code as int) + "]: "@ + error.message@,
        error.data matches Some(data) ==> reply_error_text(method, error) == method + " failed ["@
            + signed_decimal(error.code as int) + "]: "@ + error.message@ + " ("@ + json_text(data@)
            + ")"@,
{
}

/// A truth value is written as the word for it.
pub proof fn law_truth_is_written_as_a_word()
    ensures
        truth_text(true) == "true"@,
        truth_text(false) == "false"@,
{
}

} // verus!
