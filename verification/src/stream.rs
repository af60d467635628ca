//! Streamed turns: from app-server messages to the events that a client is sent.

use crate::json::{
    flag_field, integer, json_text, json_views, slice_text, text_field, text_field_of, text_of,
    JsonValue, JsonView,
};
use crate::rpc::JsonRpcMessage;
use crate::text::{concat, concatenated, same, texts};
use crate::usage::{
    build_openai_usage_from_stream, law_stream_usage_is_counted, update_streaming_usage,
    usage_after, usage_json,
    wrapper_json_or_null, wrapper_to_json, StreamingUsage, WrapperMetadata,
};
use vstd::prelude::*;

verus! {

/// How far a streamed turn has come.
#[derive(Debug)]
pub struct Progress {
    pub sent_any_text: bool,
    pub usage: StreamingUsage,
    pub response_text: String,
}

/// The mathematical progress of a turn.
pub struct ProgressView {
    pub sent_any_text: bool,
    pub usage: StreamingUsage,
    pub response_text: Seq<char>,
}

impl View for Progress {
    type V = ProgressView;

    open spec fn view(&self) -> ProgressView {
        ProgressView {
            sent_any_text: self.sent_any_text,
            usage: self.usage,
            response_text: self.response_text@,
        }
    }
}

/// What a message of the app-server brings.
#[derive(Debug)]
pub enum TurnNews {
    /// Nothing for the client.
    Nothing,
    /// Text of the answer.
    Text(String),
    /// The turn is complete.
    Completed,
    /// The turn failed.
    Failed(String),
}

/// What a message brings, mathematically.
pub enum NewsView {
    Nothing,
    Text(Seq<char>),
    /// A usage report.
    Usage(JsonView),
    Completed,
    Failed(Seq<char>),
}

/// What counts of a message: its method and parameters.
pub struct MessageView {
    pub method: Option<Seq<char>>,
    pub params: Option<JsonView>,
}

impl View for JsonRpcMessage {
    type V = MessageView;

    open spec fn view(&self) -> MessageView {
        MessageView {
            method: match self.method {
                Some(method) => Some(method@),
                None => None,
            },
            params: match self.params {
                Some(params) => Some(params@),
                None => None,
            },
        }
    }
}

/// The text of a delta.
pub open spec fn delta_text(params: Option<JsonView>) -> Option<Seq<char>> {
    match params {
        Some(value) => text_field(value, "delta"@),
        None => None,
    }
}

/// The text of a completed message of the assistant.
pub open spec fn completed_text(params: Option<JsonView>) -> Option<Seq<char>> {
    match params {
        Some(value) => if text_field_of(value, "item"@, "type"@) == Some("agentMessage"@) {
            text_field_of(value, "item"@, "text"@)
        } else {
            None
        },
        None => None,
    }
}

/// Whether an error will be retried, and so is none.
pub open spec fn will_retry(params: Option<JsonView>) -> bool {
    match params {
        Some(value) => flag_field(value, "willRetry"@),
        None => false,
    }
}

/// The text of an error.
pub open spec fn failure_text(params: Option<JsonView>) -> Seq<char> {
    let given = match params {
        Some(value) => text_field_of(value, "error"@, "message"@),
        None => None,
    };
    match given {
        Some(text) => text,
        None => "Codex reported an error."@,
    }
}

/// What a message brings to a turn that has come this far. The text of a completed message
/// counts only where none was sent before.
pub open spec fn news(progress: ProgressView, message: MessageView) -> NewsView {
    match message.method {
        None => NewsView::Nothing,
        Some(method) => if method == "item/agentMessage/delta"@ {
            match delta_text(message.params) {
                Some(text) => NewsView::Text(text),
                None => NewsView::Nothing,
            }
        } else if method == "thread/tokenUsage/updated"@ {
            match message.params {
                Some(params) => NewsView::Usage(params),
                None => NewsView::Nothing,
            }
        } else if method == "item/completed"@ {
            match completed_text(message.params) {
                Some(text) => if progress.sent_any_text {
                    NewsView::Nothing
                } else {
                    NewsView::Text(text)
                },
                None => NewsView::Nothing,
            }
        } else if method == "turn/completed"@ {
            NewsView::Completed
        } else if method == "error"@ {
            if will_retry(message.params) {
                NewsView::Nothing
            } else {
                NewsView::Failed(failure_text(message.params))
            }
        } else {
            NewsView::Nothing
        },
    }
}

/// The progress after a message.
pub open spec fn progress_after(progress: ProgressView, message: MessageView) -> ProgressView {
    match news(progress, message) {
        NewsView::Text(text) => ProgressView {
            sent_any_text: true,
            response_text: progress.response_text + text,
            ..progress
        },
        NewsView::Usage(params) => ProgressView {
            usage: usage_after(progress.usage, params),
            ..progress
        },
        _ => progress,
    }
}

/// The progress of a turn that has just started.
pub open spec fn no_progress() -> ProgressView {
    ProgressView {
        sent_any_text: false,
        usage: StreamingUsage::zero(),
        response_text: Seq::empty(),
    }
}

/// Whether `told` says what a message brings.
pub open spec fn tells(told: TurnNews, view: NewsView) -> bool {
    match view {
        NewsView::Nothing => told is Nothing,
        NewsView::Usage(_) => told is Nothing,
        NewsView::Text(text) => told is Text && told->Text_0@ == text,
        NewsView::Completed => told is Completed,
        NewsView::Failed(text) => told is Failed && told->Failed_0@ == text,
    }
}

fn read_completed_text(params: &JsonValue) -> (text: Option<&str>)
    ensures
        slice_text(text) == completed_text(Some(params@)),
{
    match params.text_at_path("item", "type") {
        Some(kind) => if same(kind, "agentMessage") {
            params.text_at_path("item", "text")
        } else {
            None
        },
        None => None,
    }
}

impl Progress {
    /// The progress of a turn that has just started.
    pub fn new() -> (progress: Progress)
        ensures
            progress@ == no_progress(),
    {
        Progress {
            sent_any_text: false,
            usage: StreamingUsage::default(),
            response_text: String::new(),
        }
    }

    fn add_text(&mut self, text: &str)
        ensures
            final(self)@ == (ProgressView {
                sent_any_text: true,
                response_text: old(self)@.response_text + text@,
                ..old(self)@
            }),
    {
        self.sent_any_text = true;
        self.response_text.append(text);
    }

    /// Takes a message into account, and tells what it brings.
    pub fn read(&mut self, message: &JsonRpcMessage) -> (told: TurnNews)
        ensures
            final(self)@ == progress_after(old(self)@, message@),
            tells(told, news(old(self)@, message@)),
    {
        let method = match &message.method {
            Some(method) => method.as_str(),
            None => {
                return TurnNews::Nothing;
            },
        };
        if same(method, "item/agentMessage/delta") {
            if let Some(params) = &message.params {
                if let Some(delta) = params.text_at("delta") {
                    self.add_text(delta);
                    return TurnNews::Text(delta.to_owned());
                }
            }
            TurnNews::Nothing
        } else if same(method, "thread/tokenUsage/updated") {
            if let Some(params) = &message.params {
                update_streaming_usage(&mut self.usage, params);
            }
            TurnNews::Nothing
        } else if same(method, "item/completed") {
            if let Some(params) = &message.params {
                if let Some(text) = read_completed_text(params) {
                    if !self.sent_any_text {
                        self.add_text(text);
                        return TurnNews::Text(text.to_owned());
                    }
                }
            }
            TurnNews::Nothing
        } else if same(method, "turn/completed") {
            TurnNews::Completed
        } else if same(method, "error") {
            match &message.params {
                Some(params) => {
                    if params.flag_at("willRetry") {
                        return TurnNews::Nothing;
                    }
                    match params.text_at_path("error", "message") {
                        Some(text) => TurnNews::Failed(text.to_owned()),
                        None => TurnNews::Failed("Codex reported an error.".to_owned()),
                    }
                },
                None => TurnNews::Failed("Codex reported an error.".to_owned()),
            }
        } else {
            TurnNews::Nothing
        }
    }
}

/// What the loop over the app-server's messages does next.
#[derive(Debug)]
pub enum ChatStep {
    /// Send these events and read on.
    Send(Vec<String>),
    /// The turn is complete: store the session, then send the closing events.
    Complete,
    /// The turn failed: send these events and stop. The error is logged where it is told to
    /// the client.
    Fail { events: Vec<String>, told_error: Option<String> },
}

/// A chat completion stream.
#[derive(Debug)]
pub struct ChatStream {
    pub id: String,
    pub created: i64,
    pub model: String,
    pub include_usage: bool,
    pub progress: Progress,
}

/// The members of every chunk of a chat completion stream.
pub open spec fn chunk_members(
    id: Seq<char>,
    created: i64,
    model: Seq<char>,
    choices: Seq<JsonView>,
) -> Map<Seq<char>, JsonView> {
    map![
        "id"@ => JsonView::Text(id),
        "object"@ => JsonView::Text("chat.completion.chunk"@),
        "created"@ => integer(created as int),
        "model"@ => JsonView::Text(model),
        "choices"@ => JsonView::Array(choices),
    ]
}

/// The one choice of a chunk.
pub open spec fn choice_json(delta: JsonView, finish_reason: JsonView) -> JsonView {
    JsonView::Object(
        map![
            "index"@ => integer(0),
            "delta"@ => delta,
            "logprobs"@ => JsonView::Null,
            "finish_reason"@ => finish_reason,
        ],
    )
}

impl ChatStream {
    /// A chunk with one choice, as it is sent.
    pub open spec fn choice_chunk(self, delta: JsonView, finish_reason: JsonView) -> Seq<char> {
        json_text(
            JsonView::Object(
                chunk_members(
                    self.id@,
                    self.created,
                    self.model@,
                    seq![choice_json(delta, finish_reason)],
                ),
            ),
        )
    }

    /// The chunk that opens the stream.
    pub open spec fn first_chunk(self) -> Seq<char> {
        self.choice_chunk(
            JsonView::Object(
                map!["role"@ => JsonView::Text("assistant"@), "content"@ => JsonView::Text(""@)],
            ),
            JsonView::Null,
        )
    }

    /// The chunk that carries a piece of text.
    pub open spec fn text_chunk(self, text: Seq<char>) -> Seq<char> {
        self.choice_chunk(
            JsonView::Object(map!["content"@ => JsonView::Text(text)]),
            JsonView::Null,
        )
    }

    /// The chunk that says that the answer is over.
    pub open spec fn last_chunk(self) -> Seq<char> {
        self.choice_chunk(JsonView::Object(Map::empty()), JsonView::Text("stop"@))
    }

    /// The chunk that reports the usage.
    pub open spec fn usage_chunk(self, wrapper: Option<WrapperMetadata>) -> Seq<char> {
        let usage = self.progress.usage;
        json_text(
            JsonView::Object(
                chunk_members(self.id@, self.created, self.model@, Seq::empty()).insert(
                    "usage"@,
                    usage_json(
                        usage.input_tokens as int,
                        usage.cached_input_tokens as int,
                        usage.output_tokens as int,
                        usage.reasoning_output_tokens as int,
                    ),
                ).insert("wrapper"@, wrapper_json_or_null(wrapper)),
            ),
        )
    }

    /// The chunk that carries the wrapper metadata alone.
    pub open spec fn wrapper_chunk(self, wrapper: Option<WrapperMetadata>) -> Seq<char> {
        json_text(
            JsonView::Object(
                chunk_members(self.id@, self.created, self.model@, Seq::empty()).insert(
                    "wrapper"@,
                    wrapper_json_or_null(wrapper),
                ),
            ),
        )
    }

    /// The events that close the stream of a completed turn.
    pub open spec fn closing(self, wants_metadata: bool, wrapper: Option<WrapperMetadata>) -> Seq<
        Seq<char>,
    > {
        if self.include_usage {
            seq![self.last_chunk(), self.usage_chunk(wrapper), "[DONE]"@]
        } else if wants_metadata {
            seq![self.last_chunk(), self.wrapper_chunk(wrapper), "[DONE]"@]
        } else {
            seq![self.last_chunk(), "[DONE]"@]
        }
    }

    /// The events that close the stream of a failed turn: the error is told only where no text
    /// was sent before.
    pub open spec fn failure(self, error: Seq<char>) -> Seq<Seq<char>> {
        if self.progress.sent_any_text {
            seq![self.last_chunk(), "[DONE]"@]
        } else {
            seq![self.text_chunk("Codex error: "@ + error), self.last_chunk(), "[DONE]"@]
        }
    }

    /// Whether the two streams differ in their progress alone.
    pub open spec fn same_but_progress(self, other: ChatStream) -> bool {
        self == (ChatStream { progress: self.progress, ..other })
    }

    fn chunk(&self, choices: JsonValue) -> (json: JsonValue)
        requires
            choices@ is Array,
        ensures
            json@ == JsonView::Object(
                chunk_members(self.id@, self.created, self.model@, choices@->Array_0),
            ),
    {
        JsonValue::object().with("id", JsonValue::from_text(self.id.as_str())).with(
            "object",
            JsonValue::from_text("chat.completion.chunk"),
        ).with("created", JsonValue::from_i64(self.created)).with(
            "model",
            JsonValue::from_text(self.model.as_str()),
        ).with("choices", choices)
    }

    fn choice(&self, delta: JsonValue, finish_reason: JsonValue) -> (event: String)
        ensures
            event@ == self.choice_chunk(delta@, finish_reason@),
    {
        let choice = JsonValue::object().with("index", JsonValue::from_u64(0)).with(
            "delta",
            delta,
        ).with("logprobs", JsonValue::Null).with("finish_reason", finish_reason);
        self.chunk(JsonValue::array_of_one(choice)).to_text()
    }

    fn text_event(&self, text: &str) -> (event: String)
        ensures
            event@ == self.text_chunk(text@),
    {
        self.choice(
            JsonValue::object().with("content", JsonValue::from_text(text)),
            JsonValue::Null,
        )
    }

    fn last_event(&self) -> (event: String)
        ensures
            event@ == self.last_chunk(),
    {
        self.choice(JsonValue::object(), JsonValue::from_text("stop"))
    }

    fn without_choices(&self) -> (json: JsonValue)
        ensures
            json@ == JsonView::Object(
                chunk_members(self.id@, self.created, self.model@, Seq::empty()),
            ),
    {
        let none: Vec<JsonValue> = Vec::new();
        assert(json_views(none@) == Seq::<JsonView>::empty());
        self.chunk(JsonValue::array(none))
    }

    /// A stream that has just started.
    pub fn new(id: String, created: i64, model: String, include_usage: bool) -> (stream: ChatStream)
        ensures
            stream.id == id,
            stream.created == created,
            stream.model == model,
            stream.include_usage == include_usage,
            stream.progress@ == no_progress(),
    {
        ChatStream { id, created, model, include_usage, progress: Progress::new() }
    }

    /// The event that opens the stream.
    pub fn start(&self) -> (event: String)
        ensures
            event@ == self.first_chunk(),
    {
        self.choice(
            JsonValue::object().with("role", JsonValue::from_text("assistant")).with(
                "content",
                JsonValue::from_text(""),
            ),
            JsonValue::Null,
        )
    }

    /// Takes a message into account, and says what to do next.
    pub fn on_message(&mut self, message: &JsonRpcMessage) -> (step: ChatStep)
        ensures
            final(self).same_but_progress(*old(self)),
            final(self).progress@ == progress_after(old(self).progress@, message@),
            match news(old(self).progress@, message@) {
                NewsView::Nothing | NewsView::Usage(_) => step is Send && texts(step->Send_0@)
                    == Seq::<Seq<char>>::empty(),
                NewsView::Text(text) => step is Send && texts(step->Send_0@) == seq![
                    old(self).text_chunk(text),
                ],
                NewsView::Completed => step is Complete,
                NewsView::Failed(error) => {
                    &&& step is Fail
                    &&& texts(step->events@) == old(self).failure(error)
                    &&& text_of(step->told_error) == (if old(self).progress.sent_any_text {
                        None
                    } else {
                        Some(error)
                    })
                },
            },
    {
        match self.progress.read(message) {
            TurnNews::Nothing => {
                let events: Vec<String> = Vec::new();
                assert(texts(events@) == Seq::<Seq<char>>::empty());
                ChatStep::Send(events)
            },
            TurnNews::Text(text) => {
                let mut events: Vec<String> = Vec::new();
                events.push(self.text_event(text.as_str()));
                assert(texts(events@) == seq![old(self).text_chunk(text@)]);
                ChatStep::Send(events)
            },
            TurnNews::Completed => ChatStep::Complete,
            TurnNews::Failed(error) => {
                let mut events: Vec<String> = Vec::new();
                let told_error = if self.progress.sent_any_text {
                    None
                } else {
                    events.push(
                        self.text_event(concat("Codex error: ", error.as_str()).as_str()),
                    );
                    Some(error)
                };
                events.push(self.last_event());
                events.push("[DONE]".to_owned());
                assert(texts(events@) == old(self).failure(error@));
                ChatStep::Fail { events, told_error }
            },
        }
    }

    /// The events that close the stream of a completed turn.
    pub fn finish(&self, wants_metadata: bool, wrapper: &Option<WrapperMetadata>) -> (events: Vec<
        String,
    >)
        requires
            self.include_usage ==> self.progress.usage.total_fits(),
        ensures
            texts(events@) == self.closing(wants_metadata, *wrapper),
    {
        let mut events: Vec<String> = Vec::new();
        events.push(self.last_event());
        if self.include_usage {
            let chunk = self.without_choices().with(
                "usage",
                build_openai_usage_from_stream(&self.progress.usage),
            ).with("wrapper", wrapper_to_json(wrapper));
            events.push(chunk.to_text());
        } else if wants_metadata {
            let chunk = self.without_choices().with("wrapper", wrapper_to_json(wrapper));
            events.push(chunk.to_text());
        }
        events.push("[DONE]".to_owned());
        assert(texts(events@) == self.closing(wants_metadata, *wrapper));
        events
    }
}

/// Whether a request's stream options ask for the usage.
pub open spec fn usage_wanted(stream_options: Option<JsonValue>) -> bool {
    match stream_options {
        Some(options) => flag_field(options@, "include_usage"@),
        None => false,
    }
}

/// Whether a request's stream options ask for the usage.
pub fn wants_usage(stream_options: &Option<JsonValue>) -> (wanted: bool)
    ensures
        wanted == usage_wanted(*stream_options),
{
    match stream_options {
        Some(options) => options.flag_at("include_usage"),
        None => false,
    }
}

/// A named event.
#[derive(Debug)]
pub struct SseEvent {
    pub event: &'static str,
    pub data: String,
}

/// The names and data of a list of events.
pub open spec fn event_views(events: Seq<SseEvent>) -> Seq<(Seq<char>, Seq<char>)> {
    events.map_values(|event: SseEvent| (event.event@, event.data@))
}

/// What the loop over the app-server's messages does next.
#[derive(Debug)]
pub enum AnthropicStep {
    /// Send these events and read on.
    Send(Vec<SseEvent>),
    /// The turn is complete: store the session, then send the closing events.
    Complete,
    /// The turn failed: log the error, send these events and stop.
    Fail { events: Vec<SseEvent>, error: String },
}

/// An Anthropic message stream.
#[derive(Debug)]
pub struct AnthropicStream {
    pub id: String,
    pub model: String,
    pub progress: Progress,
}

/// The event that opens a message.
pub open spec fn message_start(id: Seq<char>, model: Seq<char>) -> JsonView {
    JsonView::Object(
        map![
            "type"@ => JsonView::Text("message_start"@),
            "message"@ => JsonView::Object(
                map![
                    "id"@ => JsonView::Text(id),
                    "type"@ => JsonView::Text("message"@),
                    "role"@ => JsonView::Text("assistant"@),
                    "content"@ => JsonView::Array(Seq::empty()),
                    "model"@ => JsonView::Text(model),
                    "stop_reason"@ => JsonView::Null,
                    "stop_sequence"@ => JsonView::Null,
                    "usage"@ => JsonView::Object(
                        map!["input_tokens"@ => integer(0), "output_tokens"@ => integer(0)],
                    ),
                ],
            ),
        ],
    )
}

/// The event that opens the one block of a message.
pub open spec fn content_start() -> JsonView {
    JsonView::Object(
        map![
            "type"@ => JsonView::Text("content_block_start"@),
            "index"@ => integer(0),
            "content_block"@ => JsonView::Object(
                map!["type"@ => JsonView::Text("text"@), "text"@ => JsonView::Text(""@)],
            ),
        ],
    )
}

/// The event that carries a piece of text.
pub open spec fn content_delta(text: Seq<char>) -> JsonView {
    JsonView::Object(
        map![
            "type"@ => JsonView::Text("content_block_delta"@),
            "index"@ => integer(0),
            "delta"@ => JsonView::Object(
                map!["type"@ => JsonView::Text("text_delta"@), "text"@ => JsonView::Text(text)],
            ),
        ],
    )
}

/// The event that closes the one block of a message.
pub open spec fn content_stop() -> JsonView {
    JsonView::Object(
        map!["type"@ => JsonView::Text("content_block_stop"@), "index"@ => integer(0)],
    )
}

/// The event that reports how a message ended.
pub open spec fn message_delta(output_tokens: i64, wrapper: JsonView) -> JsonView {
    JsonView::Object(
        map![
            "type"@ => JsonView::Text("message_delta"@),
            "delta"@ => JsonView::Object(
                map![
                    "stop_reason"@ => JsonView::Text("end_turn"@),
                    "stop_sequence"@ => JsonView::Null,
                ],
            ),
            "usage"@ => JsonView::Object(
                map!["output_tokens"@ => integer(output_tokens as int)],
            ),
            "wrapper"@ => wrapper,
        ],
    )
}

/// The event that closes a message.
pub open spec fn message_stop() -> JsonView {
    JsonView::Object(map!["type"@ => JsonView::Text("message_stop"@)])
}

/// The event that reports an error.
pub open spec fn error_event(error: Seq<char>) -> JsonView {
    JsonView::Object(
        map![
            "type"@ => JsonView::Text("error"@),
            "error"@ => JsonView::Object(
                map!["type"@ => JsonView::Text("api_error"@), "message"@ => JsonView::Text(error)],
            ),
        ],
    )
}

fn sse(event: &'static str, data: JsonValue) -> (sent: SseEvent)
    ensures
        sent.event@ == event@,
        sent.data@ == json_text(data@),
{
    SseEvent { event, data: data.to_text() }
}

fn typed(name: &str) -> (json: JsonValue)
    ensures
        json@ == JsonView::Object(map!["type"@ => JsonView::Text(name@)]),
{
    JsonValue::object().with("type", JsonValue::from_text(name))
}

impl AnthropicStream {
    /// The events that open the stream.
    pub open spec fn opening(self) -> Seq<(Seq<char>, Seq<char>)> {
        seq![
            ("message_start"@, json_text(message_start(self.id@, self.model@))),
            ("content_block_start"@, json_text(content_start())),
        ]
    }

    /// The events that close the stream of a completed turn.
    pub open spec fn closing(self, wrapper: Option<WrapperMetadata>) -> Seq<
        (Seq<char>, Seq<char>),
    > {
        seq![
            ("content_block_stop"@, json_text(content_stop())),
            (
                "message_delta"@,
                json_text(
                    message_delta(
                        self.progress.usage.output_tokens,
                        wrapper_json_or_null(wrapper),
                    ),
                ),
            ),
            ("message_stop"@, json_text(message_stop())),
        ]
    }

    /// A stream that has just started.
    pub fn new(id: String, model: String) -> (stream: AnthropicStream)
        ensures
            stream.id == id,
            stream.model == model,
            stream.progress@ == no_progress(),
    {
        AnthropicStream { id, model, progress: Progress::new() }
    }

    /// The events that open the stream.
    pub fn start(&self) -> (events: Vec<SseEvent>)
        ensures
            event_views(events@) == self.opening(),
    {
        let none: Vec<JsonValue> = Vec::new();
        assert(json_views(none@) == Seq::<JsonView>::empty());
        let message = JsonValue::object().with("id", JsonValue::from_text(self.id.as_str())).with(
            "type",
            JsonValue::from_text("message"),
        ).with("role", JsonValue::from_text("assistant")).with("content", JsonValue::array(none)).with(
            "model",
            JsonValue::from_text(self.model.as_str()),
        ).with("stop_reason", JsonValue::Null).with("stop_sequence", JsonValue::Null).with(
            "usage",
            JsonValue::object().with("input_tokens", JsonValue::from_u64(0)).with(
                "output_tokens",
                JsonValue::from_u64(0),
            ),
        );
        let block = typed("text").with("text", JsonValue::from_text(""));
        let mut events: Vec<SseEvent> = Vec::new();
        events.push(sse("message_start", typed("message_start").with("message", message)));
        events.push(
            sse(
                "content_block_start",
                typed("content_block_start").with("index", JsonValue::from_u64(0)).with(
                    "content_block",
                    block,
                ),
            ),
        );
        assert(event_views(events@) == self.opening());
        events
    }

    /// Takes a message into account, and says what to do next.
    pub fn on_message(&mut self, message: &JsonRpcMessage) -> (step: AnthropicStep)
        ensures
            final(self).id == old(self).id,
            final(self).model == old(self).model,
            final(self).progress@ == progress_after(old(self).progress@, message@),
            match news(old(self).progress@, message@) {
                NewsView::Nothing | NewsView::Usage(_) => step is Send && event_views(
                    step->Send_0@,
                ) == Seq::<(Seq<char>, Seq<char>)>::empty(),
                NewsView::Text(text) => step is Send && event_views(step->Send_0@) == seq![
                    ("content_block_delta"@, json_text(content_delta(text))),
                ],
                NewsView::Completed => step is Complete,
                NewsView::Failed(error) => {
                    &&& step is Fail
                    &&& event_views(step->events@) == seq![("error"@, json_text(error_event(error)))]
                    &&& step->error@ == error
                },
            },
    {
        match self.progress.read(message) {
            TurnNews::Nothing => {
                let events: Vec<SseEvent> = Vec::new();
                assert(event_views(events@) == Seq::<(Seq<char>, Seq<char>)>::empty());
                AnthropicStep::Send(events)
            },
            TurnNews::Text(text) => {
                let delta = typed("text_delta").with("text", JsonValue::from_text(text.as_str()));
                let mut events: Vec<SseEvent> = Vec::new();
                events.push(
                    sse(
                        "content_block_delta",
                        typed("content_block_delta").with("index", JsonValue::from_u64(0)).with(
                            "delta",
                            delta,
                        ),
                    ),
                );
                assert(event_views(events@) == seq![
                    ("content_block_delta"@, json_text(content_delta(text@))),
                ]);
                AnthropicStep::Send(events)
            },
            TurnNews::Completed => AnthropicStep::Complete,
            TurnNews::Failed(error) => {
                let detail = typed("api_error").with(
                    "message",
                    JsonValue::from_text(error.as_str()),
                );
                let mut events: Vec<SseEvent> = Vec::new();
                events.push(sse("error", typed("error").with("error", detail)));
                assert(event_views(events@) == seq![("error"@, json_text(error_event(error@)))]);
                AnthropicStep::Fail { events, error }
            },
        }
    }

    /// The events that close the stream of a completed turn.
    pub fn finish(&self, wrapper: &Option<WrapperMetadata>) -> (events: Vec<SseEvent>)
        ensures
            event_views(events@) == self.closing(*wrapper),
    {
        let mut events: Vec<SseEvent> = Vec::new();
        events.push(
            sse(
                "content_block_stop",
                typed("content_block_stop").with("index", JsonValue::from_u64(0)),
            ),
        );
        let delta = JsonValue::object().with("stop_reason", JsonValue::from_text("end_turn")).with(
            "stop_sequence",
            JsonValue::Null,
        );
        let usage = JsonValue::object().with(
            "output_tokens",
            JsonValue::from_i64(self.progress.usage.output_tokens),
        );
        events.push(
            sse(
                "message_delta",
                typed("message_delta").with("delta", delta).with("usage", usage).with(
                    "wrapper",
                    wrapper_to_json(wrapper),
                ),
            ),
        );
        events.push(sse("message_stop", typed("message_stop")));
        assert(event_views(events@) == self.closing(*wrapper));
        events
    }
}

/// The progress of a turn after these messages.
pub open spec fn progress_of(messages: Seq<MessageView>) -> ProgressView
    decreases messages.len(),
{
    if messages.len() == 0 {
        no_progress()
    } else {
        progress_after(progress_of(messages.drop_last()), messages.last())
    }
}

/// The pieces of text that a client is sent for these messages, in order.
pub open spec fn sent_pieces(messages: Seq<MessageView>) -> Seq<Seq<char>>
    decreases messages.len(),
{
    if messages.len() == 0 {
        Seq::empty()
    } else {
        let before = sent_pieces(messages.drop_last());
        match news(progress_of(messages.drop_last()), messages.last()) {
            NewsView::Text(text) => before.push(text),
            _ => before,
        }
    }
}

/// The text that is kept as the response is the text that the client was sent, piece by piece,
/// and the turn knows whether any was sent.
pub proof fn law_response_is_what_was_sent(messages: Seq<MessageView>)
    ensures
        progress_of(messages).response_text == concatenated(sent_pieces(messages)),
        progress_of(messages).sent_any_text == (sent_pieces(messages).len() > 0),
    decreases messages.len(),
{
    if messages.len() > 0 {
        let earlier = messages.drop_last();
        law_response_is_what_was_sent(earlier);
        match news(progress_of(earlier), messages.last()) {
            NewsView::Text(text) => {
                assert(sent_pieces(messages).drop_last() == sent_pieces(earlier));
            },
            _ => {},
        }
    }
}

/// A completed message repeats nothing: once any text was sent, it sends none.
pub proof fn law_completed_message_repeats_nothing(progress: ProgressView, message: MessageView)
    requires
        progress.sent_any_text,
        message.method == Some("item/completed"@),
    ensures
        news(progress, message) == NewsView::Nothing,
        progress_after(progress, message) == progress,
{
    reveal_strlit("item/completed");
    reveal_strlit("item/agentMessage/delta");
    reveal_strlit("thread/tokenUsage/updated");
    assert("item/completed"@.len() != "item/agentMessage/delta"@.len());
    assert("item/completed"@.len() != "thread/tokenUsage/updated"@.len());
}

/// Every chat completion stream that comes to an end, well or badly, ends with `[DONE]`, right
/// after what can stand before it.
pub proof fn law_chat_stream_ends_with_done(
    stream: ChatStream,
    wants_metadata: bool,
    wrapper: Option<WrapperMetadata>,
    error: Seq<char>,
)
    ensures
        stream.closing(wants_metadata, wrapper).last() == "[DONE]"@,
        stream.closing(wants_metadata, wrapper).first() == stream.last_chunk(),
        stream.failure(error).last() == "[DONE]"@,
{
}

/// A chat completion stream carries wrapper metadata only where the request asks for the usage
/// or for the metadata.
pub proof fn law_metadata_is_streamed_only_where_wanted(
    stream: ChatStream,
    wrapper: Option<WrapperMetadata>,
)
    requires
        !stream.include_usage,
    ensures
        stream.closing(false, wrapper) == seq![stream.last_chunk(), "[DONE]"@],
{
}

proof fn lemma_method_names()
    ensures
        "item/agentMessage/delta"@ != "thread/tokenUsage/updated"@,
        "item/agentMessage/delta"@ != "item/completed"@,
        "item/agentMessage/delta"@ != "turn/completed"@,
        "item/agentMessage/delta"@ != "error"@,
        "thread/tokenUsage/updated"@ != "item/completed"@,
        "thread/tokenUsage/updated"@ != "turn/completed"@,
        "thread/tokenUsage/updated"@ != "error"@,
        "item/completed"@ != "turn/completed"@,
        "item/completed"@ != "error"@,
        "turn/completed"@ != "error"@,
{
    reveal_strlit("item/agentMessage/delta");
    reveal_strlit("thread/tokenUsage/updated");
    reveal_strlit("item/completed");
    reveal_strlit("turn/completed");
    reveal_strlit("error");
    assert("item/agentMessage/delta"@.len() != "thread/tokenUsage/updated"@.len());
    assert("item/agentMessage/delta"@.len() != "item/completed"@.len());
    assert("item/agentMessage/delta"@.len() != "turn/completed"@.len());
    assert("item/agentMessage/delta"@.len() != "error"@.len());
    assert("thread/tokenUsage/updated"@.len() != "item/completed"@.len());
    assert("thread/tokenUsage/updated"@.len() != "turn/completed"@.len());
    assert("thread/tokenUsage/updated"@.len() != "error"@.len());
    assert("item/completed"@[0] != "turn/completed"@[0]);
    assert("item/completed"@.len() != "error"@.len());
    assert("turn/completed"@.len() != "error"@.len());
}

proof fn lemma_chunk_names()
    ensures
        "id"@ != "object"@,
        "id"@ != "created"@,
        "id"@ != "model"@,
        "id"@ != "choices"@,
        "id"@ != "usage"@,
        "id"@ != "wrapper"@,
        "object"@ != "created"@,
        "object"@ != "model"@,
        "object"@ != "choices"@,
        "object"@ != "usage"@,
        "object"@ != "wrapper"@,
        "created"@ != "model"@,
        "created"@ != "choices"@,
        "created"@ != "usage"@,
        "created"@ != "wrapper"@,
        "model"@ != "choices"@,
        "model"@ != "usage"@,
        "model"@ != "wrapper"@,
        "choices"@ != "usage"@,
        "choices"@ != "wrapper"@,
        "usage"@ != "wrapper"@,
{
    reveal_strlit("id");
    reveal_strlit("object");
    reveal_strlit("created");
    reveal_strlit("model");
    reveal_strlit("choices");
    reveal_strlit("usage");
    reveal_strlit("wrapper");
    assert("id"@.len() != "object"@.len());
    assert("id"@.len() != "created"@.len());
    assert("id"@.len() != "model"@.len());
    assert("id"@.len() != "choices"@.len());
    assert("id"@.len() != "usage"@.len());
    assert("id"@.len() != "wrapper"@.len());
    assert("object"@.len() != "created"@.len());
    assert("object"@.len() != "model"@.len());
    assert("object"@.len() != "choices"@.len());
    assert("object"@.len() != "usage"@.len());
    assert("object"@.len() != "wrapper"@.len());
    assert("created"@.len() != "model"@.len());
    assert("created"@[1] != "choices"@[1]);
    assert("created"@.len() != "usage"@.len());
    assert("created"@[0] != "wrapper"@[0]);
    assert("model"@.len() != "choices"@.len());
    assert("model"@[0] != "usage"@[0]);
    assert("model"@.len() != "wrapper"@.len());
    assert("choices"@.len() != "usage"@.len());
    assert("choices"@[0] != "wrapper"@[0]);
    assert("usage"@.len() != "wrapper"@.len());
}

proof fn lemma_choice_names()
    ensures
        "index"@ != "delta"@,
        "index"@ != "logprobs"@,
        "index"@ != "finish_reason"@,
        "delta"@ != "logprobs"@,
        "delta"@ != "finish_reason"@,
        "logprobs"@ != "finish_reason"@,
{
    reveal_strlit("index");
    reveal_strlit("delta");
    reveal_strlit("logprobs");
    reveal_strlit("finish_reason");
    assert("index"@[0] != "delta"@[0]);
    assert("index"@.len() != "logprobs"@.len());
    assert("index"@.len() != "finish_reason"@.len());
    assert("delta"@.len() != "logprobs"@.len());
    assert("delta"@.len() != "finish_reason"@.len());
    assert("logprobs"@.len() != "finish_reason"@.len());
}

proof fn lemma_delta_names()
    ensures
        "role"@ != "content"@,
{
    reveal_strlit("role");
    reveal_strlit("content");
    assert("role"@.len() != "content"@.len());
}

proof fn lemma_event_names()
    ensures
        "type"@ != "message"@,
        "type"@ != "index"@,
        "type"@ != "content_block"@,
        "type"@ != "delta"@,
        "type"@ != "usage"@,
        "type"@ != "wrapper"@,
        "type"@ != "error"@,
        "type"@ != "text"@,
        "message"@ != "index"@,
        "message"@ != "content_block"@,
        "message"@ != "delta"@,
        "message"@ != "usage"@,
        "message"@ != "wrapper"@,
        "message"@ != "error"@,
        "message"@ != "text"@,
        "index"@ != "content_block"@,
        "index"@ != "delta"@,
        "index"@ != "usage"@,
        "index"@ != "wrapper"@,
        "index"@ != "error"@,
        "index"@ != "text"@,
        "content_block"@ != "delta"@,
        "content_block"@ != "usage"@,
        "content_block"@ != "wrapper"@,
        "content_block"@ != "error"@,
        "content_block"@ != "text"@,
        "delta"@ != "usage"@,
        "delta"@ != "wrapper"@,
        "delta"@ != "error"@,
        "delta"@ != "text"@,
        "usage"@ != "wrapper"@,
        "usage"@ != "error"@,
        "usage"@ != "text"@,
        "wrapper"@ != "error"@,
        "wrapper"@ != "text"@,
        "error"@ != "text"@,
{
    reveal_strlit("type");
    reveal_strlit("message");
    reveal_strlit("index");
    reveal_strlit("content_block");
    reveal_strlit("delta");
    reveal_strlit("usage");
    reveal_strlit("wrapper");
    reveal_strlit("error");
    reveal_strlit("text");
    assert("type"@.len() != "message"@.len());
    assert("type"@.len() != "index"@.len());
    assert("type"@.len() != "content_block"@.len());
    assert("type"@.len() != "delta"@.len());
    assert("type"@.len() != "usage"@.len());
    assert("type"@.len() != "wrapper"@.len());
    assert("type"@.len() != "error"@.len());
    assert("type"@[1] != "text"@[1]);
    assert("message"@.len() != "index"@.len());
    assert("message"@.len() != "content_block"@.len());
    assert("message"@.len() != "delta"@.len());
    assert("message"@.len() != "usage"@.len());
    assert("message"@[0] != "wrapper"@[0]);
    assert("message"@.len() != "error"@.len());
    assert("message"@.len() != "text"@.len());
    assert("index"@.len() != "content_block"@.len());
    assert("index"@[0] != "delta"@[0]);
    assert("index"@[0] != "usage"@[0]);
    assert("index"@.len() != "wrapper"@.len());
    assert("index"@[0] != "error"@[0]);
    assert("index"@.len() != "text"@.len());
    assert("content_block"@.len() != "delta"@.len());
    assert("content_block"@.len() != "usage"@.len());
    assert("content_block"@.len() != "wrapper"@.len());
    assert("content_block"@.len() != "error"@.len());
    assert("content_block"@.len() != "text"@.len());
    assert("delta"@[0] != "usage"@[0]);
    assert("delta"@.len() != "wrapper"@.len());
    assert("delta"@[0] != "error"@[0]);
    assert("delta"@.len() != "text"@.len());
    assert("usage"@.len() != "wrapper"@.len());
    assert("usage"@[0] != "error"@[0]);
    assert("usage"@.len() != "text"@.len());
    assert("wrapper"@.len() != "error"@.len());
    assert("wrapper"@.len() != "text"@.len());
    assert("error"@.len() != "text"@.len());
}

proof fn lemma_message_names()
    ensures
        "id"@ != "type"@,
        "id"@ != "role"@,
        "id"@ != "content"@,
        "id"@ != "model"@,
        "id"@ != "stop_reason"@,
        "id"@ != "stop_sequence"@,
        "id"@ != "usage"@,
        "type"@ != "role"@,
        "type"@ != "content"@,
        "type"@ != "model"@,
        "type"@ != "stop_reason"@,
        "type"@ != "stop_sequence"@,
        "type"@ != "usage"@,
        "role"@ != "content"@,
        "role"@ != "model"@,
        "role"@ != "stop_reason"@,
        "role"@ != "stop_sequence"@,
        "role"@ != "usage"@,
        "content"@ != "model"@,
        "content"@ != "stop_reason"@,
        "content"@ != "stop_sequence"@,
        "content"@ != "usage"@,
        "model"@ != "stop_reason"@,
        "model"@ != "stop_sequence"@,
        "model"@ != "usage"@,
        "stop_reason"@ != "stop_sequence"@,
        "stop_reason"@ != "usage"@,
        "stop_sequence"@ != "usage"@,
{
    reveal_strlit("id");
    reveal_strlit("type");
    reveal_strlit("role");
    reveal_strlit("content");
    reveal_strlit("model");
    reveal_strlit("stop_reason");
    reveal_strlit("stop_sequence");
    reveal_strlit("usage");
    assert("id"@.len() != "type"@.len());
    assert("id"@.len() != "role"@.len());
    assert("id"@.len() != "content"@.len());
    assert("id"@.len() != "model"@.len());
    assert("id"@.len() != "stop_reason"@.len());
    assert("id"@.len() != "stop_sequence"@.len());
    assert("id"@.len() != "usage"@.len());
    assert("type"@[0] != "role"@[0]);
    assert("type"@.len() != "content"@.len());
    assert("type"@.len() != "model"@.len());
    assert("type"@.len() != "stop_reason"@.len());
    assert("type"@.len() != "stop_sequence"@.len());
    assert("type"@.len() != "usage"@.len());
    assert("role"@.len() != "content"@.len());
    assert("role"@.len() != "model"@.len());
    assert("role"@.len() != "stop_reason"@.len());
    assert("role"@.len() != "stop_sequence"@.len());
    assert("role"@.len() != "usage"@.len());
    assert("content"@.len() != "model"@.len());
    assert("content"@.len() != "stop_reason"@.len());
    assert("content"@.len() != "stop_sequence"@.len());
    assert("content"@.len() != "usage"@.len());
    assert("model"@.len() != "stop_reason"@.len());
    assert("model"@.len() != "stop_sequence"@.len());
    assert("model"@[0] != "usage"@[0]);
    assert("stop_reason"@.len() != "stop_sequence"@.len());
    assert("stop_reason"@.len() != "usage"@.len());
    assert("stop_sequence"@.len() != "usage"@.len());
}

proof fn lemma_count_names()
    ensures
        "input_tokens"@ != "output_tokens"@,
{
    reveal_strlit("input_tokens");
    reveal_strlit("output_tokens");
    assert("input_tokens"@.len() != "output_tokens"@.len());
}

/// A delta reaches the client as it stands: the news is its text, character for character, and
/// that text is added to the response.
pub proof fn law_delta_is_sent_as_it_stands(
    progress: Progress,
    message: JsonRpcMessage,
    members: Map<Seq<char>, JsonView>,
    text: Seq<char>,
    told: TurnNews,
)
    requires
        message.method is Some,
        message.method->0@ == "item/agentMessage/delta"@,
        message.params is Some,
        message.params->0@ == JsonView::Object(members),
        members.contains_key("delta"@),
        members["delta"@] == JsonView::Text(text),
        tells(told, news(progress@, message@)),
    ensures
        told is Text,
        told->Text_0@ == text,
        progress_after(progress@, message@).response_text == progress.response_text@ + text,
        progress_after(progress@, message@).sent_any_text,
        progress_after(progress@, message@).usage == progress.usage,
{
}

/// Over a turn of deltas, the client is sent one piece for each, in order, and the response is
/// all of them, character for character and with nothing between them.
pub proof fn law_deltas_make_up_the_response(messages: Seq<JsonRpcMessage>, deltas: Seq<Seq<char>>)
    requires
        messages.len() == deltas.len(),
        forall|i: int|
            #![trigger messages[i]]
            0 <= i < messages.len() ==> {
                &&& messages[i].method is Some
                &&& messages[i].method->0@ == "item/agentMessage/delta"@
                &&& messages[i].params is Some
                &&& messages[i].params->0@ is Object
                &&& messages[i].params->0@->Object_0.contains_key("delta"@)
                &&& messages[i].params->0@->Object_0["delta"@] == JsonView::Text(deltas[i])
            },
    ensures
        sent_pieces(messages.map_values(|message: JsonRpcMessage| message@)) == deltas,
        progress_of(messages.map_values(|message: JsonRpcMessage| message@)).response_text
            == deltas.flatten(),
    decreases messages.len(),
{
    let views = messages.map_values(|message: JsonRpcMessage| message@);
    if messages.len() > 0 {
        let earlier = messages.drop_last();
        assert forall|i: int|
            #![trigger earlier[i]]
            0 <= i < earlier.len() implies {
                &&& earlier[i].method is Some
                &&& earlier[i].method->0@ == "item/agentMessage/delta"@
                &&& earlier[i].params is Some
                &&& earlier[i].params->0@ is Object
                &&& earlier[i].params->0@->Object_0.contains_key("delta"@)
                &&& earlier[i].params->0@->Object_0["delta"@] == JsonView::Text(
                    deltas.drop_last()[i],
                )
            } by {
            assert(earlier[i] == messages[i]);
        }
        law_deltas_make_up_the_response(earlier, deltas.drop_last());
        assert(views.drop_last() =~= earlier.map_values(|message: JsonRpcMessage| message@));
        let last = messages[messages.len() - 1];
        assert(views.last() == last@);
        assert(deltas =~= deltas.drop_last().push(deltas.last()));
        deltas.drop_last().lemma_flatten_push(deltas.last());
    } else {
        assert(deltas =~= Seq::<Seq<char>>::empty());
    }
}

/// Where nothing was sent before, the text of a completed message of the assistant is sent whole.
pub proof fn law_completed_message_is_sent_where_no_delta_came(
    progress: Progress,
    message: JsonRpcMessage,
    members: Map<Seq<char>, JsonView>,
    item: Map<Seq<char>, JsonView>,
    text: Seq<char>,
    told: TurnNews,
)
    requires
        !progress.sent_any_text,
        message.method is Some,
        message.method->0@ == "item/completed"@,
        message.params is Some,
        message.params->0@ == JsonView::Object(members),
        members.contains_key("item"@),
        members["item"@] == JsonView::Object(item),
        item.contains_key("type"@),
        item["type"@] == JsonView::Text("agentMessage"@),
        item.contains_key("text"@),
        item["text"@] == JsonView::Text(text),
        tells(told, news(progress@, message@)),
    ensures
        told is Text,
        told->Text_0@ == text,
        progress_after(progress@, message@).response_text == progress.response_text@ + text,
        progress_after(progress@, message@).sent_any_text,
{
    lemma_method_names();
}

/// An item of another kind sends nothing and changes nothing.
pub proof fn law_other_items_are_not_sent(
    progress: Progress,
    message: JsonRpcMessage,
    members: Map<Seq<char>, JsonView>,
    item: Map<Seq<char>, JsonView>,
    told: TurnNews,
)
    requires
        message.method is Some,
        message.method->0@ == "item/completed"@,
        message.params is Some,
        message.params->0@ == JsonView::Object(members),
        members.contains_key("item"@),
        members["item"@] == JsonView::Object(item),
        item.contains_key("type"@),
        item["type"@] != JsonView::Text("agentMessage"@),
        tells(told, news(progress@, message@)),
    ensures
        told is Nothing,
        progress_after(progress@, message@) == progress@,
{
    lemma_method_names();
}

/// A turn is complete exactly when the app-server says so, and that adds nothing to it.
pub proof fn law_turn_is_complete_when_it_is_said(
    progress: Progress,
    message: JsonRpcMessage,
    told: TurnNews,
)
    requires
        tells(told, news(progress@, message@)),
    ensures
        told is Completed <==> message.method is Some && message.method->0@ == "turn/completed"@,
        told is Completed ==> progress_after(progress@, message@) == progress@,
{
    lemma_method_names();
}

/// An error that will be retried is none; any other fails the turn with the message that it
/// carries, as it stands.
pub proof fn law_error_fails_the_turn_with_its_message(
    progress: Progress,
    message: JsonRpcMessage,
    members: Map<Seq<char>, JsonView>,
    detail: Map<Seq<char>, JsonView>,
    text: Seq<char>,
    told: TurnNews,
)
    requires
        message.method is Some,
        message.method->0@ == "error"@,
        message.params is Some,
        message.params->0@ == JsonView::Object(members),
        members.contains_key("error"@),
        members["error"@] == JsonView::Object(detail),
        detail.contains_key("message"@),
        detail["message"@] == JsonView::Text(text),
        tells(told, news(progress@, message@)),
    ensures
        members.contains_key("willRetry"@) && members["willRetry"@] == JsonView::Bool(true)
            ==> told is Nothing,
        !(members.contains_key("willRetry"@) && members["willRetry"@] == JsonView::Bool(true))
            ==> told is Failed && told->Failed_0@ == text,
        progress_after(progress@, message@) == progress@,
{
    lemma_method_names();
}

/// An error without a message fails the turn all the same, and only an error does.
pub proof fn law_only_errors_fail_the_turn(
    progress: Progress,
    message: JsonRpcMessage,
    told: TurnNews,
)
    requires
        tells(told, news(progress@, message@)),
    ensures
        told is Failed ==> message.method is Some && message.method->0@ == "error"@,
        message.method is Some && message.method->0@ == "error"@ && message.params is None
            ==> told is Failed && told->Failed_0@ == "Codex reported an error."@,
{
    lemma_method_names();
}

/// A message of any other method, or of none, brings nothing and changes nothing.
pub proof fn law_other_messages_bring_nothing(
    progress: Progress,
    message: JsonRpcMessage,
    told: TurnNews,
)
    requires
        message.method is Some ==> {
            &&& message.method->0@ != "item/agentMessage/delta"@
            &&& message.method->0@ != "thread/tokenUsage/updated"@
            &&& message.method->0@ != "item/completed"@
            &&& message.method->0@ != "turn/completed"@
            &&& message.method->0@ != "error"@
        },
        tells(told, news(progress@, message@)),
    ensures
        told is Nothing,
        progress_after(progress@, message@) == progress@,
{
}

/// A usage report is shown to nobody; the counts of its last turn are taken over, and the
/// text stays as it is.
pub proof fn law_usage_report_is_taken_over(
    progress: Progress,
    message: JsonRpcMessage,
    members: Map<Seq<char>, JsonView>,
    usage: Map<Seq<char>, JsonView>,
    last: Map<Seq<char>, JsonView>,
    input: i64,
    cached: i64,
    output: i64,
    reasoning: i64,
    told: TurnNews,
)
    requires
        message.method is Some,
        message.method->0@ == "thread/tokenUsage/updated"@,
        message.params is Some,
        message.params->0@ == JsonView::Object(members),
        members.contains_key("tokenUsage"@),
        members["tokenUsage"@] == JsonView::Object(usage),
        usage.contains_key("last"@),
        usage["last"@] == JsonView::Object(last),
        last.contains_key("inputTokens"@),
        last["inputTokens"@] == integer(input as int),
        last.contains_key("cachedInputTokens"@),
        last["cachedInputTokens"@] == integer(cached as int),
        last.contains_key("outputTokens"@),
        last["outputTokens"@] == integer(output as int),
        last.contains_key("reasoningOutputTokens"@),
        last["reasoningOutputTokens"@] == integer(reasoning as int),
        tells(told, news(progress@, message@)),
    ensures
        told is Nothing,
        ({
            let after = progress_after(progress@, message@);
            &&& after.usage.input_tokens == input
            &&& after.usage.cached_input_tokens == cached
            &&& after.usage.output_tokens == output
            &&& after.usage.reasoning_output_tokens == reasoning
            &&& after.response_text == progress.response_text@
            &&& after.sent_any_text == progress.sent_any_text
        }),
{
    lemma_method_names();
}

/// A turn that has just started has sent nothing and used nothing.
pub proof fn law_turn_starts_with_nothing(progress: Progress)
    requires
        progress@ == no_progress(),
    ensures
        !progress.sent_any_text,
        progress.response_text@.len() == 0,
        progress.usage.input_tokens == 0,
        progress.usage.cached_input_tokens == 0,
        progress.usage.output_tokens == 0,
        progress.usage.reasoning_output_tokens == 0,
{
}

/// The chunk for a piece of text is a chat completion chunk of the stream's id and model whose
/// one choice carries that text as its content, and says nothing about an end.
pub proof fn law_text_chunk_carries_the_text(stream: ChatStream, text: Seq<char>) -> (chunk: (
    Map<Seq<char>, JsonView>,
    Map<Seq<char>, JsonView>,
    Map<Seq<char>, JsonView>,
))
    ensures
        stream.text_chunk(text) == json_text(JsonView::Object(chunk.0)),
        chunk.0["id"@] == JsonView::Text(stream.id@),
        chunk.0["object"@] == JsonView::Text("chat.completion.chunk"@),
        chunk.0["created"@].as_i64() == Some(stream.created),
        chunk.0["model"@] == JsonView::Text(stream.model@),
        chunk.0["choices"@] == JsonView::Array(seq![JsonView::Object(chunk.1)]),
        chunk.1["index"@].as_i64() == Some(0i64),
        chunk.1["delta"@] == JsonView::Object(chunk.2),
        chunk.1["finish_reason"@] == JsonView::Null,
        chunk.2["content"@] == JsonView::Text(text),
        !chunk.2.contains_key("role"@),
{
    lemma_chunk_names();
    lemma_choice_names();
    lemma_delta_names();
    let delta = map!["content"@ => JsonView::Text(text)];
    let choice = choice_json(JsonView::Object(delta), JsonView::Null);
    let members = chunk_members(stream.id@, stream.created, stream.model@, seq![choice]);
    (members, choice->Object_0, delta)
}

/// The first chunk opens the answer of the assistant with empty content.
pub proof fn law_first_chunk_opens_the_answer(stream: ChatStream) -> (chunk: (
    Map<Seq<char>, JsonView>,
    Map<Seq<char>, JsonView>,
    Map<Seq<char>, JsonView>,
))
    ensures
        stream.first_chunk() == json_text(JsonView::Object(chunk.0)),
        chunk.0["id"@] == JsonView::Text(stream.id@),
        chunk.0["model"@] == JsonView::Text(stream.model@),
        chunk.0["choices"@] == JsonView::Array(seq![JsonView::Object(chunk.1)]),
        chunk.1["delta"@] == JsonView::Object(chunk.2),
        chunk.1["finish_reason"@] == JsonView::Null,
        chunk.2["role"@] == JsonView::Text("assistant"@),
        chunk.2["content"@] == JsonView::Text(""@),
{
    lemma_chunk_names();
    lemma_choice_names();
    lemma_delta_names();
    let delta = map!["role"@ => JsonView::Text("assistant"@), "content"@ => JsonView::Text(""@)];
    let choice = choice_json(JsonView::Object(delta), JsonView::Null);
    let members = chunk_members(stream.id@, stream.created, stream.model@, seq![choice]);
    (members, choice->Object_0, delta)
}

/// The last chunk carries no text and says that the answer has stopped.
pub proof fn law_last_chunk_stops_the_answer(stream: ChatStream) -> (chunk: (
    Map<Seq<char>, JsonView>,
    Map<Seq<char>, JsonView>,
))
    ensures
        stream.last_chunk() == json_text(JsonView::Object(chunk.0)),
        chunk.0["id"@] == JsonView::Text(stream.id@),
        chunk.0["model"@] == JsonView::Text(stream.model@),
        chunk.0["choices"@] == JsonView::Array(seq![JsonView::Object(chunk.1)]),
        chunk.1["delta"@] == JsonView::Object(Map::empty()),
        chunk.1["finish_reason"@] == JsonView::Text("stop"@),
{
    lemma_chunk_names();
    lemma_choice_names();
    let choice = choice_json(JsonView::Object(Map::empty()), JsonView::Text("stop"@));
    let members = chunk_members(stream.id@, stream.created, stream.model@, seq![choice]);
    (members, choice->Object_0)
}

/// A stream that was asked for its usage reports, before `[DONE]`, the counts of the turn and
/// the metadata, in a chunk without choices.
pub proof fn law_usage_is_reported_where_it_was_asked_for(
    stream: ChatStream,
    wants_metadata: bool,
    wrapper: Option<WrapperMetadata>,
) -> (chunk: Map<Seq<char>, JsonView>)
    requires
        stream.include_usage,
        stream.progress.usage.total_fits(),
    ensures
        stream.closing(wants_metadata, wrapper).len() == 3,
        stream.closing(wants_metadata, wrapper)[0] == stream.last_chunk(),
        stream.closing(wants_metadata, wrapper)[1] == json_text(JsonView::Object(chunk)),
        stream.closing(wants_metadata, wrapper)[2] == "[DONE]"@,
        chunk["id"@] == JsonView::Text(stream.id@),
        chunk["choices"@] == JsonView::Array(Seq::empty()),
        chunk["wrapper"@] == wrapper_json_or_null(wrapper),
        chunk["usage"@] is Object,
        chunk["usage"@]->Object_0["prompt_tokens"@].as_i64() == Some(
            stream.progress.usage.input_tokens,
        ),
        chunk["usage"@]->Object_0["completion_tokens"@].as_i64() == Some(
            stream.progress.usage.output_tokens,
        ),
        chunk["usage"@]->Object_0["total_tokens"@].as_i64() == Some(
            (stream.progress.usage.input_tokens + stream.progress.usage.output_tokens) as i64,
        ),
{
    lemma_chunk_names();
    let usage = stream.progress.usage;
    law_stream_usage_is_counted(usage);
    chunk_members(stream.id@, stream.created, stream.model@, Seq::empty()).insert(
        "usage"@,
        usage_json(
            usage.input_tokens as int,
            usage.cached_input_tokens as int,
            usage.output_tokens as int,
            usage.reasoning_output_tokens as int,
        ),
    ).insert("wrapper"@, wrapper_json_or_null(wrapper))
}

/// A stream that was asked for metadata alone carries it in a chunk of its own, without usage.
pub proof fn law_metadata_is_streamed_where_it_was_asked_for(
    stream: ChatStream,
    wrapper: Option<WrapperMetadata>,
) -> (chunk: Map<Seq<char>, JsonView>)
    requires
        !stream.include_usage,
    ensures
        stream.closing(true, wrapper).len() == 3,
        stream.closing(true, wrapper)[0] == stream.last_chunk(),
        stream.closing(true, wrapper)[1] == json_text(JsonView::Object(chunk)),
        stream.closing(true, wrapper)[2] == "[DONE]"@,
        chunk["id"@] == JsonView::Text(stream.id@),
        chunk["choices"@] == JsonView::Array(Seq::empty()),
        chunk["wrapper"@] == wrapper_json_or_null(wrapper),
        !chunk.contains_key("usage"@),
{
    lemma_chunk_names();
    chunk_members(stream.id@, stream.created, stream.model@, Seq::empty()).insert(
        "wrapper"@,
        wrapper_json_or_null(wrapper),
    )
}

/// A failed turn tells the client its error, as text of the answer, where nothing was sent
/// before; where something was, the answer just stops.
pub proof fn law_failure_is_told_where_nothing_was_sent(stream: ChatStream, error: Seq<char>)
    ensures
        !stream.progress.sent_any_text ==> {
            &&& stream.failure(error).len() == 3
            &&& stream.failure(error)[0] == stream.text_chunk("Codex error: "@ + error)
            &&& stream.failure(error)[1] == stream.last_chunk()
            &&& stream.failure(error)[2] == "[DONE]"@
        },
        stream.progress.sent_any_text ==> {
            &&& stream.failure(error).len() == 2
            &&& stream.failure(error)[0] == stream.last_chunk()
            &&& stream.failure(error)[1] == "[DONE]"@
        },
{
}

/// The usage is streamed where the options say so, and nowhere else.
pub proof fn law_usage_is_wanted_by_option(
    options: JsonValue,
    members: Map<Seq<char>, JsonView>,
)
    requires
        options@ == JsonView::Object(members),
    ensures
        usage_wanted(Some(options)) <==> members.contains_key("include_usage"@)
            && members["include_usage"@] == JsonView::Bool(true),
        !usage_wanted(None),
{
}

/// The event for a piece of text carries that text, as a text delta of the one block.
pub proof fn law_text_event_carries_the_text(text: Seq<char>) -> (event: (
    Map<Seq<char>, JsonView>,
    Map<Seq<char>, JsonView>,
))
    ensures
        content_delta(text) == JsonView::Object(event.0),
        event.0["type"@] == JsonView::Text("content_block_delta"@),
        event.0["index"@].as_i64() == Some(0i64),
        event.0["delta"@] == JsonView::Object(event.1),
        event.1["type"@] == JsonView::Text("text_delta"@),
        event.1["text"@] == JsonView::Text(text),
{
    lemma_event_names();
    let members = content_delta(text)->Object_0;
    (members, members["delta"@]->Object_0)
}

/// An Anthropic stream opens with a message of its id and model, by the assistant and still
/// empty, and then opens the one block of text.
pub proof fn law_anthropic_stream_opens_message_and_block(stream: AnthropicStream) -> (opened: (
    Map<Seq<char>, JsonView>,
    Map<Seq<char>, JsonView>,
    Map<Seq<char>, JsonView>,
))
    ensures
        stream.opening().len() == 2,
        stream.opening()[0].0 == "message_start"@,
        stream.opening()[0].1 == json_text(JsonView::Object(opened.0)),
        stream.opening()[1].0 == "content_block_start"@,
        stream.opening()[1].1 == json_text(JsonView::Object(opened.2)),
        opened.0["type"@] == JsonView::Text("message_start"@),
        opened.0["message"@] == JsonView::Object(opened.1),
        opened.1["id"@] == JsonView::Text(stream.id@),
        opened.1["type"@] == JsonView::Text("message"@),
        opened.1["role"@] == JsonView::Text("assistant"@),
        opened.1["model"@] == JsonView::Text(stream.model@),
        opened.1["content"@] == JsonView::Array(Seq::empty()),
        opened.1["stop_reason"@] == JsonView::Null,
        opened.1["stop_sequence"@] == JsonView::Null,
        opened.1["usage"@] is Object,
        opened.1["usage"@]->Object_0["input_tokens"@].as_i64() == Some(0i64),
        opened.1["usage"@]->Object_0["output_tokens"@].as_i64() == Some(0i64),
        opened.2["type"@] == JsonView::Text("content_block_start"@),
        opened.2["index"@].as_i64() == Some(0i64),
        opened.2["content_block"@] is Object,
        opened.2["content_block"@]->Object_0["type"@] == JsonView::Text("text"@),
        opened.2["content_block"@]->Object_0["text"@] == JsonView::Text(""@),
{
    lemma_event_names();
    lemma_message_names();
    lemma_count_names();
    let start = message_start(stream.id@, stream.model@)->Object_0;
    (start, start["message"@]->Object_0, content_start()->Object_0)
}

/// An Anthropic stream closes its block, reports how the message ended and what it used, and
/// closes the message.
pub proof fn law_anthropic_stream_closes_block_and_message(
    stream: AnthropicStream,
    wrapper: Option<WrapperMetadata>,
) -> (closed: Map<Seq<char>, JsonView>)
    ensures
        stream.closing(wrapper).len() == 3,
        stream.closing(wrapper)[0].0 == "content_block_stop"@,
        stream.closing(wrapper)[0].1 == json_text(content_stop()),
        content_stop() is Object,
        content_stop()->Object_0["type"@] == JsonView::Text("content_block_stop"@),
        content_stop()->Object_0["index"@].as_i64() == Some(0i64),
        stream.closing(wrapper)[1].0 == "message_delta"@,
        stream.closing(wrapper)[1].1 == json_text(JsonView::Object(closed)),
        closed["type"@] == JsonView::Text("message_delta"@),
        closed["delta"@] is Object,
        closed["delta"@]->Object_0["stop_reason"@] == JsonView::Text("end_turn"@),
        closed["delta"@]->Object_0["stop_sequence"@] == JsonView::Null,
        closed["usage"@] is Object,
        closed["usage"@]->Object_0["output_tokens"@].as_i64() == Some(
            stream.progress.usage.output_tokens,
        ),
        closed["wrapper"@] == wrapper_json_or_null(wrapper),
        stream.closing(wrapper)[2].0 == "message_stop"@,
        stream.closing(wrapper)[2].1 == json_text(message_stop()),
        message_stop() is Object,
        message_stop()->Object_0["type"@] == JsonView::Text("message_stop"@),
{
    lemma_event_names();
    lemma_message_names();
    message_delta(
        stream.progress.usage.output_tokens,
        wrapper_json_or_null(wrapper),
    )->Object_0
}

/// The event for an error carries its text.
pub proof fn law_error_event_carries_the_error(error: Seq<char>) -> (event: (
    Map<Seq<char>, JsonView>,
    Map<Seq<char>, JsonView>,
))
    ensures
        error_event(error) == JsonView::Object(event.0),
        event.0["type"@] == JsonView::Text("error"@),
        event.0["error"@] == JsonView::Object(event.1),
        event.1["type"@] == JsonView::Text("api_error"@),
        event.1["message"@] == JsonView::Text(error),
{
    lemma_event_names();
    let members = error_event(error)->Object_0;
    (members, members["error"@]->Object_0)
}

/// What the app-server sent is read as it was sent, and the progress is what it holds.
pub proof fn law_messages_are_read_as_they_were_sent(message: JsonRpcMessage, progress: Progress)
    ensures
        message.method matches Some(method) ==> message@.method == Some(method@),
        message.method is None ==> message@.method is None,
        message.params matches Some(params) ==> message@.params == Some(params@),
        message.params is None ==> message@.params is None,
        progress@.sent_any_text == progress.sent_any_text,
        progress@.usage == progress.usage,
        progress@.response_text == progress.response_text@,
{
}

/// A message changes nothing of a stream but its progress, and the events of a list are told with
/// their names and data, each in its place.
pub proof fn law_stream_keeps_its_identity(
    before: ChatStream,
    after: ChatStream,
    events: Seq<SseEvent>,
    at: int,
)
    requires
        after.same_but_progress(before),
        0 <= at < events.len(),
    ensures
        after.id == before.id,
        after.created == before.created,
        after.model == before.model,
        after.include_usage == before.include_usage,
        event_views(events).len() == events.len(),
        event_views(events)[at] == (events[at].event@, events[at].data@),
{
}

/// An error that names no message fails the turn with a message of its own; a delta without a text
/// sends nothing.
pub proof fn law_incomplete_messages_are_dealt_with(
    progress: Progress,
    message: JsonRpcMessage,
    members: Map<Seq<char>, JsonView>,
    told: TurnNews,
)
    requires
        message.method is Some,
        message.params is Some,
        message.params->0@ == JsonView::Object(members),
        tells(told, news(progress@, message@)),
    ensures
        message.method->0@ == "error"@ && !members.contains_key("error"@) && !members.contains_key(
            "willRetry"@,
        ) ==> told is Failed && told->Failed_0@ == "Codex reported an error."@,
        message.method->0@ == "item/agentMessage/delta"@ && (!members.contains_key("delta"@) || !(
        members["delta"@] is Text)) ==> told is Nothing && progress_after(progress@, message@)
            == progress@,
        message.method->0@ == "item/completed"@ && !members.contains_key("item"@)
            ==> told is Nothing && progress_after(progress@, message@) == progress@,
{
    lemma_method_names();
}

/// Nothing that was sent is taken back: whatever a message brings, the response only grows, and
/// only a usage report changes the usage.
pub proof fn law_sent_text_is_never_taken_back(progress: Progress, message: JsonRpcMessage)
    ensures
        ({
            let after = progress_after(progress@, message@);
            &&& progress.response_text@.is_prefix_of(after.response_text)
            &&& progress.sent_any_text ==> after.sent_any_text
            &&& after.response_text.len() > progress.response_text@.len() ==> after.sent_any_text
            &&& message.method is None || message.method->0@ != "thread/tokenUsage/updated"@
                ==> after.usage == progress.usage
        }),
{
    let after = progress_after(progress@, message@).response_text;
    assert(progress.response_text@ =~= after.subrange(0, progress.response_text@.len() as int));
}

} // verus!
