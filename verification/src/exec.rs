//! Turns without streaming: the arguments of `codex exec`, and what its output means.

use crate::error::AppError;
use crate::image::{
    file_name, image_reference, image_views, reference_for, ImageInput, ImageView,
};
use crate::json::{json_document, slice_text, text_field, text_of, JsonValue, JsonView};
use crate::prompt::PromptBundle;
use crate::request::{tools_enabled, ChatCompletionRequest};
use crate::rpc::{add_argument, truth_text, truth_word};
use crate::sessions::{thread_of, SessionRecord};
use crate::text::{blank, concat, concat3, is_blank, same, texts};
use crate::thread::{sandbox_mode, sandbox_text, web_search_mode, web_search_text};
use crate::toml::{quoted, toml_string};
use crate::usage::ExecUsage;
use vstd::prelude::*;

verus! {

/// The arguments with two more, where there are any.
pub open spec fn with_pair(
    arguments: Seq<Seq<char>>,
    pair: Option<(Seq<char>, Seq<char>)>,
) -> Seq<Seq<char>> {
    match pair {
        Some((first, second)) => arguments.push(first).push(second),
        None => arguments,
    }
}

/// An option with its value, where there is a value.
pub open spec fn option_pair(flag: Seq<char>, value: Option<Seq<char>>) -> Option<
    (Seq<char>, Seq<char>),
> {
    match value {
        Some(v) => Some((flag, v)),
        None => None,
    }
}

/// A configuration override with a quoted value, where there is a value.
pub open spec fn quoted_setting(name: Seq<char>, value: Option<Seq<char>>) -> Option<Seq<char>> {
    match value {
        Some(v) => Some(name + "="@ + quoted(v)),
        None => None,
    }
}

/// The arguments that every turn has.
pub open spec fn base_arguments(request: ChatCompletionRequest, cwd: Seq<char>) -> Seq<Seq<char>> {
    seq![
        "exec"@,
        "--json"@,
        "--skip-git-repo-check"@,
        "--model"@,
        request.model@,
        "--cd"@,
        cwd,
        "--sandbox"@,
        sandbox_text(request),
        "-c"@,
        "approval_policy=\"never\""@,
        "-c"@,
        "web_search=\""@ + web_search_text(request) + "\""@,
        "-c"@,
        "features.apps=false"@,
        "-c"@,
        "features.shell_tool="@ + truth_text(tools_enabled(request)),
    ]
}

/// The argument for the image at this place.
pub open spec fn image_argument(image: ImageView, place: nat, directory: Seq<char>) -> Seq<char> {
    "--image="@ + image_reference(image, place, directory)
}

/// The arguments for the images: one for each, in order.
pub open spec fn image_arguments(images: Seq<ImageView>, directory: Seq<char>) -> Seq<Seq<char>> {
    Seq::new(images.len(), |i: int| image_argument(images[i], i as nat, directory))
}

/// The arguments of a turn. A session's thread is resumed by its id.
pub open spec fn turn_arguments(
    request: ChatCompletionRequest,
    cwd: Seq<char>,
    images: Seq<Seq<char>>,
    schema_path: Option<Seq<char>>,
    instructions: Option<Seq<char>>,
    thread_id: Option<Seq<char>>,
) -> Seq<Seq<char>> {
    let base = base_arguments(request, cwd);
    let schema = with_pair(base + images, option_pair("--output-schema"@, schema_path));
    let guided = with_pair(
        schema,
        option_pair("-c"@, quoted_setting("developer_instructions"@, instructions)),
    );
    let reasoned = with_pair(
        guided,
        option_pair(
            "-c"@,
            quoted_setting("model_reasoning_effort"@, text_of(request.reasoning_effort)),
        ),
    );
    with_pair(reasoned, option_pair("resume"@, thread_id))
}

fn add_pair(arguments: &mut Vec<String>, flag: &str, value: &Option<String>)
    ensures
        texts(final(arguments)@) == with_pair(
            texts(old(arguments)@),
            option_pair(flag@, text_of(*value)),
        ),
{
    match value {
        Some(v) => {
            add_argument(arguments, flag);
            add_argument(arguments, v.as_str());
        },
        None => {},
    }
}

fn setting(name: &str, value: &Option<String>) -> (outcome: Result<Option<String>, AppError>)
    ensures
        outcome is Ok,
        text_of(outcome->Ok_0) == quoted_setting(name@, text_of(*value)),
{
    match value {
        Some(v) => match toml_string(v.as_str()) {
            Ok(literal) => Ok(Some(concat3(name, "=", literal.as_str()))),
            Err(error) => Err(error),
        },
        None => Ok(None),
    }
}

fn add_images(arguments: &mut Vec<String>, images: &Vec<ImageInput>, directory: &str)
    ensures
        texts(final(arguments)@) == texts(old(arguments)@) + image_arguments(
            image_views(images@),
            directory@,
        ),
{
    let ghost before = texts(arguments@);
    let ghost more = image_arguments(image_views(images@), directory@);
    let mut at: usize = 0;
    assert(before + more.take(0) == before);
    while at < images.len()
        invariant
            at <= images.len(),
            more == image_arguments(image_views(images@), directory@),
            texts(arguments@) == before + more.take(at as int),
        decreases images.len() - at,
    {
        let reference = reference_for(&images[at], at, directory);
        add_argument(arguments, concat("--image=", reference.as_str()).as_str());
        assert(more[at as int] == image_argument(images@[at as int]@, at as nat, directory@));
        assert((before + more.take(at as int)).push(more[at as int]) == before + more.take(at + 1));
        at = at + 1;
    }
    assert(more.take(images.len() as int) == more);
}

/// The arguments of a turn. Images that are no addresses are found in `image_directory`.
pub fn exec_args(
    request: &ChatCompletionRequest,
    cwd: &str,
    image_directory: &str,
    schema_path: &Option<String>,
    bundle: &PromptBundle,
    existing_session: &Option<SessionRecord>,
) -> (outcome: Result<Vec<String>, AppError>)
    ensures
        outcome is Ok,
        texts(outcome->Ok_0@) == turn_arguments(
            *request,
            cwd@,
            image_arguments(image_views(bundle.images@), image_directory@),
            text_of(*schema_path),
            text_of(bundle.developer_instructions),
            thread_of(*existing_session),
        ),
{
    let mut arguments: Vec<String> = Vec::new();
    assert(texts(arguments@) == Seq::<Seq<char>>::empty());
    add_argument(&mut arguments, "exec");
    add_argument(&mut arguments, "--json");
    add_argument(&mut arguments, "--skip-git-repo-check");
    add_argument(&mut arguments, "--model");
    add_argument(&mut arguments, request.model.as_str());
    add_argument(&mut arguments, "--cd");
    add_argument(&mut arguments, cwd);
    add_argument(&mut arguments, "--sandbox");
    add_argument(&mut arguments, sandbox_mode(request));
    add_argument(&mut arguments, "-c");
    add_argument(&mut arguments, "approval_policy=\"never\"");
    add_argument(&mut arguments, "-c");
    add_argument(
        &mut arguments,
        concat3("web_search=\"", web_search_mode(request), "\"").as_str(),
    );
    add_argument(&mut arguments, "-c");
    add_argument(&mut arguments, "features.apps=false");
    add_argument(&mut arguments, "-c");
    add_argument(
        &mut arguments,
        concat("features.shell_tool=", truth_word(request.enable_tools())).as_str(),
    );
    assert(texts(arguments@) == base_arguments(*request, cwd@));
    add_images(&mut arguments, &bundle.images, image_directory);
    add_pair(&mut arguments, "--output-schema", schema_path);
    match setting("developer_instructions", &bundle.developer_instructions) {
        Ok(value) => {
            add_pair(&mut arguments, "-c", &value);
        },
        Err(error) => {
            return Err(error);
        },
    }
    match setting("model_reasoning_effort", &request.reasoning_effort) {
        Ok(value) => {
            add_pair(&mut arguments, "-c", &value);
        },
        Err(error) => {
            return Err(error);
        },
    }
    let thread_id = match existing_session {
        Some(session) => Some(session.thread_id.clone()),
        None => None,
    };
    add_pair(&mut arguments, "resume", &thread_id);
    Ok(arguments)
}

/// What a line of output is, by the type that it names.
#[derive(Debug)]
pub enum ExecLine {
    /// A blank line, or an event that carries nothing of interest.
    Nothing,
    /// The thread that the turn belongs to.
    ThreadStarted(Option<String>),
    /// A finished item, still to be decoded.
    ItemCompleted(JsonValue),
    /// A finished turn, still to be decoded.
    TurnCompleted(JsonValue),
    /// A failed turn, still to be decoded.
    TurnFailed(JsonValue),
    /// An error report, with its message where it has one.
    ErrorReport(Option<String>),
}

/// The type that an event names; empty where it names none.
pub open spec fn event_type(value: JsonView) -> Seq<char> {
    match text_field(value, "type"@) {
        Some(name) => name,
        None => Seq::empty(),
    }
}

/// Whether `line` is what an event means.
pub open spec fn event_means(value: JsonView, line: ExecLine) -> bool {
    let name = event_type(value);
    if name == "thread.started"@ {
        line matches ExecLine::ThreadStarted(thread_id) && text_of(thread_id) == text_field(
            value,
            "thread_id"@,
        )
    } else if name == "item.completed"@ {
        line matches ExecLine::ItemCompleted(item) && item@ == value
    } else if name == "turn.completed"@ {
        line matches ExecLine::TurnCompleted(turn) && turn@ == value
    } else if name == "turn.failed"@ {
        line matches ExecLine::TurnFailed(turn) && turn@ == value
    } else if name == "error"@ {
        line matches ExecLine::ErrorReport(message) && text_of(message) == text_field(
            value,
            "message"@,
        )
    } else {
        line is Nothing
    }
}

fn owned(text: Option<&str>) -> (copy: Option<String>)
    ensures
        text_of(copy) == slice_text(text),
{
    match text {
        Some(t) => Some(t.to_owned()),
        None => None,
    }
}

/// What an event means.
pub fn read_exec_event(value: JsonValue) -> (line: ExecLine)
    ensures
        event_means(value@, line),
{
    let name = match value.text_at("type") {
        Some(text) => text.to_owned(),
        None => String::new(),
    };
    assert(name@ == event_type(value@));
    if same(name.as_str(), "thread.started") {
        ExecLine::ThreadStarted(owned(value.text_at("thread_id")))
    } else if same(name.as_str(), "item.completed") {
        ExecLine::ItemCompleted(value)
    } else if same(name.as_str(), "turn.completed") {
        ExecLine::TurnCompleted(value)
    } else if same(name.as_str(), "turn.failed") {
        ExecLine::TurnFailed(value)
    } else if same(name.as_str(), "error") {
        ExecLine::ErrorReport(owned(value.text_at("message")))
    } else {
        ExecLine::Nothing
    }
}

/// What a line of output means. A line that is neither blank nor JSON is an error.
pub fn read_exec_line(line: &str) -> (outcome: Result<ExecLine, AppError>)
    ensures
        if is_blank(line@) {
            outcome is Ok && outcome->Ok_0 is Nothing
        } else {
            match json_document(line@) {
                Ok(value) => outcome is Ok && event_means(value, outcome->Ok_0),
                Err(text) => outcome is Err && (outcome->Err_0 matches AppError::Json(message)
                    && message@ == text),
            }
        },
{
    if blank(line) {
        return Ok(ExecLine::Nothing);
    }
    match JsonValue::parse(line) {
        Ok(value) => Ok(read_exec_event(value)),
        Err(message) => Err(AppError::Json(message)),
    }
}

/// A finished item of a turn.
#[derive(Debug)]
pub enum ExecItem {
    /// The assistant said this.
    AgentMessage { text: String },
    /// Something went wrong on the way, but not with the turn.
    Error { message: String },
    /// Anything else.
    Other,
}

/// What happened in a turn.
#[derive(Debug)]
pub enum ExecEvent {
    /// The turn belongs to this thread; none where the report names none.
    Thread(Option<String>),
    /// An item was finished.
    Item(ExecItem),
    /// The turn ended with this usage.
    Usage(ExecUsage),
    /// The turn failed.
    Failure(String),
}

/// What is known of a turn so far.
#[derive(Debug)]
pub struct ExecTurn {
    pub thread_id: Option<String>,
    pub answer: Option<String>,
    pub usage: Option<ExecUsage>,
    pub failure: Option<String>,
}

/// The result of a turn.
#[derive(Debug)]
pub struct ExecChatResult {
    pub thread_id: String,
    pub text: String,
    pub usage: ExecUsage,
}

/// What a turn comes to, once the process has ended.
pub enum TurnEnd {
    Failed(Seq<char>),
    Done(Seq<char>, Seq<char>, ExecUsage),
}

/// How a turn ends: a reported failure first, then the exit status, then what is missing.
pub open spec fn turn_end(
    turn: ExecTurn,
    success: bool,
    status: Seq<char>,
    stderr: Seq<char>,
) -> TurnEnd {
    if turn.failure is Some {
        TurnEnd::Failed(turn.failure->0@)
    } else if !success {
        TurnEnd::Failed(
            if is_blank(stderr) {
                "codex exec exited with status "@ + status
            } else {
                stderr
            },
        )
    } else if turn.thread_id is None {
        TurnEnd::Failed("codex exec did not return a thread id"@)
    } else if turn.usage is None {
        TurnEnd::Failed("codex exec did not return usage metadata"@)
    } else {
        TurnEnd::Done(
            turn.thread_id->0@,
            match turn.answer {
                Some(text) => text@,
                None => Seq::empty(),
            },
            turn.usage->0,
        )
    }
}

/// The turn after an event: the latest report of each kind counts, and of the items only what
/// the assistant said.
pub open spec fn turn_after(turn: ExecTurn, event: ExecEvent) -> ExecTurn {
    match event {
        ExecEvent::Thread(thread_id) => ExecTurn { thread_id, ..turn },
        ExecEvent::Item(ExecItem::AgentMessage { text }) => ExecTurn { answer: Some(text), ..turn },
        ExecEvent::Item(_) => turn,
        ExecEvent::Usage(usage) => ExecTurn { usage: Some(usage), ..turn },
        ExecEvent::Failure(message) => ExecTurn { failure: Some(message), ..turn },
    }
}

impl ExecTurn {
    /// A turn of which nothing is known but the thread that it resumes.
    pub fn new(existing_session: &Option<SessionRecord>) -> (turn: ExecTurn)
        ensures
            text_of(turn.thread_id) == thread_of(*existing_session),
            turn.answer is None,
            turn.usage is None,
            turn.failure is None,
    {
        let thread_id = match existing_session {
            Some(session) => Some(session.thread_id.clone()),
            None => None,
        };
        ExecTurn { thread_id, answer: None, usage: None, failure: None }
    }

    /// Takes an event into account.
    pub fn apply(&mut self, event: ExecEvent)
        ensures
            *final(self) == turn_after(*old(self), event),
    {
        match event {
            ExecEvent::Thread(thread_id) => {
                self.thread_id = thread_id;
            },
            ExecEvent::Item(ExecItem::AgentMessage { text }) => {
                self.answer = Some(text);
            },
            ExecEvent::Item(_) => {},
            ExecEvent::Usage(usage) => {
                self.usage = Some(usage);
            },
            ExecEvent::Failure(message) => {
                self.failure = Some(message);
            },
        }
    }

    /// The result of the turn, once the process has ended.
    pub fn finish(self, success: bool, status: &str, stderr: &str) -> (outcome: Result<
        ExecChatResult,
        AppError,
    >)
        ensures
            match outcome {
                Ok(result) => turn_end(self, success, status@, stderr@) == TurnEnd::Done(
                    result.thread_id@,
                    result.text@,
                    result.usage,
                ),
                Err(error) => error matches AppError::Codex(message) && turn_end(
                    self,
                    success,
                    status@,
                    stderr@,
                ) == TurnEnd::Failed(message@),
            },
    {
        match self.failure {
            Some(message) => {
                return Err(AppError::Codex(message));
            },
            None => {},
        }
        if !success {
            let detail = if blank(stderr) {
                concat("codex exec exited with status ", status)
            } else {
                stderr.to_owned()
            };
            return Err(AppError::Codex(detail));
        }
        let thread_id = match self.thread_id {
            Some(thread_id) => thread_id,
            None => {
                return Err(
                    AppError::Codex("codex exec did not return a thread id".to_owned()),
                );
            },
        };
        let text = match self.answer {
            Some(text) => text,
            None => String::new(),
        };
        match self.usage {
            Some(usage) => Ok(ExecChatResult { thread_id, text, usage }),
            None => Err(AppError::Codex("codex exec did not return usage metadata".to_owned())),
        }
    }
}

/// A turn of a known session resumes its thread, and names it last; any other turn resumes
/// nothing.
pub proof fn law_only_known_sessions_resume(
    request: ChatCompletionRequest,
    cwd: Seq<char>,
    images: Seq<Seq<char>>,
    schema_path: Option<Seq<char>>,
    instructions: Option<Seq<char>>,
    thread_id: Seq<char>,
)
    ensures
        ({
            let fresh = turn_arguments(request, cwd, images, schema_path, instructions, None);
            turn_arguments(request, cwd, images, schema_path, instructions, Some(thread_id))
                == fresh.push("resume"@).push(thread_id)
        }),
{
}

/// A failure that the turn reported is what the caller is told, however the process ended.
pub proof fn law_reported_failure_wins(
    turn: ExecTurn,
    message: String,
    success: bool,
    status: Seq<char>,
    stderr: Seq<char>,
)
    ensures
        turn_end(turn_after(turn, ExecEvent::Failure(message)), success, status, stderr)
            == TurnEnd::Failed(message@),
{
}

proof fn lemma_event_types()
    ensures
        "thread.started"@ != "item.completed"@,
        "thread.started"@ != "turn.completed"@,
        "thread.started"@ != "turn.failed"@,
        "thread.started"@ != "error"@,
        "item.completed"@ != "turn.completed"@,
        "item.completed"@ != "turn.failed"@,
        "item.completed"@ != "error"@,
        "turn.completed"@ != "turn.failed"@,
        "turn.completed"@ != "error"@,
        "turn.failed"@ != "error"@,
{
    reveal_strlit("thread.started");
    reveal_strlit("item.completed");
    reveal_strlit("turn.completed");
    reveal_strlit("turn.failed");
    reveal_strlit("error");
    assert("thread.started"@[0] != "item.completed"@[0]);
    assert("thread.started"@[1] != "turn.completed"@[1]);
    assert("thread.started"@.len() != "turn.failed"@.len());
    assert("thread.started"@.len() != "error"@.len());
    assert("item.completed"@[0] != "turn.completed"@[0]);
    assert("item.completed"@.len() != "turn.failed"@.len());
    assert("item.completed"@.len() != "error"@.len());
    assert("turn.completed"@.len() != "turn.failed"@.len());
    assert("turn.completed"@.len() != "error"@.len());
    assert("turn.failed"@.len() != "error"@.len());
}

/// The turn after all of these events.
pub open spec fn turn_over(turn: ExecTurn, events: Seq<ExecEvent>) -> ExecTurn
    decreases events.len(),
{
    if events.len() == 0 {
        turn
    } else {
        turn_after(turn_over(turn, events.drop_last()), events.last())
    }
}

/// Whether the assistant says something in an event.
pub open spec fn is_agent_message(event: ExecEvent) -> bool {
    event matches ExecEvent::Item(item) && item is AgentMessage
}

/// A turn that failed nowhere and knows its thread and usage ends, once the process succeeded,
/// with its answer whole: every character of what the assistant said last, and nothing only
/// where the assistant said nothing.
pub proof fn law_answer_is_returned_whole(turn: ExecTurn, status: Seq<char>, stderr: Seq<char>)
    requires
        turn.failure is None,
        turn.thread_id is Some,
        turn.usage is Some,
    ensures
        ({
            let end = turn_end(turn, true, status, stderr);
            &&& end is Done
            &&& end->Done_0 == turn.thread_id->0@
            &&& turn.answer matches Some(text) ==> end->Done_1 == text@
            &&& turn.answer is None ==> end->Done_1.len() == 0
            &&& end->Done_2 == turn.usage->0
        }),
{
}

/// A turn never ends well where something is missing: not after a failure, not where the
/// process failed, and not without a thread or a usage.
pub proof fn law_turn_ends_well_only_with_everything(
    turn: ExecTurn,
    success: bool,
    status: Seq<char>,
    stderr: Seq<char>,
)
    ensures
        turn_end(turn, success, status, stderr) is Done <==> success && turn.failure is None
            && turn.thread_id is Some && turn.usage is Some,
{
}

/// Where the process failed and the turn reported nothing, the caller is told what the process
/// wrote to its error output, as it stands; where that is blank, the exit status.
pub proof fn law_failed_process_is_told(
    turn: ExecTurn,
    status: Seq<char>,
    stderr: Seq<char>,
)
    requires
        turn.failure is None,
    ensures
        ({
            let end = turn_end(turn, false, status, stderr);
            &&& end is Failed
            &&& !is_blank(stderr) ==> end->Failed_0 == stderr
            &&& is_blank(stderr) ==> end->Failed_0 == "codex exec exited with status "@ + status
        }),
{
}

/// What is missing from a turn that otherwise succeeded is named.
pub proof fn law_missing_reports_are_named(turn: ExecTurn, status: Seq<char>, stderr: Seq<char>)
    requires
        turn.failure is None,
    ensures
        turn.thread_id is None ==> {
            let end = turn_end(turn, true, status, stderr);
            end is Failed && end->Failed_0 == "codex exec did not return a thread id"@
        },
        turn.thread_id is Some && turn.usage is None ==> {
            let end = turn_end(turn, true, status, stderr);
            end is Failed && end->Failed_0 == "codex exec did not return usage metadata"@
        },
{
}

proof fn lemma_answer_over(turn: ExecTurn, events: Seq<ExecEvent>, at: int, text: String)
    requires
        0 <= at < events.len(),
        events[at] == ExecEvent::Item(ExecItem::AgentMessage { text }),
        forall|j: int| at < j < events.len() ==> !is_agent_message(#[trigger] events[j]),
    ensures
        turn_over(turn, events).answer == Some(text),
    decreases events.len(),
{
    if at < events.len() - 1 {
        let earlier = events.drop_last();
        assert forall|j: int| at < j < earlier.len() implies !is_agent_message(
            #[trigger] earlier[j],
        ) by {
            assert(earlier[j] == events[j]);
        }
        lemma_answer_over(turn, earlier, at, text);
        assert(!is_agent_message(events[events.len() - 1]));
    }
}

proof fn lemma_no_failure_over(turn: ExecTurn, events: Seq<ExecEvent>)
    requires
        forall|j: int| 0 <= j < events.len() ==> !((#[trigger] events[j]) is Failure),
    ensures
        turn_over(turn, events).failure == turn.failure,
    decreases events.len(),
{
    if events.len() > 0 {
        let earlier = events.drop_last();
        assert forall|j: int| 0 <= j < earlier.len() implies !((
        #[trigger] earlier[j]) is Failure) by {
            assert(earlier[j] == events[j]);
        }
        lemma_no_failure_over(turn, earlier);
        assert(!(events[events.len() - 1] is Failure));
    }
}

/// The answer of a turn is what the assistant said last, whatever else happened before and
/// after: a turn whose events end with that message, report a thread and a usage and no failure
/// comes to exactly that text.
pub proof fn law_last_agent_message_is_the_answer(
    turn: ExecTurn,
    events: Seq<ExecEvent>,
    at: int,
    text: String,
    status: Seq<char>,
    stderr: Seq<char>,
)
    requires
        turn.failure is None,
        0 <= at < events.len(),
        events[at] == ExecEvent::Item(ExecItem::AgentMessage { text }),
        forall|j: int|
            at < j < events.len() ==> !((#[trigger] events[j]) is Item
                && events[j]->Item_0 is AgentMessage),
        forall|j: int| 0 <= j < events.len() ==> !((#[trigger] events[j]) is Failure),
        turn_over(turn, events).thread_id is Some,
        turn_over(turn, events).usage is Some,
    ensures
        ({
            let end = turn_end(turn_over(turn, events), true, status, stderr);
            end is Done && end->Done_1 == text@
        }),
{
    lemma_answer_over(turn, events, at, text);
    lemma_no_failure_over(turn, events);
}

/// Each event changes what it reports and nothing else; an item that is no message of the
/// assistant changes nothing.
pub proof fn law_events_change_what_they_report(
    turn: ExecTurn,
    thread_id: Option<String>,
    text: String,
    usage: ExecUsage,
)
    ensures
        turn_after(turn, ExecEvent::Thread(thread_id)).thread_id == thread_id,
        turn_after(turn, ExecEvent::Thread(thread_id)).answer == turn.answer,
        turn_after(turn, ExecEvent::Thread(thread_id)).usage == turn.usage,
        turn_after(turn, ExecEvent::Thread(thread_id)).failure == turn.failure,
        turn_after(turn, ExecEvent::Item(ExecItem::AgentMessage { text })).answer == Some(text),
        turn_after(turn, ExecEvent::Item(ExecItem::AgentMessage { text })).thread_id
            == turn.thread_id,
        turn_after(turn, ExecEvent::Item(ExecItem::AgentMessage { text })).usage == turn.usage,
        turn_after(turn, ExecEvent::Item(ExecItem::AgentMessage { text })).failure == turn.failure,
        turn_after(turn, ExecEvent::Item(ExecItem::Error { message: text })) == turn,
        turn_after(turn, ExecEvent::Item(ExecItem::Other)) == turn,
        turn_after(turn, ExecEvent::Usage(usage)).usage == Some(usage),
        turn_after(turn, ExecEvent::Usage(usage)).thread_id == turn.thread_id,
        turn_after(turn, ExecEvent::Usage(usage)).answer == turn.answer,
        turn_after(turn, ExecEvent::Usage(usage)).failure == turn.failure,
        turn_after(turn, ExecEvent::Failure(text)).failure == Some(text),
        turn_after(turn, ExecEvent::Failure(text)).answer == turn.answer,
{
}

/// An event means what its type names: a started thread its id, an error its message, and an
/// item or the end of a turn the event itself, to be decoded; any other event means nothing.
pub proof fn law_exec_events_mean_what_they_name(
    members: Map<Seq<char>, JsonView>,
    name: Seq<char>,
    text: Seq<char>,
    line: ExecLine,
)
    requires
        members.contains_key("type"@),
        members["type"@] == JsonView::Text(name),
        event_means(JsonView::Object(members), line),
    ensures
        name == "thread.started"@ && members.contains_key("thread_id"@) && members["thread_id"@]
            == JsonView::Text(text) ==> {
            &&& line is ThreadStarted
            &&& line->ThreadStarted_0 is Some
            &&& line->ThreadStarted_0->0@ == text
        },
        name == "item.completed"@ ==> line is ItemCompleted && line->ItemCompleted_0@
            == JsonView::Object(members),
        name == "turn.completed"@ ==> line is TurnCompleted && line->TurnCompleted_0@
            == JsonView::Object(members),
        name == "turn.failed"@ ==> line is TurnFailed && line->TurnFailed_0@ == JsonView::Object(
            members,
        ),
        name == "error"@ && members.contains_key("message"@) && members["message"@]
            == JsonView::Text(text) ==> {
            &&& line is ErrorReport
            &&& line->ErrorReport_0 is Some
            &&& line->ErrorReport_0->0@ == text
        },
        name != "thread.started"@ && name != "item.completed"@ && name != "turn.completed"@ && name
            != "turn.failed"@ && name != "error"@ ==> line is Nothing,
{
    lemma_event_types();
}

/// The first arguments of a turn are fixed by the request: its model and directory as they
/// stand, a sandbox that can be written to exactly where tools are allowed, live web search
/// exactly where it is asked for, and never an approval or an app.
pub proof fn law_arguments_say_what_the_request_allows(
    request: ChatCompletionRequest,
    cwd: Seq<char>,
    images: Seq<Seq<char>>,
    schema_path: Option<Seq<char>>,
    instructions: Option<Seq<char>>,
    thread_id: Option<Seq<char>>,
)
    ensures
        ({
            let arguments = turn_arguments(
                request,
                cwd,
                images,
                schema_path,
                instructions,
                thread_id,
            );
            let named = request.tools is Some || request.tool_choice is Some;
            let tools = request.enable_tools == Some(true) || request.enable_tools is None && named;
            &&& arguments[0] == "exec"@
            &&& arguments[1] == "--json"@
            &&& arguments[2] == "--skip-git-repo-check"@
            &&& arguments[3] == "--model"@
            &&& arguments[4] == request.model@
            &&& arguments[5] == "--cd"@
            &&& arguments[6] == cwd
            &&& arguments[7] == "--sandbox"@
            &&& tools ==> arguments[8] == "workspace-write"@
            &&& !tools ==> arguments[8] == "read-only"@
            &&& arguments[9] == "-c"@
            &&& arguments[10] == "approval_policy=\"never\""@
            &&& arguments[11] == "-c"@
            &&& request.enable_web_search == Some(true) ==> arguments[12] == "web_search=\""@
                + "live"@ + "\""@
            &&& request.enable_web_search != Some(true) ==> arguments[12] == "web_search=\""@
                + "disabled"@ + "\""@
            &&& arguments[13] == "-c"@
            &&& arguments[14] == "features.apps=false"@
            &&& arguments[15] == "-c"@
            &&& tools ==> arguments[16] == "features.shell_tool="@ + "true"@
            &&& !tools ==> arguments[16] == "features.shell_tool="@ + "false"@
        }),
{
}

/// What a turn needs beside that follows in order, each where there is any and nothing else: the
/// images, the schema, the instructions, the effort, and the thread to resume.
pub proof fn law_arguments_carry_all_that_the_turn_needs(
    request: ChatCompletionRequest,
    cwd: Seq<char>,
    images: Seq<Seq<char>>,
    schema_path: Option<Seq<char>>,
    instructions: Option<Seq<char>>,
    thread_id: Option<Seq<char>>,
    at: int,
)
    ensures
        ({
            let arguments = turn_arguments(
                request,
                cwd,
                images,
                schema_path,
                instructions,
                thread_id,
            );
            let schema = 17 + images.len() as int;
            let guided = schema + if schema_path is Some {
                2int
            } else {
                0
            };
            let reasoned = guided + if instructions is Some {
                2int
            } else {
                0
            };
            let resumed = reasoned + if request.reasoning_effort is Some {
                2int
            } else {
                0
            };
            let end = resumed + if thread_id is Some {
                2int
            } else {
                0
            };
            &&& arguments.len() == end
            &&& 0 <= at < images.len() ==> arguments[17 + at] == images[at]
            &&& schema_path matches Some(path) ==> arguments[schema] == "--output-schema"@
                && arguments[schema + 1] == path
            &&& instructions matches Some(text) ==> arguments[guided] == "-c"@ && arguments[guided
                + 1] == "developer_instructions"@ + "="@ + quoted(text)
            &&& request.reasoning_effort matches Some(effort) ==> arguments[reasoned] == "-c"@
                && arguments[reasoned + 1] == "model_reasoning_effort"@ + "="@ + quoted(effort@)
            &&& thread_id matches Some(thread) ==> arguments[resumed] == "resume"@
                && arguments[resumed + 1] == thread
        }),
{
}

/// The argument for an image at an address is that address; an image that is handed over itself
/// is named by its file in the directory.
pub proof fn law_image_arguments_name_the_image(
    images: Seq<ImageView>,
    directory: Seq<char>,
    at: int,
    url: Seq<char>,
)
    requires
        0 <= at < images.len(),
    ensures
        image_arguments(images, directory).len() == images.len(),
        images[at] == ImageView::Url(url) ==> image_arguments(images, directory)[at] == "--image="@
            + url,
        images[at] is Data ==> image_arguments(images, directory)[at] == "--image="@ + (directory
            + "/"@ + file_name(at as nat, images[at]->media_type)),
{
}

/// An event without a type means nothing; a started thread without an id, and an error without a
/// message, are reported without one.
pub proof fn law_incomplete_events_are_reported_as_such(
    members: Map<Seq<char>, JsonView>,
    line: ExecLine,
)
    requires
        event_means(JsonView::Object(members), line),
    ensures
        !members.contains_key("type"@) ==> line is Nothing,
        members.contains_key("type"@) && members["type"@] == JsonView::Text("thread.started"@)
            && !members.contains_key("thread_id"@) ==> line is ThreadStarted
            && line->ThreadStarted_0 is None,
        members.contains_key("type"@) && members["type"@] == JsonView::Text("error"@)
            && !members.contains_key("message"@) ==> line is ErrorReport
            && line->ErrorReport_0 is None,
{
    lemma_event_types();
    reveal_strlit("thread.started");
    reveal_strlit("item.completed");
    reveal_strlit("turn.completed");
    reveal_strlit("turn.failed");
    reveal_strlit("error");
    assert("thread.started"@.len() > 0 && "item.completed"@.len() > 0);
    assert("turn.completed"@.len() > 0 && "turn.failed"@.len() > 0 && "error"@.len() > 0);
}

} // verus!
