//! One request from its arrival to the turn that it becomes.

use crate::config::AppConfig;
use crate::error::AppError;
use crate::exec::{image_argument, image_arguments, turn_arguments};
use crate::image::{image_item, image_views, ImageView};
use crate::json::{text_field, text_of};
use crate::models::{
    first_default, goes_by, law_offered_models_resolve, resolve_model, resolved_model,
    unsupported_model, CodexModel,
};
use crate::prompt::{
    build_prompt_bundle, image_inputs, instruction_parts, prompt_text, turns, PromptBundle,
};
use crate::reasoning::{
    alias_conflicts, alias_parts, apply_configured_default_model, asks_for_default, cleaned_effort,
    conflict_message, is_effort, law_alias_is_trimmed, law_alias_stands_for_base_and_effort,
    law_efforts_stand_for_themselves,
    normalize_model_and_reasoning, normalized_model, shape_complaint, validate_chat_request_shape,
    with_default_model,
};
use crate::request::{copy_text, ChatCompletionRequest};
use crate::sessions::{updated_record, SessionRecord, SessionStore, SessionView};
use crate::text::{
    ascii_lower, joined, law_splitting_cuts_at_the_last, lemma_last_position,
    lemma_trimmed_idempotent, lowered, split_at_last, trimmed,
};
use crate::thread::{
    law_only_resuming_names_a_thread, thread_method, thread_params, turn_input,
};
use vstd::prelude::*;

verus! {

/// What a request asked for, before its model was settled.
#[derive(Debug)]
pub struct Requested {
    pub model: String,
    pub reasoning_effort: Option<String>,
}

/// What a turn is made from.
#[derive(Debug)]
pub struct TurnPlan {
    /// The session that the turn continues.
    pub existing_session: Option<SessionRecord>,
    pub bundle: PromptBundle,
}

/// Why a request is refused on arrival, where it is: a contradiction between its model and its
/// effort comes before its shape.
pub open spec fn refusal(request: ChatCompletionRequest) -> Option<Seq<char>> {
    let effort = text_of(request.reasoning_effort);
    if alias_conflicts(request.model@, effort) {
        Some(
            conflict_message(
                trimmed(request.model@),
                (alias_parts(trimmed(request.model@))->0).1,
                cleaned_effort(effort)->0,
            ),
        )
    } else {
        shape_complaint(request)
    }
}

/// The model and effort that a request comes to on arrival.
pub open spec fn admitted_model(config: AppConfig, request: ChatCompletionRequest) -> (
    Seq<char>,
    Option<Seq<char>>,
) {
    let (model, effort) = normalized_model(request.model@, text_of(request.reasoning_effort));
    with_default_model(config, model, effort)
}

/// Whether the requests differ in model and effort alone.
pub open spec fn same_but_model(one: ChatCompletionRequest, other: ChatCompletionRequest) -> bool {
    one == (ChatCompletionRequest {
        model: one.model,
        reasoning_effort: one.reasoning_effort,
        ..other
    })
}

/// Settles the model and effort of a request on arrival, and checks its shape.
pub fn admit_request(config: &AppConfig, request: &mut ChatCompletionRequest) -> (outcome: Result<
    Requested,
    AppError,
>)
    ensures
        same_but_model(*final(request), *old(request)),
        match outcome {
            Ok(requested) => {
                &&& refusal(*old(request)) is None
                &&& requested.model == old(request).model
                &&& requested.reasoning_effort == old(request).reasoning_effort
                &&& (final(request).model@, text_of(final(request).reasoning_effort))
                    == admitted_model(*config, *old(request))
            },
            Err(error) => error matches AppError::BadRequest(message) && refusal(*old(request))
                == Some(message@),
        },
{
    let requested = Requested {
        model: request.model.clone(),
        reasoning_effort: copy_text(&request.reasoning_effort),
    };
    match normalize_model_and_reasoning(request) {
        Ok(_) => {},
        Err(error) => {
            return Err(error);
        },
    }
    apply_configured_default_model(config, request);
    match validate_chat_request_shape(request) {
        Ok(_) => Ok(requested),
        Err(error) => Err(error),
    }
}

/// The known session that a request belongs to.
pub open spec fn session_for(
    sessions: Map<Seq<char>, SessionView>,
    session_id: Option<Seq<char>>,
) -> Option<SessionView> {
    match session_id {
        Some(id) => if sessions.contains_key(id) {
            Some(sessions[id])
        } else {
            None
        },
        None => None,
    }
}

/// The value of an optional record.
pub open spec fn record_of(record: Option<SessionRecord>) -> Option<SessionView> {
    match record {
        Some(r) => Some(r@),
        None => None,
    }
}

/// The message for a request without a conversation.
pub open spec fn nothing_to_say() -> Seq<char> {
    "No user-visible conversation content was found in `messages`."@
}

/// Plans the turn of an admitted request: resolves its model, finds its session and writes its
/// prompt.
pub fn plan_turn(
    models: &Vec<CodexModel>,
    default_model: &str,
    store: &SessionStore,
    request: &mut ChatCompletionRequest,
) -> (outcome: Result<TurnPlan, AppError>)
    requires
        store.well_formed(),
    ensures
        ({
            let resolved = resolved_model(models@, default_model@, old(request).model@);
            let session = session_for(store@, text_of(old(request).session_id));
            let conversation = turns(old(request).messages@);
            &&& *final(request) == (ChatCompletionRequest {
                model: final(request).model,
                ..*old(request)
            })
            &&& final(request).model@ == (match resolved {
                Some(model) => model,
                None => old(request).model@,
            })
            &&& match outcome {
                Ok(plan) => {
                    &&& resolved is Some
                    &&& conversation.len() > 0
                    &&& record_of(plan.existing_session) == session
                    &&& plan.bundle.prompt@ == prompt_text(conversation, session is Some)
                    &&& image_views(plan.bundle.images@) == image_inputs(
                        old(request).messages@,
                        session is Some,
                    )
                    &&& text_of(plan.bundle.developer_instructions) == Some(
                        joined(instruction_parts(*final(request), session is Some), "\n\n"@),
                    )
                },
                Err(error) => {
                    &&& error matches AppError::BadRequest(message)
                    &&& if resolved is None {
                        message@ == unsupported_model(old(request).model@)
                    } else {
                        conversation.len() == 0 && message@ == nothing_to_say()
                    }
                },
            }
        }),
{
    match resolve_model(models, default_model, request.model.as_str()) {
        Ok(model) => {
            request.model = model;
        },
        Err(error) => {
            return Err(error);
        },
    }
    let existing_session = match &request.session_id {
        Some(session_id) => store.get(session_id.as_str()),
        None => None,
    };
    match build_prompt_bundle(request, existing_session.is_some()) {
        Ok(bundle) => Ok(TurnPlan { existing_session, bundle }),
        Err(error) => Err(error),
    }
}

proof fn lemma_default_is_no_alias(model: Seq<char>)
    requires
        asks_for_default(model),
    ensures
        alias_parts(trimmed(model)) is None,
        asks_for_default(trimmed(model)),
{
    let name = trimmed(model);
    lemma_trimmed_idempotent(model);
    reveal_strlit("default");
    let word = "default"@;
    assert(forall|k: int| 0 <= k < word.len() ==> #[trigger] word[k] != '-');
    assert forall|j: int| -1 < j < name.len() implies #[trigger] name[j] != '-' by {
        assert(lowered(name) == word);
        assert(lowered(name).len() == name.len());
        assert(lowered(name)[j] == ascii_lower(name[j]));
        assert(word[j] != '-');
    }
    lemma_last_position(name, '-', -1);
}

/// A request for the default model gets the configured one; where none is configured, what
/// Codex marks as its default decides, and the built-in name only where Codex marks none.
pub proof fn law_default_requests_resolve(
    config: AppConfig,
    request: ChatCompletionRequest,
    models: Seq<CodexModel>,
)
    requires
        asks_for_default(request.model@),
    ensures
        refusal(request) == shape_complaint(request),
        config.has_explicit_default_model ==> admitted_model(config, request).0
            == config.default_model@,
        !config.has_explicit_default_model ==> resolved_model(
            models,
            config.default_model@,
            admitted_model(config, request).0,
        ) == Some(
            match first_default(models) {
                Some(model) => model.model@,
                None => config.default_model@,
            },
        ),
{
    lemma_default_is_no_alias(request.model@);
}

/// A request for the alias `base-effort` of a model that Codex offers is admitted, with the
/// base as its model and the alias's effort, and its model resolves.
pub proof fn law_alias_requests_resolve(
    config: AppConfig,
    request: ChatCompletionRequest,
    models: Seq<CodexModel>,
    base: Seq<char>,
    effort: Seq<char>,
    at: int,
)
    requires
        base.len() > 0,
        trimmed(base) == base,
        !asks_for_default(base),
        is_effort(effort),
        request.model@ == base + "-"@ + effort,
        request.reasoning_effort is None,
        0 <= at < models.len(),
        goes_by(models[at], base),
    ensures
        refusal(request) == shape_complaint(request),
        admitted_model(config, request) == (base, Some(effort)),
        resolved_model(models, config.default_model@, base) is Some,
{
    law_alias_stands_for_base_and_effort(base, effort);
    lemma_trimmed_idempotent(request.model@);
    law_offered_models_resolve(models, config.default_model@, base, at);
}

/// A request without a session id, or with an unknown one, continues no session.
pub proof fn law_unknown_sessions_start_fresh(
    sessions: Map<Seq<char>, SessionView>,
    session_id: Seq<char>,
)
    requires
        !sessions.contains_key(session_id),
    ensures
        session_for(sessions, None) is None,
        session_for(sessions, Some(session_id)) is None,
{
}

/// The sessions after a turn: a request with an id is recorded under it, any other leaves no
/// trace.
pub open spec fn sessions_after(
    sessions: Map<Seq<char>, SessionView>,
    session_id: Option<Seq<char>>,
    thread_id: Seq<char>,
    model: Seq<char>,
    now: i64,
) -> Map<Seq<char>, SessionView> {
    match session_id {
        Some(id) => sessions.insert(id, updated_record(sessions, id, thread_id, model, now)),
        None => sessions,
    }
}

/// Records the turn of a request at `now`, and tells whether there is anything new to save.
pub fn record_turn(
    store: &mut SessionStore,
    request: &ChatCompletionRequest,
    thread_id: &str,
    now: i64,
) -> (recorded: bool)
    requires
        old(store).well_formed(),
    ensures
        final(store).well_formed(),
        final(store)@ == sessions_after(
            old(store)@,
            text_of(request.session_id),
            thread_id@,
            request.model@,
            now,
        ),
        recorded == (request.session_id is Some),
{
    match &request.session_id {
        Some(session_id) => {
            store.upsert(session_id.clone(), thread_id.to_owned(), request.model.clone(), now);
            true
        },
        None => false,
    }
}

/// The thread of a known session.
pub open spec fn known_thread(session: Option<SessionView>) -> Option<Seq<char>> {
    match session {
        Some(record) => Some(record.thread_id),
        None => None,
    }
}

/// A session continues: a turn with the id `session_id` ended on `thread_id` and was recorded;
/// until now, when the sessions are `later`, nothing has changed that record. Then the next
/// turn with that id resumes that thread, as arguments of `codex exec` and as a request to the
/// app-server.
pub proof fn law_session_continues_on_its_thread(
    sessions: Map<Seq<char>, SessionView>,
    session_id: Seq<char>,
    thread_id: Seq<char>,
    model: Seq<char>,
    now: i64,
    later: Map<Seq<char>, SessionView>,
    config: AppConfig,
    request: ChatCompletionRequest,
    cwd: Seq<char>,
    images: Seq<Seq<char>>,
    schema_path: Option<Seq<char>>,
    instructions: Option<Seq<char>>,
)
    requires
        ({
            let recorded = sessions_after(sessions, Some(session_id), thread_id, model, now);
            later.contains_key(session_id) && later[session_id] == recorded[session_id]
        }),
        text_of(request.session_id) == Some(session_id),
    ensures
        ({
            let thread = known_thread(session_for(later, text_of(request.session_id)));
            let arguments = turn_arguments(
                request,
                cwd,
                images,
                schema_path,
                instructions,
                thread,
            );
            &&& thread == Some(thread_id)
            &&& arguments[arguments.len() - 2] == "resume"@
            &&& arguments.last() == thread_id
            &&& thread_method(thread) == "thread/resume"@
            &&& text_field(
                thread_params(config, request, instructions, cwd, thread),
                "threadId"@,
            ) == Some(thread_id)
        }),
{
    law_only_resuming_names_a_thread(config, request, instructions, cwd, thread_id);
}

/// A request without a session id starts a fresh thread, and its turn leaves the sessions as
/// they were.
pub proof fn law_requests_without_an_id_leave_no_trace(
    sessions: Map<Seq<char>, SessionView>,
    config: AppConfig,
    request: ChatCompletionRequest,
    cwd: Seq<char>,
    instructions: Option<Seq<char>>,
    thread_id: Seq<char>,
    now: i64,
)
    requires
        request.session_id is None,
    ensures
        ({
            let thread = known_thread(session_for(sessions, text_of(request.session_id)));
            &&& thread is None
            &&& thread_method(thread) == "thread/start"@
            &&& thread_params(config, request, instructions, cwd, thread).field(
                "threadId"@,
            ) is None
        }),
        sessions_after(
            sessions,
            text_of(request.session_id),
            thread_id,
            request.model@,
            now,
        ) == sessions,
{
    law_only_resuming_names_a_thread(config, request, instructions, cwd, thread_id);
}

/// A turn changes no session but its own.
pub proof fn law_turns_leave_other_sessions_alone(
    sessions: Map<Seq<char>, SessionView>,
    session_id: Option<Seq<char>>,
    thread_id: Seq<char>,
    model: Seq<char>,
    now: i64,
    other: Seq<char>,
)
    requires
        session_id != Some(other),
    ensures
        ({
            let after = sessions_after(sessions, session_id, thread_id, model, now);
            &&& after.contains_key(other) == sessions.contains_key(other)
            &&& sessions.contains_key(other) ==> after[other] == sessions[other]
        }),
{
}

/// Every image of a turn is handed to Codex: it has an argument of `codex exec`, and an item
/// in the input of an app-server turn, and nothing else is handed over as an image.
pub proof fn law_images_are_handed_over_one_by_one(
    images: Seq<ImageView>,
    directory: Seq<char>,
    prompt: Seq<char>,
    at: int,
)
    requires
        0 <= at < images.len(),
    ensures
        image_arguments(images, directory).len() == images.len(),
        image_arguments(images, directory)[at] == image_argument(
            images[at],
            at as nat,
            directory,
        ),
        turn_input(prompt, images).len() == images.len() + 1,
        turn_input(prompt, images)[at + 1] == image_item(images[at]),
{
}

/// A request is refused on arrival where it has no message, or asks for more than one answer, and
/// told why; a request with a plain model, a message and at most one answer is not.
pub proof fn law_badly_shaped_requests_are_refused(request: ChatCompletionRequest)
    requires
        request.reasoning_effort is None,
    ensures
        request.messages@.len() == 0 ==> refusal(request) == Some("`messages` must not be empty"@),
        request.messages@.len() > 0 && request.n is Some && request.n->0 != 1 ==> refusal(request)
            == Some("This wrapper currently supports only `n = 1`."@),
        request.messages@.len() > 0 && (request.n is None || request.n == Some(1u32)) ==> refusal(
            request,
        ) is None,
{
}

/// A request with an effort that contradicts its alias is refused, and the message names the
/// model as it was asked for, the effort of the alias and the effort that was given.
pub proof fn law_contradiction_is_named(
    request: ChatCompletionRequest,
    base: Seq<char>,
    effort: Seq<char>,
    given: Seq<char>,
)
    requires
        base.len() > 0,
        trimmed(base) == base,
        effort == "minimal"@ || effort == "low"@ || effort == "medium"@ || effort == "high"@
            || effort == "xhigh"@,
        given == "minimal"@ || given == "low"@ || given == "medium"@ || given == "high"@ || given
            == "xhigh"@,
        request.model@ == base + "-"@ + effort,
        request.reasoning_effort is Some,
        request.reasoning_effort->0@ == given,
    ensures
        given != effort ==> refusal(request) == Some(
            "Model alias `"@ + request.model@ + "` implies reasoning_effort `"@ + effort
                + "`, which conflicts with explicit reasoning_effort `"@ + given + "`."@,
        ),
        given == effort ==> refusal(request) == shape_complaint(request),
{
    law_efforts_stand_for_themselves(effort);
    law_efforts_stand_for_themselves(given);
    law_alias_stands_for_base_and_effort(base, effort);
    law_alias_is_trimmed(base, effort);
}

/// A known session is found under its id, whole; an unknown id, or none, finds nothing.
pub proof fn law_session_is_found_by_its_id(
    sessions: Map<Seq<char>, SessionView>,
    session_id: Seq<char>,
)
    ensures
        sessions.contains_key(session_id) ==> session_for(sessions, Some(session_id)) == Some(
            sessions[session_id],
        ) && known_thread(session_for(sessions, Some(session_id))) == Some(
            sessions[session_id].thread_id,
        ),
        !sessions.contains_key(session_id) ==> session_for(sessions, Some(session_id)) is None,
        session_for(sessions, None) is None,
{
}

/// A turn is recorded under the id of its session with its thread, its model and its time, and
/// the time of the first turn is kept.
pub proof fn law_turn_is_recorded_under_its_session(
    sessions: Map<Seq<char>, SessionView>,
    session_id: Seq<char>,
    thread_id: Seq<char>,
    model: Seq<char>,
    now: i64,
)
    ensures
        ({
            let after = sessions_after(sessions, Some(session_id), thread_id, model, now);
            &&& after.contains_key(session_id)
            &&& after[session_id].session_id == session_id
            &&& after[session_id].thread_id == thread_id
            &&& after[session_id].model == model
            &&& after[session_id].updated_at == now
            &&& sessions.contains_key(session_id) ==> after[session_id].created_at
                == sessions[session_id].created_at
            &&& !sessions.contains_key(session_id) ==> after[session_id].created_at == now
        }),
{
}

/// A request keeps all that it asks for but its model and effort.
pub proof fn law_admission_settles_model_and_effort_alone(
    before: ChatCompletionRequest,
    after: ChatCompletionRequest,
)
    requires
        same_but_model(after, before),
    ensures
        after.messages == before.messages,
        after.stream == before.stream,
        after.session_id == before.session_id,
        after.enable_tools == before.enable_tools,
        after.enable_web_search == before.enable_web_search,
        after.working_directory == before.working_directory,
        after.n == before.n,
        after.max_tokens == before.max_tokens,
        after.max_completion_tokens == before.max_completion_tokens,
        after.temperature == before.temperature,
        after.top_p == before.top_p,
        after.stop == before.stop,
        after.response_format == before.response_format,
        after.tools == before.tools,
        after.tool_choice == before.tool_choice,
        after.metadata == before.metadata,
        after.user == before.user,
        after.include_wrapper_metadata == before.include_wrapper_metadata,
        after.stream_options == before.stream_options,
{
}

/// A request for a model by a plain name is admitted with that name and its own effort: neither
/// the configured model nor its effort takes their place.
pub proof fn law_named_model_is_kept(
    config: AppConfig,
    request: ChatCompletionRequest,
    model: Seq<char>,
)
    requires
        request.model@ == model,
        trimmed(model) == model,
        model.len() > 0,
        !model.contains('-'),
        lowered(model) != "default"@,
        request.reasoning_effort is None,
    ensures
        admitted_model(config, request) == (model, None::<Seq<char>>),
{
    law_splitting_cuts_at_the_last(model, '-');
    if let Some((head, tail)) = split_at_last(model, '-') {
        assert(model[head.len() as int] == '-');
        assert(model.contains('-'));
    }
}

/// The session of a plan is the one that was found.
pub proof fn law_planned_session_is_the_one_found(record: SessionRecord)
    ensures
        record_of(Some(record)) == Some(record@),
        record_of(None) is None,
{
}

} // verus!
