//! The prompt and the developer instructions that a request becomes.

use crate::error::AppError;
use crate::image::{
    image_url, image_views, law_image_keeps_its_address, ImageInput, ImageView,
};
use crate::json::{json_text, text_of};
use crate::request::{
    images_of_message, law_message_images_hold_every_part, law_message_text_holds_every_part,
    message_images, message_text, normalize_message_text, part_image, part_text, stop_texts,
    token_limit, tools_enabled, web_search_enabled, ChatCompletionRequest, ChatMessage,
    ImageUrlPayload, MessagePart, StopSequences, TemperatureBand,
};
use crate::text::{
    ascii_upper, blank, concat, concat3, decimal, decimal_text, is_blank, join, joined,
    law_joining_keeps_every_part, law_occurrence,
    lemma_not_blank, lemma_occurs_in_joined, lemma_occurs_in_part, lemma_occurs_transitive,
    occurs_in, same, texts, upper_char,
};
use vstd::prelude::*;

verus! {

/// What Codex is given: the prompt of the turn and its images, and instructions beside it.
#[derive(Debug)]
pub struct PromptBundle {
    pub prompt: String,
    pub developer_instructions: Option<String>,
    pub images: Vec<ImageInput>,
}

/// A role with a capital first letter; no role at all reads `Message`.
pub open spec fn capitalized(role: Seq<char>) -> Seq<char> {
    if role.len() == 0 {
        "Message"@
    } else {
        seq![ascii_upper(role.first())] + role.drop_first()
    }
}

/// Whether messages of this role are instructions and no part of the conversation.
pub open spec fn is_instruction_role(role: Seq<char>) -> bool {
    role == "system"@ || role == "developer"@
}

/// Whether a message instructs.
pub open spec fn instructs(message: ChatMessage) -> bool {
    is_instruction_role(message.role@) && !is_blank(message_text(message))
}

/// Whether a message is a turn of the conversation.
pub open spec fn converses(message: ChatMessage) -> bool {
    !is_instruction_role(message.role@) && !is_blank(message_text(message))
}

/// The instructions among the messages, in order.
pub open spec fn role_instructions(messages: Seq<ChatMessage>) -> Seq<Seq<char>>
    decreases messages.len(),
{
    if messages.len() == 0 {
        Seq::empty()
    } else {
        let before = role_instructions(messages.drop_last());
        if instructs(messages.last()) {
            before.push(
                capitalized(messages.last().role@) + " instructions:\n"@ + message_text(
                    messages.last(),
                ),
            )
        } else {
            before
        }
    }
}

/// The turns of the conversation among the messages, in order: role and text.
pub open spec fn turns(messages: Seq<ChatMessage>) -> Seq<(Seq<char>, Seq<char>)>
    decreases messages.len(),
{
    if messages.len() == 0 {
        Seq::empty()
    } else {
        let before = turns(messages.drop_last());
        if converses(messages.last()) {
            before.push((messages.last().role@, message_text(messages.last())))
        } else {
            before
        }
    }
}

/// The images of all turns of the conversation, in order.
pub open spec fn all_images(messages: Seq<ChatMessage>) -> Seq<ImageView>
    decreases messages.len(),
{
    if messages.len() == 0 {
        Seq::empty()
    } else {
        let before = all_images(messages.drop_last());
        if converses(messages.last()) {
            before + message_images(messages.last())
        } else {
            before
        }
    }
}

/// The images of the latest turn of the conversation, in order.
pub open spec fn latest_images(messages: Seq<ChatMessage>) -> Seq<ImageView>
    decreases messages.len(),
{
    if messages.len() == 0 {
        Seq::empty()
    } else if converses(messages.last()) {
        message_images(messages.last())
    } else {
        latest_images(messages.drop_last())
    }
}

/// The images that Codex is handed: those of all turns for a new thread, those of the latest
/// turn alone for a resumed one.
pub open spec fn image_inputs(messages: Seq<ChatMessage>, resumed: bool) -> Seq<ImageView> {
    if resumed {
        latest_images(messages)
    } else {
        all_images(messages)
    }
}

/// What is said about tools.
pub open spec fn tool_policy(request: ChatCompletionRequest) -> Seq<char> {
    if tools_enabled(request) {
        "Tool policy:\nTool-enabled mode is allowed for this request. Use Codex capabilities only when they materially improve correctness."@
    } else {
        "Tool policy:\nDefault to a direct answer. Do not run shell commands, modify files, or use external connectors unless the request explicitly requires tool-enabled behavior."@
    }
}

/// What is said about web search.
pub open spec fn web_policy(request: ChatCompletionRequest) -> Seq<char> {
    if web_search_enabled(request) {
        "Web search policy:\nLive web search is enabled for this request if Codex needs it."@
    } else {
        "Web search policy:\nDo not browse the web for this request."@
    }
}

/// What is said about the answer's length.
pub open spec fn length_policy(request: ChatCompletionRequest) -> Option<Seq<char>> {
    match token_limit(request) {
        Some(limit) => Some(
            "Length policy:\nAim to keep the final answer within approximately "@ + decimal(
                limit as nat,
            ) + " tokens."@,
        ),
        None => None,
    }
}

/// What is said about stop sequences.
pub open spec fn stop_policy(request: ChatCompletionRequest) -> Option<Seq<char>> {
    if stop_texts(request).len() == 0 {
        None
    } else {
        Some(
            "Stop sequence policy:\nDo not emit any of these sequences in the final answer: "@
                + joined(stop_texts(request), ", "@),
        )
    }
}

/// What is said about the sampling temperature.
pub open spec fn sampling_policy(request: ChatCompletionRequest) -> Option<Seq<char>> {
    match request.temperature {
        Some(TemperatureBand::Low) => Some(
            "Sampling policy:\n"@ + "Prefer a deterministic and minimally varied answer."@,
        ),
        Some(TemperatureBand::High) => Some(
            "Sampling policy:\n"@
                + "More creative variation is acceptable, but do not compromise correctness."@,
        ),
        Some(TemperatureBand::Middle) => Some(
            "Sampling policy:\n"@ + "Keep a balanced level of variation."@,
        ),
        None => None,
    }
}

/// What is said about `top_p`.
pub open spec fn top_p_note(request: ChatCompletionRequest) -> Option<Seq<char>> {
    match request.top_p {
        Some(top_p) => Some(
            "Sampling note:\nThe caller requested top_p="@ + top_p@
                + ". Keep output aligned with the most probable valid answer."@,
        ),
        None => None,
    }
}

/// What is said about the caller.
pub open spec fn user_note(request: ChatCompletionRequest) -> Option<Seq<char>> {
    match request.user {
        Some(user) => Some("Caller identity:\nOpenAI user field: "@ + user@),
        None => None,
    }
}

/// What is said about the request's metadata.
pub open spec fn metadata_note(request: ChatCompletionRequest) -> Option<Seq<char>> {
    match request.metadata {
        Some(metadata) => Some("Request metadata:\n"@ + json_text(metadata@)),
        None => None,
    }
}

/// What is said about a resumed session.
pub open spec fn session_note(resumed: bool) -> Option<Seq<char>> {
    if resumed {
        Some(
            "Session note:\nThis request is being attached to an existing Codex thread. Only the latest message from the incoming payload is forwarded as the new turn; prior context comes from the stored Codex session."@,
        )
    } else {
        None
    }
}

/// The parts with one more, where there is one.
pub open spec fn with_part(parts: Seq<Seq<char>>, part: Option<Seq<char>>) -> Seq<Seq<char>> {
    match part {
        Some(text) => parts.push(text),
        None => parts,
    }
}

/// The parts of the developer instructions, in order: the instructions among the messages,
/// then the policies and notes.
pub open spec fn instruction_parts(request: ChatCompletionRequest, resumed: bool) -> Seq<
    Seq<char>,
> {
    let policies = role_instructions(request.messages@).push(tool_policy(request)).push(
        web_policy(request),
    );
    let limits = with_part(with_part(policies, length_policy(request)), stop_policy(request));
    let sampling = with_part(with_part(limits, sampling_policy(request)), top_p_note(request));
    let caller = with_part(with_part(sampling, user_note(request)), metadata_note(request));
    with_part(caller, session_note(resumed))
}

/// A turn as the transcript shows it.
pub open spec fn shown_turn(turn: (Seq<char>, Seq<char>)) -> Seq<char> {
    capitalized(turn.0) + ":\n"@ + turn.1
}

/// The prompt for a conversation: all turns for a new thread, the latest alone for a resumed
/// one.
pub open spec fn prompt_text(conversation: Seq<(Seq<char>, Seq<char>)>, resumed: bool) -> Seq<
    char,
> {
    if resumed {
        "Latest "@ + conversation.last().0 + " message:\n"@ + conversation.last().1
    } else {
        "Conversation transcript:\n\n"@ + joined(
            conversation.map_values(|turn: (Seq<char>, Seq<char>)| shown_turn(turn)),
            "\n\n"@,
        ) + "\n\nReply as the assistant to the latest user request."@
    }
}

/// A role with a capital first letter; no role at all reads `Message`.
pub fn capitalize_role(role: &str) -> (text: String)
    ensures
        text@ == capitalized(role@),
{
    let count: usize = role.unicode_len();
    if count == 0 {
        return "Message".to_owned();
    }
    let mut text = String::new();
    text.push(upper_char(role.get_char(0)));
    text.append(role.substring_char(1, count));
    text
}

fn add_part(parts: &mut Vec<String>, part: Option<String>)
    ensures
        texts(final(parts)@) == with_part(texts(old(parts)@), text_of(part)),
{
    match part {
        Some(text) => {
            parts.push(text);
        },
        None => {},
    }
}

fn tool_part(request: &ChatCompletionRequest) -> (part: Option<String>)
    ensures
        text_of(part) == Some(tool_policy(*request)),
{
    if request.enable_tools() {
        Some(
            "Tool policy:\nTool-enabled mode is allowed for this request. Use Codex capabilities only when they materially improve correctness.".to_owned(),
        )
    } else {
        Some(
            "Tool policy:\nDefault to a direct answer. Do not run shell commands, modify files, or use external connectors unless the request explicitly requires tool-enabled behavior.".to_owned(),
        )
    }
}

fn web_part(request: &ChatCompletionRequest) -> (part: Option<String>)
    ensures
        text_of(part) == Some(web_policy(*request)),
{
    if request.enable_web_search() {
        Some(
            "Web search policy:\nLive web search is enabled for this request if Codex needs it.".to_owned(),
        )
    } else {
        Some("Web search policy:\nDo not browse the web for this request.".to_owned())
    }
}

fn length_part(request: &ChatCompletionRequest) -> (part: Option<String>)
    ensures
        text_of(part) == length_policy(*request),
{
    match request.effective_max_tokens() {
        Some(limit) => Some(
            concat3(
                "Length policy:\nAim to keep the final answer within approximately ",
                decimal_text(limit as u64).as_str(),
                " tokens.",
            ),
        ),
        None => None,
    }
}

fn stop_part(request: &ChatCompletionRequest) -> (part: Option<String>)
    ensures
        text_of(part) == stop_policy(*request),
{
    let sequences = request.stop_sequences();
    if sequences.is_empty() {
        None
    } else {
        Some(
            concat(
                "Stop sequence policy:\nDo not emit any of these sequences in the final answer: ",
                join(&sequences, ", ").as_str(),
            ),
        )
    }
}

fn sampling_part(request: &ChatCompletionRequest) -> (part: Option<String>)
    ensures
        text_of(part) == sampling_policy(*request),
{
    match request.temperature {
        Some(band) => {
            let guidance = match band {
                TemperatureBand::Low => "Prefer a deterministic and minimally varied answer.",
                TemperatureBand::High =>
                    "More creative variation is acceptable, but do not compromise correctness.",
                TemperatureBand::Middle => "Keep a balanced level of variation.",
            };
            Some(concat("Sampling policy:\n", guidance))
        },
        None => None,
    }
}

fn top_p_part(request: &ChatCompletionRequest) -> (part: Option<String>)
    ensures
        text_of(part) == top_p_note(*request),
{
    match &request.top_p {
        Some(top_p) => Some(
            concat3(
                "Sampling note:\nThe caller requested top_p=",
                top_p.as_str(),
                ". Keep output aligned with the most probable valid answer.",
            ),
        ),
        None => None,
    }
}

fn user_part(request: &ChatCompletionRequest) -> (part: Option<String>)
    ensures
        text_of(part) == user_note(*request),
{
    match &request.user {
        Some(user) => Some(concat("Caller identity:\nOpenAI user field: ", user.as_str())),
        None => None,
    }
}

fn metadata_part(request: &ChatCompletionRequest) -> (part: Option<String>)
    ensures
        text_of(part) == metadata_note(*request),
{
    match &request.metadata {
        Some(metadata) => Some(concat("Request metadata:\n", metadata.to_text().as_str())),
        None => None,
    }
}

fn session_part(resumed: bool) -> (part: Option<String>)
    ensures
        text_of(part) == session_note(resumed),
{
    if resumed {
        Some(
            "Session note:\nThis request is being attached to an existing Codex thread. Only the latest message from the incoming payload is forwarded as the new turn; prior context comes from the stored Codex session.".to_owned(),
        )
    } else {
        None
    }
}

/// The roles and texts of a list of turns.
pub open spec fn turn_views(list: Seq<(String, String)>) -> Seq<(Seq<char>, Seq<char>)> {
    list.map_values(|turn: (String, String)| (turn.0@, turn.1@))
}

fn split_messages(messages: &Vec<ChatMessage>) -> (parts: (Vec<String>, Vec<(String, String)>))
    ensures
        texts(parts.0@) == role_instructions(messages@),
        turn_views(parts.1@) == turns(messages@),
        parts.1@.len() == turns(messages@).len(),
{
    let mut instructions: Vec<String> = Vec::new();
    let mut transcript: Vec<(String, String)> = Vec::new();
    let mut at: usize = 0;
    while at < messages.len()
        invariant
            at <= messages.len(),
            texts(instructions@) == role_instructions(messages@.take(at as int)),
            turn_views(transcript@) == turns(messages@.take(at as int)),
        decreases messages.len() - at,
    {
        let message = &messages[at];
        let text = normalize_message_text(message);
        let ghost so_far = messages@.take(at + 1);
        assert(so_far.drop_last() == messages@.take(at as int));
        if same(message.role.as_str(), "system") || same(message.role.as_str(), "developer") {
            if !blank(text.as_str()) {
                let ghost before = texts(instructions@);
                instructions.push(
                    concat3(
                        capitalize_role(message.role.as_str()).as_str(),
                        " instructions:\n",
                        text.as_str(),
                    ),
                );
                assert(texts(instructions@) == before.push(texts(instructions@).last()));
            }
        } else {
            if !blank(text.as_str()) {
                let ghost before = turn_views(transcript@);
                transcript.push((message.role.clone(), text));
                assert(turn_views(transcript@) == before.push((message.role@, text@)));
            }
        }
        at = at + 1;
    }
    assert(messages@.take(messages.len() as int) == messages@);
    (instructions, transcript)
}

fn transcript_prompt(transcript: &Vec<(String, String)>) -> (prompt: String)
    ensures
        prompt@ == prompt_text(turn_views(transcript@), false),
{
    let ghost conversation = turn_views(transcript@);
    let ghost shown = conversation.map_values(|turn: (Seq<char>, Seq<char>)| shown_turn(turn));
    let mut lines: Vec<String> = Vec::new();
    let mut at: usize = 0;
    while at < transcript.len()
        invariant
            at <= transcript.len(),
            at == lines.len(),
            conversation == turn_views(transcript@),
            shown == conversation.map_values(|turn: (Seq<char>, Seq<char>)| shown_turn(turn)),
            texts(lines@) == shown.take(at as int),
        decreases transcript.len() - at,
    {
        let (role, text) = &transcript[at];
        lines.push(concat3(capitalize_role(role.as_str()).as_str(), ":\n", text.as_str()));
        assert(shown[at as int] == shown_turn((role@, text@)));
        at = at + 1;
    }
    assert(texts(lines@) == shown);
    concat3(
        "Conversation transcript:\n\n",
        join(&lines, "\n\n").as_str(),
        "\n\nReply as the assistant to the latest user request.",
    )
}

fn latest_prompt(transcript: &Vec<(String, String)>) -> (prompt: String)
    requires
        transcript@.len() > 0,
    ensures
        prompt@ == prompt_text(turn_views(transcript@), true),
{
    let (role, text) = &transcript[transcript.len() - 1];
    let mut prompt = concat3("Latest ", role.as_str(), " message:\n");
    prompt.append(text.as_str());
    prompt
}

fn is_turn(message: &ChatMessage) -> (yes: bool)
    ensures
        yes == converses(*message),
{
    !same(message.role.as_str(), "system") && !same(message.role.as_str(), "developer") && !blank(
        normalize_message_text(message).as_str(),
    )
}

fn forwarded_images(messages: &Vec<ChatMessage>, resumed: bool) -> (images: Vec<ImageInput>)
    ensures
        image_views(images@) == image_inputs(messages@, resumed),
{
    let mut images: Vec<ImageInput> = Vec::new();
    let mut at: usize = 0;
    assert(image_views(images@) == Seq::<ImageView>::empty());
    while at < messages.len()
        invariant
            at <= messages.len(),
            image_views(images@) == image_inputs(messages@.take(at as int), resumed),
        decreases messages.len() - at,
    {
        assert(messages@.take(at + 1).drop_last() == messages@.take(at as int));
        if is_turn(&messages[at]) {
            let mut found = images_of_message(&messages[at]);
            if resumed {
                images = found;
            } else {
                let ghost (before, more) = (image_views(images@), image_views(found@));
                images.append(&mut found);
                assert(image_views(images@) == before + more);
            }
        }
        at = at + 1;
    }
    assert(messages@.take(messages.len() as int) == messages@);
    images
}

/// Folds a request's messages and settings into one prompt and one block of instructions.
pub fn build_prompt_bundle(request: &ChatCompletionRequest, resumed_session: bool) -> (bundle:
    Result<PromptBundle, AppError>)
    ensures
        match bundle {
            Ok(b) => {
                &&& turns(request.messages@).len() > 0
                &&& b.prompt@ == prompt_text(turns(request.messages@), resumed_session)
                &&& image_views(b.images@) == image_inputs(request.messages@, resumed_session)
                &&& text_of(b.developer_instructions) == Some(
                    joined(instruction_parts(*request, resumed_session), "\n\n"@),
                )
            },
            Err(error) => {
                &&& turns(request.messages@).len() == 0
                &&& error matches AppError::BadRequest(message)
                &&& message@ == "No user-visible conversation content was found in `messages`."@
            },
        },
{
    let (role_parts, transcript) = split_messages(&request.messages);
    if transcript.is_empty() {
        return Err(
            AppError::BadRequest(
                "No user-visible conversation content was found in `messages`.".to_owned(),
            ),
        );
    }
    let mut instructions = role_parts;
    add_part(&mut instructions, tool_part(request));
    add_part(&mut instructions, web_part(request));
    add_part(&mut instructions, length_part(request));
    add_part(&mut instructions, stop_part(request));
    add_part(&mut instructions, sampling_part(request));
    add_part(&mut instructions, top_p_part(request));
    add_part(&mut instructions, user_part(request));
    add_part(&mut instructions, metadata_part(request));
    add_part(&mut instructions, session_part(resumed_session));
    let prompt = if resumed_session {
        latest_prompt(&transcript)
    } else {
        transcript_prompt(&transcript)
    };
    Ok(
        PromptBundle {
            prompt,
            developer_instructions: Some(join(&instructions, "\n\n")),
            images: forwarded_images(&request.messages, resumed_session),
        },
    )
}

proof fn lemma_turn_of(messages: Seq<ChatMessage>, at: int) -> (place: int)
    requires
        0 <= at < messages.len(),
        converses(messages[at]),
    ensures
        0 <= place < turns(messages).len(),
        turns(messages)[place] == (messages[at].role@, message_text(messages[at])),
    decreases messages.len(),
{
    if at == messages.len() - 1 {
        turns(messages).len() - 1
    } else {
        lemma_turn_of(messages.drop_last(), at)
    }
}

proof fn lemma_instruction_of(messages: Seq<ChatMessage>, at: int) -> (place: int)
    requires
        0 <= at < messages.len(),
        instructs(messages[at]),
    ensures
        0 <= place < role_instructions(messages).len(),
        role_instructions(messages)[place] == capitalized(messages[at].role@)
            + " instructions:\n"@ + message_text(messages[at]),
    decreases messages.len(),
{
    if at == messages.len() - 1 {
        role_instructions(messages).len() - 1
    } else {
        lemma_instruction_of(messages.drop_last(), at)
    }
}

/// The prompt for a new thread holds the text of every message that is neither blank nor an
/// instruction.
pub proof fn law_new_thread_prompt_holds_every_turn(messages: Seq<ChatMessage>, at: int)
    requires
        0 <= at < messages.len(),
        converses(messages[at]),
    ensures
        occurs_in(message_text(messages[at]), prompt_text(turns(messages), false)),
{
    let place = lemma_turn_of(messages, at);
    let conversation = turns(messages);
    let shown = conversation.map_values(|turn: (Seq<char>, Seq<char>)| shown_turn(turn));
    let text = message_text(messages[at]);
    let head = "Conversation transcript:\n\n"@;
    let tail = "\n\nReply as the assistant to the latest user request."@;
    lemma_occurs_in_part(capitalized(conversation[place].0) + ":\n"@, text, Seq::empty());
    assert(capitalized(conversation[place].0) + ":\n"@ + text + Seq::empty() == shown[place]);
    lemma_occurs_in_joined(shown, "\n\n"@, place);
    lemma_occurs_in_part(head, joined(shown, "\n\n"@), tail);
    lemma_occurs_transitive(text, shown[place], joined(shown, "\n\n"@));
    lemma_occurs_transitive(text, joined(shown, "\n\n"@), prompt_text(conversation, false));
}

/// A message with an image at an address is a turn of the conversation, unless it instructs.
pub proof fn law_message_with_an_image_is_a_turn(message: ChatMessage, part: int)
    requires
        !is_instruction_role(message.role@),
        message.content is Parts,
        0 <= part < message.content->Parts_0@.len(),
        message.content->Parts_0@[part] is ImageUrl,
    ensures
        converses(message),
{
    let parts = message.content->Parts_0@;
    let marker = part_text(parts[part])->0;
    let text = message_text(message);
    law_message_text_holds_every_part(parts, part);
    let place = choose|place: int|
        0 <= place <= text.len() - marker.len() && #[trigger] text.subrange(
            place,
            place + marker.len(),
        ) == marker;
    reveal_strlit("[Image URL: ");
    assert(marker[0] == '[');
    assert(text[place] == text.subrange(place, place + marker.len())[0]);
    lemma_not_blank(text, place);
}

/// Every image in a turn of the conversation is handed to a new thread.
pub proof fn law_new_thread_is_handed_every_image(messages: Seq<ChatMessage>, at: int, part: int)
    requires
        0 <= at < messages.len(),
        converses(messages[at]),
        messages[at].content is Parts,
        0 <= part < messages[at].content->Parts_0@.len(),
        part_image(messages[at].content->Parts_0@[part]) is Some,
    ensures
        image_inputs(messages, false).contains(
            part_image(messages[at].content->Parts_0@[part])->0,
        ),
    decreases messages.len(),
{
    let image = part_image(messages[at].content->Parts_0@[part])->0;
    let all = all_images(messages);
    let before = all_images(messages.drop_last());
    if at == messages.len() - 1 {
        let own = message_images(messages[at]);
        law_message_images_hold_every_part(messages[at].content->Parts_0@, part);
        let place = choose|i: int| 0 <= i < own.len() && own[i] == image;
        assert(all[before.len() + place] == image);
    } else {
        law_new_thread_is_handed_every_image(messages.drop_last(), at, part);
        let place = choose|i: int| 0 <= i < before.len() && before[i] == image;
        assert(all[place] == image);
    }
}

/// A resumed thread is handed the images of the latest turn, and no others.
pub proof fn law_resumed_thread_is_handed_the_latest_images(
    before: Seq<ChatMessage>,
    latest: ChatMessage,
    after: Seq<ChatMessage>,
)
    requires
        converses(latest),
        forall|i: int| 0 <= i < after.len() ==> !converses(#[trigger] after[i]),
    ensures
        image_inputs(before.push(latest) + after, true) == message_images(latest),
    decreases after.len(),
{
    let messages = before.push(latest) + after;
    if after.len() == 0 {
        assert(messages.last() == latest);
    } else {
        assert(messages.last() == after[after.len() - 1]);
        assert(messages.drop_last() == before.push(latest) + after.drop_last());
        law_resumed_thread_is_handed_the_latest_images(before, latest, after.drop_last());
    }
}

/// A system or developer message stays out of the conversation: with or without it, the turns
/// are the same.
pub proof fn law_instructions_stay_out_of_the_conversation(
    before: Seq<ChatMessage>,
    message: ChatMessage,
    after: Seq<ChatMessage>,
)
    requires
        is_instruction_role(message.role@),
    ensures
        turns(before.push(message) + after) == turns(before + after),
    decreases after.len(),
{
    if after.len() == 0 {
        assert(before.push(message) + after == before.push(message));
        assert(before + after == before);
        assert(before.push(message).drop_last() == before);
    } else {
        law_instructions_stay_out_of_the_conversation(before, message, after.drop_last());
        assert((before.push(message) + after).drop_last() == before.push(message)
            + after.drop_last());
        assert((before + after).drop_last() == before + after.drop_last());
    }
}

/// The prompt for a resumed thread is fixed by the latest turn alone.
pub proof fn law_resumed_prompt_is_the_latest_turn(
    one: Seq<ChatMessage>,
    other: Seq<ChatMessage>,
)
    requires
        turns(one).len() > 0,
        turns(other).len() > 0,
        turns(one).last() == turns(other).last(),
    ensures
        prompt_text(turns(one), true) == prompt_text(turns(other), true),
{
}

/// The text of every system or developer message that is not blank stands in the developer
/// instructions.
pub proof fn law_instructions_hold_every_system_message(
    request: ChatCompletionRequest,
    resumed: bool,
    at: int,
)
    requires
        0 <= at < request.messages@.len(),
        instructs(request.messages@[at]),
    ensures
        occurs_in(
            message_text(request.messages@[at]),
            joined(instruction_parts(request, resumed), "\n\n"@),
        ),
{
    let place = lemma_instruction_of(request.messages@, at);
    let text = message_text(request.messages@[at]);
    let parts = instruction_parts(request, resumed);
    let head = capitalized(request.messages@[at].role@) + " instructions:\n"@;
    lemma_occurs_in_part(head, text, Seq::empty());
    assert(head + text + Seq::empty() == role_instructions(request.messages@)[place]);
    assert(parts[place] == role_instructions(request.messages@)[place]);
    lemma_occurs_in_joined(parts, "\n\n"@, place);
    lemma_occurs_transitive(text, parts[place], joined(parts, "\n\n"@));
}

/// The role of a message with a capital letter: an ASCII small letter in front becomes its
/// capital, and the rest stays as it is.
pub proof fn law_roles_get_a_capital_letter(role: Seq<char>)
    ensures
        role.len() == 0 ==> capitalized(role) == "Message"@,
        role.len() > 0 ==> {
            &&& capitalized(role).len() == role.len()
            &&& capitalized(role).skip(1) == role.skip(1)
            &&& 'a' <= role[0] <= 'z' ==> capitalized(role)[0] as int == role[0] as int - 32
            &&& !('a' <= role[0] <= 'z') ==> capitalized(role)[0] == role[0]
        },
{
    if role.len() > 0 {
        assert(capitalized(role).skip(1) =~= role.skip(1));
    }
}

proof fn lemma_capitalized_roles()
    ensures
        capitalized("system"@) == "System"@,
        capitalized("developer"@) == "Developer"@,
        capitalized("user"@) == "User"@,
        capitalized("assistant"@) == "Assistant"@,
{
    reveal_strlit("system");
    reveal_strlit("System");
    reveal_strlit("developer");
    reveal_strlit("Developer");
    reveal_strlit("user");
    reveal_strlit("User");
    reveal_strlit("assistant");
    reveal_strlit("Assistant");
    assert(capitalized("system"@) =~= "System"@);
    assert(capitalized("developer"@) =~= "Developer"@);
    assert(capitalized("user"@) =~= "User"@);
    assert(capitalized("assistant"@) =~= "Assistant"@);
}

/// Every message that is not blank has its place: one by the system or the developer is an
/// instruction that holds its whole text, and any other is a turn with its role and whole text.
/// A blank message is neither.
pub proof fn law_every_message_has_its_place(message: ChatMessage)
    ensures
        ({
            let instructions = role_instructions(seq![message]);
            let conversation = turns(seq![message]);
            let instructing = message.role@ == "system"@ || message.role@ == "developer"@;
            let text = message_text(message);
            &&& is_blank(text) ==> instructions.len() == 0 && conversation.len() == 0
            &&& !is_blank(text) && message.role@ == "system"@ ==> instructions == seq![
                "System"@ + " instructions:\n"@ + text,
            ]
            &&& !is_blank(text) && message.role@ == "developer"@ ==> instructions == seq![
                "Developer"@ + " instructions:\n"@ + text,
            ]
            &&& instructing ==> conversation.len() == 0
            &&& !is_blank(text) && !instructing ==> conversation == seq![(message.role@, text)]
            &&& !instructing ==> instructions.len() == 0
        }),
{
    lemma_capitalized_roles();
    let one = seq![message];
    assert(one.drop_last() =~= Seq::<ChatMessage>::empty());
    assert(role_instructions(one.drop_last()) =~= Seq::<Seq<char>>::empty());
    assert(turns(one.drop_last()) =~= Seq::<(Seq<char>, Seq<char>)>::empty());
    assert(role_instructions(one) =~= if instructs(message) {
        seq![capitalized(message.role@) + " instructions:\n"@ + message_text(message)]
    } else {
        Seq::empty()
    });
    assert(turns(one) =~= if converses(message) {
        seq![(message.role@, message_text(message))]
    } else {
        Seq::empty()
    });
}

/// The messages are taken in order and one by one: the instructions, turns and images of two
/// lists of messages are those of the first and then those of the second.
pub proof fn law_messages_are_taken_in_order(one: Seq<ChatMessage>, other: Seq<ChatMessage>)
    ensures
        role_instructions(one + other) == role_instructions(one) + role_instructions(other),
        turns(one + other) == turns(one) + turns(other),
        image_inputs(one + other, false) == image_inputs(one, false) + image_inputs(other, false),
    decreases other.len(),
{
    if other.len() == 0 {
        assert(one + other =~= one);
        assert(role_instructions(one) + role_instructions(other) =~= role_instructions(one));
        assert(turns(one) + turns(other) =~= turns(one));
        assert(all_images(one) + all_images(other) =~= all_images(one));
    } else {
        law_messages_are_taken_in_order(one, other.drop_last());
        assert((one + other).drop_last() =~= one + other.drop_last());
        assert(role_instructions(one + other) =~= role_instructions(one) + role_instructions(
            other,
        ));
        assert(turns(one + other) =~= turns(one) + turns(other));
        assert(all_images(one + other) =~= all_images(one) + all_images(other));
    }
}

/// A message by the system or the developer that is not blank stands in the developer
/// instructions with its whole text, under a heading that names who gave it.
pub proof fn law_system_and_developer_messages_reach_codex(
    request: ChatCompletionRequest,
    resumed: bool,
    at: int,
) -> (around: (Seq<char>, Seq<char>))
    requires
        0 <= at < request.messages@.len(),
        request.messages@[at].role@ == "system"@ || request.messages@[at].role@ == "developer"@,
        !is_blank(message_text(request.messages@[at])),
    ensures
        ({
            let heading = if request.messages@[at].role@ == "system"@ {
                "System"@
            } else {
                "Developer"@
            };
            joined(instruction_parts(request, resumed), "\n\n"@) == around.0 + (heading
                + " instructions:\n"@ + message_text(request.messages@[at])) + around.1
        }),
{
    lemma_capitalized_roles();
    lemma_role_names();
    let place = lemma_instruction_of(request.messages@, at);
    let parts = instruction_parts(request, resumed);
    assert(parts[place] == role_instructions(request.messages@)[place]);
    lemma_occurs_in_joined(parts, "\n\n"@, place);
    law_occurrence(parts[place], joined(parts, "\n\n"@), Seq::empty(), Seq::empty())
}

proof fn lemma_role_names()
    ensures
        "system"@ != "developer"@,
{
    reveal_strlit("system");
    reveal_strlit("developer");
    assert("system"@.len() != "developer"@.len());
}

/// The instructions come before all policies: where the first message is by the system or the
/// developer, the developer instructions start with it.
pub proof fn law_first_instruction_comes_first(request: ChatCompletionRequest, resumed: bool)
    requires
        request.messages@.len() > 0,
        request.messages@[0].role@ == "system"@ || request.messages@[0].role@ == "developer"@,
        !is_blank(message_text(request.messages@[0])),
    ensures
        ({
            let heading = if request.messages@[0].role@ == "system"@ {
                "System"@
            } else {
                "Developer"@
            };
            (heading + " instructions:\n"@ + message_text(request.messages@[0])).is_prefix_of(
                joined(instruction_parts(request, resumed), "\n\n"@),
            )
        }),
{
    lemma_capitalized_roles();
    lemma_role_names();
    let messages = request.messages@;
    let first = seq![messages[0]];
    let rest = messages.skip(1);
    assert(messages =~= first + rest);
    law_messages_are_taken_in_order(first, rest);
    law_every_message_has_its_place(messages[0]);
    let parts = instruction_parts(request, resumed);
    assert(parts[0] == role_instructions(messages)[0]);
    lemma_joined_starts_with_first(parts, "\n\n"@);
}

proof fn lemma_joined_starts_with_first(parts: Seq<Seq<char>>, separator: Seq<char>)
    requires
        parts.len() > 0,
    ensures
        parts[0].is_prefix_of(joined(parts, separator)),
    decreases parts.len(),
{
    if parts.len() > 1 {
        lemma_joined_starts_with_first(parts.drop_last(), separator);
        assert(parts.drop_last()[0] == parts[0]);
        let front = joined(parts.drop_last(), separator);
        assert(joined(parts, separator).take(parts[0].len() as int) =~= front.take(
            parts[0].len() as int,
        ));
        assert(parts[0] =~= front.take(parts[0].len() as int));
        assert(parts[0] =~= joined(parts, separator).subrange(0, parts[0].len() as int));
    }
}

proof fn lemma_latest_turn(before: Seq<ChatMessage>, latest: ChatMessage, after: Seq<ChatMessage>)
    requires
        latest.role@ != "system"@,
        latest.role@ != "developer"@,
        !is_blank(message_text(latest)),
        forall|i: int|
            0 <= i < after.len() ==> (#[trigger] after[i]).role@ == "system"@ || after[i].role@
                == "developer"@ || is_blank(message_text(after[i])),
    ensures
        turns(before.push(latest) + after).len() > 0,
        turns(before.push(latest) + after).last() == (latest.role@, message_text(latest)),
    decreases after.len(),
{
    let messages = before.push(latest) + after;
    if after.len() == 0 {
        assert(messages =~= before.push(latest));
        assert(messages.drop_last() =~= before);
    } else {
        assert(messages.drop_last() =~= before.push(latest) + after.drop_last());
        assert(messages.last() == after[after.len() - 1]);
        assert forall|i: int| 0 <= i < after.drop_last().len() implies (
        #[trigger] after.drop_last()[i]).role@ == "system"@ || after.drop_last()[i].role@
            == "developer"@ || is_blank(message_text(after.drop_last()[i])) by {
            assert(after.drop_last()[i] == after[i]);
        }
        lemma_latest_turn(before, latest, after.drop_last());
    }
}

/// The prompt for a resumed thread is the latest message that is neither an instruction nor
/// blank: it names its role and ends with its whole text, and nothing stands between or after.
pub proof fn law_resumed_prompt_ends_with_the_latest_message(
    before: Seq<ChatMessage>,
    latest: ChatMessage,
    after: Seq<ChatMessage>,
)
    requires
        latest.role@ != "system"@,
        latest.role@ != "developer"@,
        !is_blank(message_text(latest)),
        forall|i: int|
            0 <= i < after.len() ==> (#[trigger] after[i]).role@ == "system"@ || after[i].role@
                == "developer"@ || is_blank(message_text(after[i])),
    ensures
        ({
            let prompt = prompt_text(turns(before.push(latest) + after), true);
            let text = message_text(latest);
            let heading = prompt.len() - text.len();
            &&& prompt.skip(heading) == text
            &&& prompt.take(heading) == "Latest "@ + latest.role@ + " message:\n"@
        }),
{
    lemma_latest_turn(before, latest, after);
    let prompt = prompt_text(turns(before.push(latest) + after), true);
    let text = message_text(latest);
    let heading = "Latest "@ + latest.role@ + " message:\n"@;
    assert(prompt =~= heading + text);
    assert(prompt.skip(heading.len() as int) =~= text);
    assert(prompt.take(heading.len() as int) =~= heading);
}

proof fn lemma_shown_turn_in_prompt(conversation: Seq<(Seq<char>, Seq<char>)>, place: int) -> (
around: (Seq<char>, Seq<char>))
    requires
        0 <= place < conversation.len(),
    ensures
        prompt_text(conversation, false) == around.0 + (capitalized(conversation[place].0) + ":\n"@
            + conversation[place].1) + around.1,
{
    let shown = conversation.map_values(|turn: (Seq<char>, Seq<char>)| shown_turn(turn));
    let head = "Conversation transcript:\n\n"@;
    let tail = "\n\nReply as the assistant to the latest user request."@;
    lemma_occurs_in_joined(shown, "\n\n"@, place);
    let inner = law_occurrence(shown[place], joined(shown, "\n\n"@), Seq::empty(), Seq::empty());
    let around = (head + inner.0, inner.1 + tail);
    assert(prompt_text(conversation, false) =~= around.0 + shown[place] + around.1);
    around
}

/// The prompt for a new thread shows every message that is neither an instruction nor blank,
/// with its role and its whole text.
pub proof fn law_new_thread_prompt_shows_every_message(messages: Seq<ChatMessage>, at: int) -> (
around: (Seq<char>, Seq<char>))
    requires
        0 <= at < messages.len(),
        messages[at].role@ != "system"@,
        messages[at].role@ != "developer"@,
        !is_blank(message_text(messages[at])),
    ensures
        prompt_text(turns(messages), false) == around.0 + (capitalized(messages[at].role@) + ":\n"@
            + message_text(messages[at])) + around.1,
{
    let place = lemma_turn_of(messages, at);
    lemma_shown_turn_in_prompt(turns(messages), place)
}

/// The prompt for a new thread is the turns in order, one after the other with a blank line
/// between them, between a heading and the call to answer.
pub proof fn law_new_thread_prompt_is_the_turns_in_order(
    one: Seq<(Seq<char>, Seq<char>)>,
    other: Seq<(Seq<char>, Seq<char>)>,
    turn: (Seq<char>, Seq<char>),
) -> (bodies: (Seq<char>, Seq<char>))
    requires
        one.len() > 0,
        other.len() > 0,
    ensures
        ({
            let head = "Conversation transcript:\n\n"@;
            let tail = "\n\nReply as the assistant to the latest user request."@;
            &&& prompt_text(one, false) == head + bodies.0 + tail
            &&& prompt_text(other, false) == head + bodies.1 + tail
            &&& prompt_text(one + other, false) == head + (bodies.0 + "\n\n"@ + bodies.1) + tail
            &&& prompt_text(seq![turn], false) == head + (capitalized(turn.0) + ":\n"@ + turn.1)
                + tail
        }),
{
    let show = |turn: (Seq<char>, Seq<char>)| shown_turn(turn);
    let bodies = (
        joined(one.map_values(show), "\n\n"@),
        joined(other.map_values(show), "\n\n"@),
    );
    assert((one + other).map_values(show) =~= one.map_values(show) + other.map_values(show));
    law_joining_keeps_every_part(
        one.map_values(show),
        other.map_values(show),
        shown_turn(turn),
        "\n\n"@,
    );
    assert(seq![turn].map_values(show) =~= seq![shown_turn(turn)]);
    bodies
}

/// A request has something to say exactly if some message is neither an instruction nor blank.
pub proof fn law_conversation_needs_a_message(messages: Seq<ChatMessage>)
    ensures
        turns(messages).len() > 0 <==> exists|i: int|
            0 <= i < messages.len() && (#[trigger] messages[i]).role@ != "system"@
                && messages[i].role@ != "developer"@ && !is_blank(message_text(messages[i])),
    decreases messages.len(),
{
    if messages.len() > 0 {
        let earlier = messages.drop_last();
        law_conversation_needs_a_message(earlier);
        if turns(earlier).len() > 0 {
            let i = choose|i: int|
                0 <= i < earlier.len() && (#[trigger] earlier[i]).role@ != "system"@
                    && earlier[i].role@ != "developer"@ && !is_blank(message_text(earlier[i]));
            assert(messages[i] == earlier[i]);
        } else if turns(messages).len() > 0 {
            assert(messages[messages.len() - 1] == messages.last());
        } else {
            assert forall|i: int| 0 <= i < messages.len() implies !((
            #[trigger] messages[i]).role@ != "system"@ && messages[i].role@ != "developer"@
                && !is_blank(message_text(messages[i]))) by {
                if i < earlier.len() {
                    assert(earlier[i] == messages[i]);
                }
            }
        }
    }
}

/// The developer instructions are the instructions among the messages and one part for each
/// thing that the request settles: tools and web search always, and the rest where it is given.
pub proof fn law_instructions_have_a_part_for_each_setting(
    request: ChatCompletionRequest,
    resumed: bool,
)
    ensures
        ({
            let one = |given: bool|
                if given {
                    1int
                } else {
                    0int
                };
            let limited = request.max_completion_tokens is Some || request.max_tokens is Some;
            let stopped = request.stop matches Some(stop) && (stop matches StopSequences::Multiple(
                list,
            ) ==> list@.len() > 0);
            let parts = instruction_parts(request, resumed);
            let said = role_instructions(request.messages@);
            &&& parts.len() == said.len() + 2 + one(limited) + one(stopped) + one(
                request.temperature is Some,
            ) + one(request.top_p is Some) + one(request.user is Some) + one(
                request.metadata is Some,
            ) + one(resumed)
            &&& said.is_prefix_of(parts)
        }),
{
    assert(role_instructions(request.messages@) =~= instruction_parts(request, resumed).subrange(
        0,
        role_instructions(request.messages@).len() as int,
    ));
}

/// What is said of tools and web search follows what the request allows, right after the
/// instructions among the messages.
pub proof fn law_policies_follow_what_the_request_allows(
    request: ChatCompletionRequest,
    resumed: bool,
)
    ensures
        ({
            let parts = instruction_parts(request, resumed);
            let at = role_instructions(request.messages@).len() as int;
            let named = request.tools is Some || request.tool_choice is Some;
            let tools = request.enable_tools == Some(true) || request.enable_tools is None && named;
            &&& tools ==> parts[at]
                == "Tool policy:\nTool-enabled mode is allowed for this request. Use Codex capabilities only when they materially improve correctness."@
            &&& !tools ==> parts[at]
                == "Tool policy:\nDefault to a direct answer. Do not run shell commands, modify files, or use external connectors unless the request explicitly requires tool-enabled behavior."@
            &&& request.enable_web_search == Some(true) ==> parts[at + 1]
                == "Web search policy:\nLive web search is enabled for this request if Codex needs it."@
            &&& request.enable_web_search != Some(true) ==> parts[at + 1]
                == "Web search policy:\nDo not browse the web for this request."@
        }),
{
}

/// Each limit, stop sequence, sampling wish, user and metadata of a request is passed on in the
/// developer instructions, as it was given.
pub proof fn law_settings_are_passed_on(request: ChatCompletionRequest, resumed: bool)
    ensures
        ({
            let parts = instruction_parts(request, resumed);
            &&& request.max_completion_tokens matches Some(limit) ==> parts.contains(
                "Length policy:\nAim to keep the final answer within approximately "@ + decimal(
                    limit as nat,
                ) + " tokens."@,
            )
            &&& request.max_completion_tokens is None ==> (request.max_tokens matches Some(limit)
                ==> parts.contains(
                "Length policy:\nAim to keep the final answer within approximately "@ + decimal(
                    limit as nat,
                ) + " tokens."@,
            ))
            &&& request.stop matches Some(StopSequences::Single(stop)) ==> parts.contains(
                "Stop sequence policy:\nDo not emit any of these sequences in the final answer: "@
                    + stop@,
            )
            &&& request.stop matches Some(StopSequences::Multiple(list)) ==> list@.len() > 0
                ==> parts.contains(
                "Stop sequence policy:\nDo not emit any of these sequences in the final answer: "@
                    + joined(list@.map_values(|stop: String| stop@), ", "@),
            )
            &&& request.temperature == Some(TemperatureBand::Low) ==> parts.contains(
                "Sampling policy:\n"@ + "Prefer a deterministic and minimally varied answer."@,
            )
            &&& request.temperature == Some(TemperatureBand::Middle) ==> parts.contains(
                "Sampling policy:\n"@ + "Keep a balanced level of variation."@,
            )
            &&& request.temperature == Some(TemperatureBand::High) ==> parts.contains(
                "Sampling policy:\n"@
                    + "More creative variation is acceptable, but do not compromise correctness."@,
            )
            &&& request.top_p matches Some(top_p) ==> parts.contains(
                "Sampling note:\nThe caller requested top_p="@ + top_p@
                    + ". Keep output aligned with the most probable valid answer."@,
            )
            &&& request.user matches Some(user) ==> parts.contains(
                "Caller identity:\nOpenAI user field: "@ + user@,
            )
            &&& request.metadata matches Some(metadata) ==> parts.contains(
                "Request metadata:\n"@ + json_text(metadata@),
            )
            &&& resumed ==> parts.last()
                == "Session note:\nThis request is being attached to an existing Codex thread. Only the latest message from the incoming payload is forwarded as the new turn; prior context comes from the stored Codex session."@
        }),
{
    let policies = role_instructions(request.messages@).push(tool_policy(request)).push(
        web_policy(request),
    );
    let lengths = with_part(policies, length_policy(request));
    let limits = with_part(lengths, stop_policy(request));
    let sampling = with_part(limits, sampling_policy(request));
    let noted = with_part(sampling, top_p_note(request));
    let named = with_part(noted, user_note(request));
    let caller = with_part(named, metadata_note(request));
    let parts = with_part(caller, session_note(resumed));
    assert(parts == instruction_parts(request, resumed));
    lemma_part_stays(policies, length_policy(request), lengths, parts);
    lemma_part_stays(lengths, stop_policy(request), limits, parts);
    lemma_part_stays(limits, sampling_policy(request), sampling, parts);
    lemma_part_stays(sampling, top_p_note(request), noted, parts);
    lemma_part_stays(noted, user_note(request), named, parts);
    lemma_part_stays(named, metadata_note(request), caller, parts);
    if let Some(StopSequences::Single(stop)) = request.stop {
        law_joining_keeps_every_part(Seq::empty(), Seq::empty(), stop@, ", "@);
    }
}

proof fn lemma_part_stays(
    before: Seq<Seq<char>>,
    part: Option<Seq<char>>,
    with: Seq<Seq<char>>,
    parts: Seq<Seq<char>>,
)
    requires
        with == with_part(before, part),
        with.len() <= parts.len(),
        forall|i: int| 0 <= i < with.len() ==> with[i] == #[trigger] parts[i],
    ensures
        part matches Some(text) ==> parts.contains(text),
{
    if let Some(text) = part {
        assert(with[before.len() as int] == text);
        assert(parts[before.len() as int] == text);
    }
}

/// Every image at an address in a message that is neither an instruction nor blank is handed to
/// a new thread, and reads back as that address.
pub proof fn law_new_thread_is_handed_every_address(
    messages: Seq<ChatMessage>,
    at: int,
    part: int,
    url: String,
) -> (image: ImageView)
    requires
        0 <= at < messages.len(),
        messages[at].role@ != "system"@,
        messages[at].role@ != "developer"@,
        messages[at].content is Parts,
        0 <= part < messages[at].content->Parts_0@.len(),
        messages[at].content->Parts_0@[part] == (MessagePart::ImageUrl {
            image_url: ImageUrlPayload::Raw(url),
        }) || messages[at].content->Parts_0@[part] == (MessagePart::ImageUrl {
            image_url: ImageUrlPayload::Object { url },
        }),
    ensures
        image_inputs(messages, false).contains(image),
        image_url(image) == url@,
{
    law_message_with_an_image_is_a_turn(messages[at], part);
    law_new_thread_is_handed_every_image(messages, at, part);
    law_image_keeps_its_address(url@);
    part_image(messages[at].content->Parts_0@[part])->0
}

/// An instruction hands no image over.
pub proof fn law_instructions_hand_no_image_over(message: ChatMessage, resumed: bool)
    requires
        message.role@ == "system"@ || message.role@ == "developer"@,
    ensures
        image_inputs(seq![message], resumed).len() == 0,
{
    let one = seq![message];
    assert(one.drop_last() =~= Seq::<ChatMessage>::empty());
    assert(all_images(one.drop_last()).len() == 0);
    assert(latest_images(one.drop_last()).len() == 0);
}

/// The images of the latest message that is neither an instruction nor blank, and no others, are
/// handed to a resumed thread.
pub proof fn law_resumed_thread_is_handed_the_images_of_the_latest_message(
    before: Seq<ChatMessage>,
    latest: ChatMessage,
    after: Seq<ChatMessage>,
)
    requires
        latest.role@ != "system"@,
        latest.role@ != "developer"@,
        !is_blank(message_text(latest)),
        forall|i: int|
            0 <= i < after.len() ==> (#[trigger] after[i]).role@ == "system"@ || after[i].role@
                == "developer"@ || is_blank(message_text(after[i])),
    ensures
        image_inputs(before.push(latest) + after, true) == message_images(latest),
        latest.content is Text ==> image_inputs(before.push(latest) + after, true).len() == 0,
{
    law_resumed_thread_is_handed_the_latest_images(before, latest, after);
}

/// A list of turns has their roles and texts, each whole and in its place.
pub proof fn law_turns_have_their_roles_and_texts(list: Seq<(String, String)>, at: int)
    requires
        0 <= at < list.len(),
    ensures
        turn_views(list).len() == list.len(),
        turn_views(list)[at] == (list[at].0@, list[at].1@),
{
}

} // verus!
