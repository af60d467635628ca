//! Anthropic message requests, and the chat completion requests that they become.

use crate::image::{ImageInput, ImageView};
use crate::json::{json_text, text_field, text_of, JsonValue, JsonView};
use crate::request::{
    message_images, message_text, part_images, part_texts,
    ChatCompletionRequest, ChatMessage, MessageContent, MessagePart, StopSequences,
    TemperatureBand,
};
use crate::text::{
    blank, concat3, is_blank, join, joined, law_joining_keeps_every_part, law_occurrence,
    lemma_not_blank, lemma_occurs_in_joined, texts,
};
use vstd::prelude::*;

verus! {

/// An Anthropic messages request.
#[derive(Debug)]
pub struct AnthropicMessagesRequest {
    pub model: String,
    pub messages: Vec<AnthropicMessage>,
    pub system: Option<AnthropicSystemPrompt>,
    pub stream: bool,
    pub max_tokens: Option<u32>,
    /// The band that the requested temperature falls in.
    pub temperature: Option<TemperatureBand>,
    /// The requested `top_p`, written with two decimals.
    pub top_p: Option<String>,
    pub stop_sequences: Option<Vec<String>>,
    pub metadata: Option<JsonValue>,
    pub tools: Option<JsonValue>,
    pub tool_choice: Option<JsonValue>,
    pub thinking: Option<JsonValue>,
    pub session_id: Option<String>,
    pub enable_tools: Option<bool>,
    pub enable_web_search: Option<bool>,
    pub working_directory: Option<String>,
    pub reasoning_effort: Option<String>,
}

/// One message of the conversation.
#[derive(Debug)]
pub struct AnthropicMessage {
    pub role: String,
    pub content: AnthropicMessageContent,
}

/// What a message holds.
#[derive(Debug)]
pub enum AnthropicMessageContent {
    Text(String),
    Blocks(Vec<AnthropicContentBlock>),
}

/// One block of a message.
#[derive(Debug)]
pub enum AnthropicContentBlock {
    Text { text: String },
    Image { source: AnthropicImageSource },
    ToolUse { id: String, name: String, input: JsonValue },
    ToolResult { tool_use_id: String, content: JsonValue },
    Unsupported,
}

/// Where an image comes from.
#[derive(Debug)]
pub struct AnthropicImageSource {
    pub media_type: Option<String>,
    pub source_type: Option<String>,
    /// The image itself, in base64.
    pub data: Option<String>,
    pub url: Option<String>,
}

/// The system prompt.
#[derive(Debug)]
pub enum AnthropicSystemPrompt {
    Text(String),
    Blocks(Vec<AnthropicSystemBlock>),
}

/// One block of the system prompt.
#[derive(Debug)]
pub enum AnthropicSystemBlock {
    Text { text: String },
    Unsupported,
}

/// The text, or `default` where there is none.
pub open spec fn text_or(text: Option<String>, default: Seq<char>) -> Seq<char> {
    match text {
        Some(t) => t@,
        None => default,
    }
}

/// The text of one block of a message; blocks of other kinds have none.
pub open spec fn block_text(block: AnthropicContentBlock) -> Option<Seq<char>> {
    match block {
        AnthropicContentBlock::Text { text } => Some(text@),
        AnthropicContentBlock::Image { source } => Some(
            "[Anthropic image block: "@ + text_or(source.media_type, "image payload omitted"@)
                + " ("@ + text_or(source.source_type, "unknown source"@) + ")]"@,
        ),
        AnthropicContentBlock::ToolUse { id, name, input } => Some(
            "[Anthropic tool_use "@ + name@ + " ("@ + id@ + ")]\n"@ + json_text(input@),
        ),
        AnthropicContentBlock::ToolResult { tool_use_id, content } => Some(
            "[Anthropic tool_result for "@ + tool_use_id@ + "]\n"@ + json_text(content@),
        ),
        AnthropicContentBlock::Unsupported => None,
    }
}

/// The image of a source: its data before its address.
pub open spec fn source_image(source: AnthropicImageSource) -> Option<ImageView> {
    match (source.data, source.url) {
        (Some(data), _) => Some(
            ImageView::Data {
                media_type: text_or(source.media_type, "application/octet-stream"@),
                data: data@,
            },
        ),
        (None, Some(url)) => Some(ImageView::Url(url@)),
        (None, None) => None,
    }
}

/// The image in one block of a message.
pub open spec fn block_image(block: AnthropicContentBlock) -> Option<ImageView> {
    match block {
        AnthropicContentBlock::Image { source } => source_image(source),
        _ => None,
    }
}

/// The images in the blocks, in order.
pub open spec fn block_images(blocks: Seq<AnthropicContentBlock>) -> Seq<ImageView>
    decreases blocks.len(),
{
    if blocks.len() == 0 {
        Seq::empty()
    } else {
        match block_image(blocks.last()) {
            Some(image) => block_images(blocks.drop_last()).push(image),
            None => block_images(blocks.drop_last()),
        }
    }
}

/// The images in a message, in order.
pub open spec fn content_images(content: AnthropicMessageContent) -> Seq<ImageView> {
    match content {
        AnthropicMessageContent::Text(_) => Seq::empty(),
        AnthropicMessageContent::Blocks(blocks) => block_images(blocks@),
    }
}

/// The texts of the blocks that have one, in order.
pub open spec fn block_texts(blocks: Seq<AnthropicContentBlock>) -> Seq<Seq<char>>
    decreases blocks.len(),
{
    if blocks.len() == 0 {
        Seq::empty()
    } else {
        match block_text(blocks.last()) {
            Some(text) => block_texts(blocks.drop_last()).push(text),
            None => block_texts(blocks.drop_last()),
        }
    }
}

/// The text of a message: as it stands, or one line for each block that has a text.
pub open spec fn content_text(content: AnthropicMessageContent) -> Seq<char> {
    match content {
        AnthropicMessageContent::Text(text) => text@,
        AnthropicMessageContent::Blocks(blocks) => joined(block_texts(blocks@), "\n"@),
    }
}

/// The texts of the system blocks that have one, in order.
pub open spec fn system_texts(blocks: Seq<AnthropicSystemBlock>) -> Seq<Seq<char>>
    decreases blocks.len(),
{
    if blocks.len() == 0 {
        Seq::empty()
    } else {
        match blocks.last() {
            AnthropicSystemBlock::Text { text } => system_texts(blocks.drop_last()).push(text@),
            AnthropicSystemBlock::Unsupported => system_texts(blocks.drop_last()),
        }
    }
}

/// The text of a system prompt.
pub open spec fn system_text(system: AnthropicSystemPrompt) -> Seq<char> {
    match system {
        AnthropicSystemPrompt::Text(text) => text@,
        AnthropicSystemPrompt::Blocks(blocks) => joined(system_texts(blocks@), "\n"@),
    }
}

/// The text and the image of one part of a message.
pub struct Line {
    pub text: Seq<char>,
    pub image: Option<ImageView>,
}

/// The text and the image of a block, where it has a text.
pub open spec fn block_line(block: AnthropicContentBlock) -> Option<Line> {
    match block_text(block) {
        Some(text) => Some(Line { text, image: block_image(block) }),
        None => None,
    }
}

/// The texts and images of the blocks that have a text, in order.
pub open spec fn block_lines(blocks: Seq<AnthropicContentBlock>) -> Seq<Line>
    decreases blocks.len(),
{
    if blocks.len() == 0 {
        Seq::empty()
    } else {
        match block_line(blocks.last()) {
            Some(line) => block_lines(blocks.drop_last()).push(line),
            None => block_lines(blocks.drop_last()),
        }
    }
}

/// Whether a part is this line: an image with its caption, or else a text.
pub open spec fn is_line(part: MessagePart, line: Line) -> bool {
    match line.image {
        Some(image) => {
            &&& part is Image
            &&& part->caption@ == line.text
            &&& part->image@ == image
        },
        None => part is Text && part->text@ == line.text,
    }
}

/// Whether the parts are these lines, one for one.
pub open spec fn are_lines(parts: Seq<MessagePart>, lines: Seq<Line>) -> bool {
    &&& parts.len() == lines.len()
    &&& forall|i: int| 0 <= i < parts.len() ==> is_line(#[trigger] parts[i], lines[i])
}

/// Whether `chat` is what the content of a message becomes: its text alone where it holds no
/// image, else one part for each block that has a text.
pub open spec fn becomes(content: AnthropicMessageContent, chat: MessageContent) -> bool {
    if content_images(content).len() == 0 {
        chat is Text && chat->Text_0@ == content_text(content)
    } else {
        chat is Parts && are_lines(chat->Parts_0@, block_lines(content->Blocks_0@))
    }
}

/// What counts of a message: its role, its text and its images.
pub struct MessageMeaning {
    pub role: Seq<char>,
    pub text: Seq<char>,
    pub images: Seq<ImageView>,
}

/// What counts of a message.
pub open spec fn meaning(message: ChatMessage) -> MessageMeaning {
    MessageMeaning {
        role: message.role@,
        text: message_text(message),
        images: message_images(message),
    }
}

/// The message that a system prompt becomes, unless it is blank.
pub open spec fn system_messages(system: Option<AnthropicSystemPrompt>) -> Seq<MessageMeaning> {
    match system {
        Some(prompt) => if is_blank(system_text(prompt)) {
            Seq::empty()
        } else {
            seq![
                MessageMeaning {
                    role: "system"@,
                    text: system_text(prompt),
                    images: Seq::empty(),
                },
            ]
        },
        None => Seq::empty(),
    }
}

/// What a message of the conversation means.
pub open spec fn message_meaning(message: AnthropicMessage) -> MessageMeaning {
    MessageMeaning {
        role: message.role@,
        text: content_text(message.content),
        images: content_images(message.content),
    }
}

/// The messages that a request becomes: the system prompt, then the conversation.
pub open spec fn chat_meanings(request: AnthropicMessagesRequest) -> Seq<MessageMeaning> {
    system_messages(request.system) + request.messages@.map_values(
        |message: AnthropicMessage| message_meaning(message),
    )
}

/// Whether the messages are what a request's system prompt and messages become: the system
/// prompt as plain text, unless it is blank, then each message with its role.
pub open spec fn are_chat_messages(
    messages: Seq<ChatMessage>,
    request: AnthropicMessagesRequest,
) -> bool {
    let first = system_messages(request.system).len();
    &&& messages.len() == first + request.messages@.len()
    &&& first == 1 ==> {
        &&& messages[0].role@ == "system"@
        &&& messages[0].content is Text
        &&& messages[0].content->Text_0@ == system_text(request.system->0)
    }
    &&& forall|i: int|
        #![trigger messages[i]]
        first <= i < messages.len() ==> {
            &&& messages[i].role@ == request.messages@[i - first].role@
            &&& becomes(request.messages@[i - first].content, messages[i].content)
        }
}

/// Whether the messages mean this.
pub open spec fn mean(messages: Seq<ChatMessage>, meanings: Seq<MessageMeaning>) -> bool {
    &&& messages.len() == meanings.len()
    &&& forall|i: int| 0 <= i < messages.len() ==> meaning(#[trigger] messages[i]) == meanings[i]
}

/// The session that a request belongs to: its own field before its metadata.
pub open spec fn session_of(request: AnthropicMessagesRequest) -> Option<Seq<char>> {
    match request.session_id {
        Some(session_id) => Some(session_id@),
        None => match request.metadata {
            Some(metadata) => text_field(metadata@, "session_id"@),
            None => None,
        },
    }
}

fn given_or<'a>(text: &'a Option<String>, default: &'a str) -> (given: &'a str)
    ensures
        given@ == text_or(*text, default@),
{
    match text {
        Some(t) => t.as_str(),
        None => default,
    }
}

fn render_block(block: &AnthropicContentBlock) -> (rendered: Option<String>)
    ensures
        text_of(rendered) == block_text(*block),
{
    match block {
        AnthropicContentBlock::Text { text } => Some(text.clone()),
        AnthropicContentBlock::Image { source } => {
            let mut text = concat3(
                "[Anthropic image block: ",
                given_or(&source.media_type, "image payload omitted"),
                " (",
            );
            text.append(given_or(&source.source_type, "unknown source"));
            text.append(")]");
            Some(text)
        },
        AnthropicContentBlock::ToolUse { id, name, input } => {
            let mut text = concat3("[Anthropic tool_use ", name.as_str(), " (");
            text.append(id.as_str());
            text.append(")]\n");
            text.append(input.to_text().as_str());
            Some(text)
        },
        AnthropicContentBlock::ToolResult { tool_use_id, content } => {
            let mut text = concat3("[Anthropic tool_result for ", tool_use_id.as_str(), "]\n");
            text.append(content.to_text().as_str());
            Some(text)
        },
        AnthropicContentBlock::Unsupported => None,
    }
}

/// The text of a message.
pub fn render_anthropic_message_content(content: &AnthropicMessageContent) -> (text: String)
    ensures
        text@ == content_text(*content),
{
    match content {
        AnthropicMessageContent::Text(text) => text.clone(),
        AnthropicMessageContent::Blocks(blocks) => {
            let mut rendered: Vec<String> = Vec::new();
            let mut at: usize = 0;
            while at < blocks.len()
                invariant
                    at <= blocks.len(),
                    texts(rendered@) == block_texts(blocks@.take(at as int)),
                decreases blocks.len() - at,
            {
                let ghost before = texts(rendered@);
                assert(blocks@.take(at + 1).drop_last() == blocks@.take(at as int));
                match render_block(&blocks[at]) {
                    Some(text) => {
                        rendered.push(text);
                        assert(texts(rendered@) == before.push(text@));
                    },
                    None => {},
                }
                at = at + 1;
            }
            assert(blocks@.take(blocks.len() as int) == blocks@);
            join(&rendered, "\n")
        },
    }
}

fn read_source_image(source: &AnthropicImageSource) -> (image: Option<ImageInput>)
    ensures
        match image {
            Some(i) => source_image(*source) == Some(i@),
            None => source_image(*source) is None,
        },
{
    match &source.data {
        Some(data) => Some(
            ImageInput::Data {
                media_type: given_or(&source.media_type, "application/octet-stream").to_owned(),
                data: data.clone(),
            },
        ),
        None => match &source.url {
            Some(url) => Some(ImageInput::Url(url.clone())),
            None => None,
        },
    }
}

fn block_part(block: &AnthropicContentBlock) -> (part: Option<MessagePart>)
    ensures
        match block_line(*block) {
            Some(line) => part is Some && is_line(part->0, line),
            None => part is None,
        },
{
    match render_block(block) {
        Some(text) => {
            let image = match block {
                AnthropicContentBlock::Image { source } => read_source_image(source),
                _ => None,
            };
            match image {
                Some(image) => Some(MessagePart::Image { caption: text, image }),
                None => Some(MessagePart::Text { text }),
            }
        },
        None => None,
    }
}

fn block_parts(blocks: &Vec<AnthropicContentBlock>) -> (parts: Vec<MessagePart>)
    ensures
        are_lines(parts@, block_lines(blocks@)),
{
    let mut parts: Vec<MessagePart> = Vec::new();
    let mut at: usize = 0;
    while at < blocks.len()
        invariant
            at <= blocks.len(),
            are_lines(parts@, block_lines(blocks@.take(at as int))),
        decreases blocks.len() - at,
    {
        assert(blocks@.take(at + 1).drop_last() == blocks@.take(at as int));
        match block_part(&blocks[at]) {
            Some(part) => {
                parts.push(part);
            },
            None => {},
        }
        at = at + 1;
    }
    assert(blocks@.take(blocks.len() as int) == blocks@);
    parts
}

fn hold_image(blocks: &Vec<AnthropicContentBlock>) -> (yes: bool)
    ensures
        yes == (block_images(blocks@).len() > 0),
{
    let mut found = false;
    let mut at: usize = 0;
    while at < blocks.len()
        invariant
            at <= blocks.len(),
            found == (block_images(blocks@.take(at as int)).len() > 0),
        decreases blocks.len() - at,
    {
        assert(blocks@.take(at + 1).drop_last() == blocks@.take(at as int));
        match &blocks[at] {
            AnthropicContentBlock::Image { source } => {
                if source.data.is_some() || source.url.is_some() {
                    found = true;
                }
            },
            _ => {},
        }
        at = at + 1;
    }
    assert(blocks@.take(blocks.len() as int) == blocks@);
    found
}

proof fn lemma_lines_keep_texts_and_images(
    parts: Seq<MessagePart>,
    blocks: Seq<AnthropicContentBlock>,
)
    requires
        are_lines(parts, block_lines(blocks)),
    ensures
        part_texts(parts) == block_texts(blocks),
        part_images(parts) == block_images(blocks),
    decreases blocks.len(),
{
    if blocks.len() > 0 {
        let earlier = blocks.drop_last();
        match block_line(blocks.last()) {
            Some(line) => {
                let last = parts.len() - 1;
                assert(is_line(parts[last], block_lines(blocks)[last]));
                assert forall|i: int| 0 <= i < last implies is_line(
                    #[trigger] parts.drop_last()[i],
                    block_lines(earlier)[i],
                ) by {
                    assert(is_line(parts[i], block_lines(blocks)[i]));
                }
                lemma_lines_keep_texts_and_images(parts.drop_last(), earlier);
            },
            None => {
                lemma_lines_keep_texts_and_images(parts, earlier);
            },
        }
    }
}

fn chat_content(content: &AnthropicMessageContent) -> (chat: MessageContent)
    ensures
        becomes(*content, chat),
        match chat {
            MessageContent::Text(text) => text@ == content_text(*content) && content_images(
                *content,
            ) == Seq::<ImageView>::empty(),
            MessageContent::Parts(parts) => joined(part_texts(parts@), "\n"@) == content_text(
                *content,
            ) && part_images(parts@) == content_images(*content),
        },
{
    if let AnthropicMessageContent::Blocks(blocks) = content {
        if hold_image(blocks) {
            let parts = block_parts(blocks);
            proof {
                lemma_lines_keep_texts_and_images(parts@, blocks@);
            }
            return MessageContent::Parts(parts);
        }
    }
    MessageContent::Text(render_anthropic_message_content(content))
}

proof fn lemma_block_place(blocks: Seq<AnthropicContentBlock>, at: int) -> (place: int)
    requires
        0 <= at < blocks.len(),
        block_text(blocks[at]) is Some,
    ensures
        0 <= place < block_texts(blocks).len(),
        block_texts(blocks)[place] == block_text(blocks[at])->0,
    decreases blocks.len(),
{
    if at == blocks.len() - 1 {
        block_texts(blocks).len() - 1
    } else {
        lemma_block_place(blocks.drop_last(), at)
    }
}

/// A message with an image is never blank.
pub proof fn law_message_with_an_image_is_not_blank(
    blocks: Seq<AnthropicContentBlock>,
    at: int,
)
    requires
        0 <= at < blocks.len(),
        blocks[at] is Image,
    ensures
        !is_blank(joined(block_texts(blocks), "\n"@)),
{
    let marker = block_text(blocks[at])->0;
    let text = joined(block_texts(blocks), "\n"@);
    let place = lemma_block_place(blocks, at);
    lemma_occurs_in_joined(block_texts(blocks), "\n"@, place);
    let start = choose|i: int|
        0 <= i <= text.len() - marker.len() && #[trigger] text.subrange(i, i + marker.len())
            == marker;
    reveal_strlit("[Anthropic image block: ");
    assert(marker[0] == '[');
    assert(text[start] == text.subrange(start, start + marker.len())[0]);
    lemma_not_blank(text, start);
}

/// The text of a system prompt.
pub fn render_anthropic_system_prompt(system: &AnthropicSystemPrompt) -> (text: String)
    ensures
        text@ == system_text(*system),
{
    match system {
        AnthropicSystemPrompt::Text(text) => text.clone(),
        AnthropicSystemPrompt::Blocks(blocks) => {
            let mut rendered: Vec<String> = Vec::new();
            let mut at: usize = 0;
            while at < blocks.len()
                invariant
                    at <= blocks.len(),
                    texts(rendered@) == system_texts(blocks@.take(at as int)),
                decreases blocks.len() - at,
            {
                let ghost before = texts(rendered@);
                assert(blocks@.take(at + 1).drop_last() == blocks@.take(at as int));
                match &blocks[at] {
                    AnthropicSystemBlock::Text { text } => {
                        rendered.push(text.clone());
                        assert(texts(rendered@) == before.push(text@));
                    },
                    AnthropicSystemBlock::Unsupported => {},
                }
                at = at + 1;
            }
            assert(blocks@.take(blocks.len() as int) == blocks@);
            join(&rendered, "\n")
        },
    }
}

impl AnthropicMessagesRequest {
    fn chat_messages(&self) -> (messages: Vec<ChatMessage>)
        ensures
            mean(messages@, chat_meanings(*self)),
            are_chat_messages(messages@, *self),
    {
        let mut messages: Vec<ChatMessage> = Vec::new();
        match &self.system {
            Some(prompt) => {
                let system = render_anthropic_system_prompt(prompt);
                if !blank(system.as_str()) {
                    messages.push(
                        ChatMessage {
                            role: "system".to_owned(),
                            content: MessageContent::Text(system),
                        },
                    );
                }
            },
            None => {},
        }
        let ghost head = system_messages(self.system);
        let ghost meanings = chat_meanings(*self);
        let mut at: usize = 0;
        while at < self.messages.len()
            invariant
                at <= self.messages.len(),
                head == system_messages(self.system),
                meanings == chat_meanings(*self),
                meanings.len() == head.len() + self.messages.len(),
                mean(messages@, meanings.take(head.len() + at)),
                head.len() == 1 ==> {
                    &&& messages@[0].role@ == "system"@
                    &&& messages@[0].content is Text
                    &&& messages@[0].content->Text_0@ == system_text(self.system->0)
                },
                forall|i: int|
                    #![trigger messages@[i]]
                    head.len() <= i < messages.len() ==> {
                        &&& messages@[i].role@ == self.messages@[i - head.len()].role@
                        &&& becomes(self.messages@[i - head.len()].content, messages@[i].content)
                    },
            decreases self.messages.len() - at,
        {
            let message = &self.messages[at];
            messages.push(
                ChatMessage {
                    role: message.role.clone(),
                    content: chat_content(&message.content),
                },
            );
            assert(meanings[head.len() + at] == message_meaning(*message));
            at = at + 1;
        }
        assert(meanings.take(meanings.len() as int) == meanings);
        messages
    }

    fn chosen_session(&self) -> (session_id: Option<String>)
        ensures
            text_of(session_id) == session_of(*self),
    {
        match &self.session_id {
            Some(session_id) => Some(session_id.clone()),
            None => match &self.metadata {
                Some(metadata) => match metadata.text_at("session_id") {
                    Some(text) => Some(text.to_owned()),
                    None => None,
                },
                None => None,
            },
        }
    }

    /// The chat completion request with the same meaning.
    pub fn into_chat_completion(self) -> (request: ChatCompletionRequest)
        ensures
            request.model == self.model,
            are_chat_messages(request.messages@, self),
            mean(request.messages@, chat_meanings(self)),
            request.stream == self.stream,
            text_of(request.session_id) == session_of(self),
            request.enable_tools == (match self.enable_tools {
                Some(enabled) => Some(enabled),
                None => if self.tools is Some || self.tool_choice is Some {
                    Some(true)
                } else {
                    None
                },
            }),
            request.enable_web_search == self.enable_web_search,
            request.working_directory == self.working_directory,
            text_of(request.reasoning_effort) == (match self.reasoning_effort {
                Some(effort) => Some(effort@),
                None => if self.thinking is Some {
                    Some("medium"@)
                } else {
                    None
                },
            }),
            request.n == Some(1u32),
            request.max_tokens == self.max_tokens,
            request.max_completion_tokens is None,
            request.temperature == self.temperature,
            request.top_p == self.top_p,
            request.stop == (match self.stop_sequences {
                Some(sequences) => Some(StopSequences::Multiple(sequences)),
                None => None,
            }),
            request.response_format is None,
            request.tools == self.tools,
            request.tool_choice == self.tool_choice,
            request.metadata == self.metadata,
            request.user is None,
            request.include_wrapper_metadata == Some(true),
            request.stream_options is None,
    {
        let messages = self.chat_messages();
        let session_id = self.chosen_session();
        let enable_tools = match self.enable_tools {
            Some(enabled) => Some(enabled),
            None => if self.tools.is_some() || self.tool_choice.is_some() {
                Some(true)
            } else {
                None
            },
        };
        let reasoning_effort = match self.reasoning_effort {
            Some(effort) => Some(effort),
            None => if self.thinking.is_some() {
                Some("medium".to_owned())
            } else {
                None
            },
        };
        let stop = match self.stop_sequences {
            Some(sequences) => Some(StopSequences::Multiple(sequences)),
            None => None,
        };
        ChatCompletionRequest {
            model: self.model,
            messages,
            stream: self.stream,
            session_id,
            enable_tools,
            enable_web_search: self.enable_web_search,
            working_directory: self.working_directory,
            reasoning_effort,
            n: Some(1),
            max_tokens: self.max_tokens,
            max_completion_tokens: None,
            temperature: self.temperature,
            top_p: self.top_p,
            stop,
            response_format: None,
            tools: self.tools,
            tool_choice: self.tool_choice,
            metadata: self.metadata,
            user: None,
            include_wrapper_metadata: Some(true),
            stream_options: None,
        }
    }
}

/// A session id that a request gives itself is its session, whatever its metadata holds; where it
/// gives none, a text under `session_id` in its metadata is, and without that it has none.
pub proof fn law_own_session_id_comes_first(
    anthropic: AnthropicMessagesRequest,
    chat: ChatCompletionRequest,
    members: Map<Seq<char>, JsonView>,
    text: Seq<char>,
)
    requires
        text_of(chat.session_id) == session_of(anthropic),
    ensures
        anthropic.session_id matches Some(id) ==> chat.session_id is Some && chat.session_id->0@
            == id@,
        anthropic.session_id is None && anthropic.metadata is None ==> chat.session_id is None,
        anthropic.session_id is None && anthropic.metadata is Some && anthropic.metadata->0@
            == JsonView::Object(members) ==> {
            &&& members.contains_key("session_id"@) && members["session_id"@] == JsonView::Text(
                text,
            ) ==> chat.session_id is Some && chat.session_id->0@ == text
            &&& !members.contains_key("session_id"@) || !(members["session_id"@] is Text)
                ==> chat.session_id is None
        },
{
}

/// The text of a block is its own text, character for character; an image, a use of a tool and
/// its result are named, with what they hold; any other block has no text.
pub proof fn law_blocks_have_their_texts(
    text: String,
    id: String,
    name: String,
    input: JsonValue,
    source: AnthropicImageSource,
)
    ensures
        block_text(AnthropicContentBlock::Text { text }) == Some(text@),
        block_text(AnthropicContentBlock::ToolUse { id, name, input }) == Some(
            "[Anthropic tool_use "@ + name@ + " ("@ + id@ + ")]\n"@ + json_text(input@),
        ),
        block_text(AnthropicContentBlock::ToolResult { tool_use_id: id, content: input }) == Some(
            "[Anthropic tool_result for "@ + id@ + "]\n"@ + json_text(input@),
        ),
        block_text(AnthropicContentBlock::Unsupported) is None,
        block_text(AnthropicContentBlock::Image { source }) == Some(
            "[Anthropic image block: "@ + (match source.media_type {
                Some(media) => media@,
                None => "image payload omitted"@,
            }) + " ("@ + (match source.source_type {
                Some(kind) => kind@,
                None => "unknown source"@,
            }) + ")]"@,
        ),
{
}

/// The image of a block is its data where it has any, else the one at its address; a block that
/// is no image has none.
pub proof fn law_blocks_have_their_images(source: AnthropicImageSource, text: String)
    ensures
        source.data matches Some(data) ==> {
            let image = block_image(AnthropicContentBlock::Image { source });
            &&& image is Some && image->0 is Data && image->0->data == data@
            &&& source.media_type matches Some(media) ==> image->0->media_type == media@
            &&& source.media_type is None ==> image->0->media_type == "application/octet-stream"@
        },
        source.data is None ==> (source.url matches Some(url) ==> block_image(
            AnthropicContentBlock::Image { source },
        ) == Some(ImageView::Url(url@))),
        source.data is None && source.url is None ==> block_image(
            AnthropicContentBlock::Image { source },
        ) is None,
        block_image(AnthropicContentBlock::Text { text }) is None,
        block_image(AnthropicContentBlock::Unsupported) is None,
{
}

/// The blocks of a message are read in order and one by one: those of two lists are those of the
/// first and then those of the second, and a block alone is its own text and image.
pub proof fn law_blocks_are_read_in_order(
    one: Seq<AnthropicContentBlock>,
    other: Seq<AnthropicContentBlock>,
    block: AnthropicContentBlock,
)
    ensures
        block_texts(one + other) == block_texts(one) + block_texts(other),
        block_images(one + other) == block_images(one) + block_images(other),
        block_lines(one + other) == block_lines(one) + block_lines(other),
        block is Text ==> block_texts(seq![block]) == seq![block->text@] && block_lines(
            seq![block],
        ) == seq![(Line { text: block->text@, image: None })],
        block is Unsupported ==> block_texts(seq![block]).len() == 0 && block_lines(
            seq![block],
        ).len() == 0,
        !(block is Image) ==> block_images(seq![block]).len() == 0,
    decreases other.len(),
{
    let alone = seq![block];
    assert(alone.drop_last() =~= Seq::<AnthropicContentBlock>::empty());
    assert(block_texts(alone.drop_last()) =~= Seq::<Seq<char>>::empty());
    assert(block_images(alone.drop_last()) =~= Seq::<ImageView>::empty());
    assert(block_lines(alone.drop_last()) =~= Seq::<Line>::empty());
    if block is Text {
        assert(block_texts(alone) =~= seq![block->text@]);
        assert(block_lines(alone) =~= seq![(Line { text: block->text@, image: None })]);
    }
    if other.len() == 0 {
        assert(one + other =~= one);
        assert(block_texts(one) + block_texts(other) =~= block_texts(one));
        assert(block_images(one) + block_images(other) =~= block_images(one));
        assert(block_lines(one) + block_lines(other) =~= block_lines(one));
    } else {
        law_blocks_are_read_in_order(one, other.drop_last(), block);
        assert((one + other).drop_last() =~= one + other.drop_last());
        assert(block_texts(one + other) =~= block_texts(one) + block_texts(other));
        assert(block_images(one + other) =~= block_images(one) + block_images(other));
        assert(block_lines(one + other) =~= block_lines(one) + block_lines(other));
    }
}

/// A message of plain text has that text, character for character; one of blocks holds the
/// whole text of each of its text blocks.
pub proof fn law_message_text_is_kept_whole(
    text: String,
    blocks: Vec<AnthropicContentBlock>,
    at: int,
) -> (around: (Seq<char>, Seq<char>))
    requires
        0 <= at < blocks@.len(),
        blocks@[at] is Text,
    ensures
        content_text(AnthropicMessageContent::Text(text)) == text@,
        content_images(AnthropicMessageContent::Text(text)).len() == 0,
        content_text(AnthropicMessageContent::Blocks(blocks)) == around.0 + blocks@[at]->text@
            + around.1,
{
    let before = blocks@.take(at);
    let own = seq![blocks@[at]];
    let after = blocks@.skip(at + 1);
    assert(blocks@ =~= before + own + after);
    law_blocks_are_read_in_order(before + own, after, blocks@[at]);
    law_blocks_are_read_in_order(before, own, blocks@[at]);
    let lines = block_texts(blocks@);
    let place = block_texts(before).len() as int;
    assert(lines[place] == blocks@[at]->text@);
    lemma_occurs_in_joined(lines, "\n"@, place);
    law_occurrence(lines[place], joined(lines, "\n"@), Seq::empty(), Seq::empty())
}

/// Two text blocks make two lines, and nothing else stands between them.
pub proof fn law_text_blocks_make_lines(blocks: Vec<AnthropicContentBlock>)
    requires
        blocks@.len() == 2,
        blocks@[0] is Text,
        blocks@[1] is Text,
    ensures
        content_text(AnthropicMessageContent::Blocks(blocks)) == blocks@[0]->text@ + "\n"@
            + blocks@[1]->text@,
{
    let (one, other) = (seq![blocks@[0]], seq![blocks@[1]]);
    assert(blocks@ =~= one + other);
    law_blocks_are_read_in_order(one, other, blocks@[0]);
    law_blocks_are_read_in_order(one, other, blocks@[1]);
    law_joining_keeps_every_part(
        block_texts(one),
        block_texts(other),
        blocks@[0]->text@,
        "\n"@,
    );
    law_joining_keeps_every_part(
        block_texts(one),
        block_texts(other),
        blocks@[1]->text@,
        "\n"@,
    );
}

/// A system prompt of plain text is that text, character for character; one of blocks is its
/// text blocks in order, each a line, and other blocks are passed over.
pub proof fn law_system_prompt_is_kept_whole(
    text: String,
    one: Seq<AnthropicSystemBlock>,
    other: Seq<AnthropicSystemBlock>,
    block: AnthropicSystemBlock,
    alone: Vec<AnthropicSystemBlock>,
)
    ensures
        system_text(AnthropicSystemPrompt::Text(text)) == text@,
        system_texts(one + other) == system_texts(one) + system_texts(other),
        block is Text ==> system_texts(seq![block]) == seq![block->text@],
        block is Unsupported ==> system_texts(seq![block]).len() == 0,
        alone@ == seq![block] && block is Text ==> system_text(AnthropicSystemPrompt::Blocks(alone))
            == block->text@,
    decreases other.len(),
{
    let single = seq![block];
    assert(single.drop_last() =~= Seq::<AnthropicSystemBlock>::empty());
    assert(system_texts(single.drop_last()) =~= Seq::<Seq<char>>::empty());
    if block is Text {
        assert(system_texts(single) =~= seq![block->text@]);
    }
    if other.len() == 0 {
        assert(one + other =~= one);
        assert(system_texts(one) + system_texts(other) =~= system_texts(one));
    } else {
        law_system_prompt_is_kept_whole(text, one, other.drop_last(), block, alone);
        assert((one + other).drop_last() =~= one + other.drop_last());
        assert(system_texts(one + other) =~= system_texts(one) + system_texts(other));
    }
}

/// The messages of the chat completion request are the system prompt, unless there is none or it
/// is blank, and then the messages in order: each keeps its role, and one of plain text its whole
/// text.
pub proof fn law_messages_carry_over(
    anthropic: AnthropicMessagesRequest,
    messages: Seq<ChatMessage>,
    prompt: String,
    at: int,
)
    requires
        are_chat_messages(messages, anthropic),
    ensures
        ({
            let first = messages.len() - anthropic.messages@.len();
            let given = anthropic.system == Some(AnthropicSystemPrompt::Text(prompt));
            &&& anthropic.system is None ==> first == 0
            &&& given && is_blank(prompt@) ==> first == 0
            &&& given && !is_blank(prompt@) ==> {
                &&& first == 1
                &&& messages[0].role@ == "system"@
                &&& messages[0].content is Text
                &&& messages[0].content->Text_0@ == prompt@
            }
            &&& 0 <= at < anthropic.messages@.len() ==> messages[first + at].role@
                == anthropic.messages@[at].role@
            &&& 0 <= at < anthropic.messages@.len() ==> (
            anthropic.messages@[at].content matches AnthropicMessageContent::Text(text) ==> {
                &&& messages[first + at].content is Text
                &&& messages[first + at].content->Text_0@ == text@
            })
        }),
{
    let first = messages.len() - anthropic.messages@.len();
    if 0 <= at < anthropic.messages@.len() {
        assert(messages[first + at].role@ == anthropic.messages@[at].role@);
    }
}

/// A message of text blocks alone becomes plain text, that of its blocks; a message with an image
/// keeps it, as a part.
pub proof fn law_blocks_carry_over(
    content: AnthropicMessageContent,
    blocks: Vec<AnthropicContentBlock>,
    chat: MessageContent,
    at: int,
)
    requires
        content == AnthropicMessageContent::Blocks(blocks),
        becomes(content, chat),
        0 <= at < blocks@.len(),
    ensures
        (forall|i: int| 0 <= i < blocks@.len() ==> (#[trigger] blocks@[i]) is Text) ==> chat is Text
            && chat->Text_0@ == content_text(content),
        blocks@[at] is Image && (blocks@[at]->source.data is Some
            || blocks@[at]->source.url is Some) ==> chat is Parts && exists|i: int|
            0 <= i < chat->Parts_0@.len() && (#[trigger] chat->Parts_0@[i]) is Image
                && Some(chat->Parts_0@[i]->image@) == block_image(blocks@[at]),
{
    let before = blocks@.take(at);
    let own = seq![blocks@[at]];
    let after = blocks@.skip(at + 1);
    assert(blocks@ =~= before + own + after);
    law_blocks_are_read_in_order(before + own, after, blocks@[at]);
    law_blocks_are_read_in_order(before, own, blocks@[at]);
    if forall|i: int| 0 <= i < blocks@.len() ==> (#[trigger] blocks@[i]) is Text {
        lemma_texts_hold_no_image(blocks@);
    }
    if blocks@[at] is Image && (blocks@[at]->source.data is Some
        || blocks@[at]->source.url is Some) {
        assert(own.drop_last() =~= Seq::<AnthropicContentBlock>::empty());
        assert(block_images(own.drop_last()) =~= Seq::<ImageView>::empty());
        assert(block_lines(own.drop_last()) =~= Seq::<Line>::empty());
        assert(block_images(own).len() == 1);
        assert(block_lines(own).len() == 1);
        let place = block_lines(before).len() as int;
        assert(block_lines(blocks@)[place] == block_lines(own)[0]);
        assert(is_line(chat->Parts_0@[place], block_lines(blocks@)[place]));
    }
}

proof fn lemma_texts_hold_no_image(blocks: Seq<AnthropicContentBlock>)
    requires
        forall|i: int| 0 <= i < blocks.len() ==> (#[trigger] blocks[i]) is Text,
    ensures
        block_images(blocks).len() == 0,
    decreases blocks.len(),
{
    if blocks.len() > 0 {
        assert forall|i: int| 0 <= i < blocks.drop_last().len() implies (
        #[trigger] blocks.drop_last()[i]) is Text by {
            assert(blocks.drop_last()[i] == blocks[i]);
        }
        lemma_texts_hold_no_image(blocks.drop_last());
        assert(blocks[blocks.len() - 1] is Text);
    }
}

/// Where a message becomes parts, there is one for each line: an image with its caption, and any
/// other line as text, each whole and in its place.
pub proof fn law_lines_become_parts(parts: Seq<MessagePart>, lines: Seq<Line>, at: int)
    requires
        are_lines(parts, lines),
        0 <= at < lines.len(),
    ensures
        parts.len() == lines.len(),
        lines[at].image is None ==> parts[at] is Text && parts[at]->text@ == lines[at].text,
        lines[at].image matches Some(image) ==> parts[at] is Image && parts[at]->caption@
            == lines[at].text && parts[at]->image@ == image,
{
    assert(is_line(parts[at], lines[at]));
}

/// The text blocks of a message with an image are kept beside it, each whole.
pub proof fn law_texts_beside_an_image_are_kept(
    blocks: Vec<AnthropicContentBlock>,
    chat: MessageContent,
    at: int,
)
    requires
        becomes(AnthropicMessageContent::Blocks(blocks), chat),
        chat is Parts,
        0 <= at < blocks@.len(),
        blocks@[at] is Text,
    ensures
        exists|i: int|
            0 <= i < chat->Parts_0@.len() && (#[trigger] chat->Parts_0@[i]) is Text
                && chat->Parts_0@[i]->text@ == blocks@[at]->text@,
{
    let before = blocks@.take(at);
    let own = seq![blocks@[at]];
    let after = blocks@.skip(at + 1);
    assert(blocks@ =~= before + own + after);
    law_blocks_are_read_in_order(before + own, after, blocks@[at]);
    law_blocks_are_read_in_order(before, own, blocks@[at]);
    let place = block_lines(before).len() as int;
    assert(block_lines(blocks@)[place] == block_lines(own)[0]);
    law_lines_become_parts(chat->Parts_0@, block_lines(blocks@), place);
}

} // verus!
