//! The chat completion request and the text of its messages.

use crate::image::{
    image_of_url, image_url, image_views, law_image_keeps_its_address, read_image_url, ImageInput,
    ImageView,
};
use crate::json::JsonValue;
use crate::text::{
    concat3, join, joined, law_joining_keeps_every_part, law_occurrence,
    lemma_occurs_in_joined, occurs_in, texts,
};
use vstd::prelude::*;

verus! {

/// A chat completion request.
#[derive(Debug, Clone)]
pub struct ChatCompletionRequest {
    pub model: String,
    pub messages: Vec<ChatMessage>,
    pub stream: bool,
    pub session_id: Option<String>,
    pub enable_tools: Option<bool>,
    pub enable_web_search: Option<bool>,
    pub working_directory: Option<String>,
    pub reasoning_effort: Option<String>,
    pub n: Option<u32>,
    pub max_tokens: Option<u32>,
    pub max_completion_tokens: Option<u32>,
    /// The band that the requested temperature falls in.
    pub temperature: Option<TemperatureBand>,
    /// The requested `top_p`, written with two decimals.
    pub top_p: Option<String>,
    pub stop: Option<StopSequences>,
    pub response_format: Option<ResponseFormatRequest>,
    pub tools: Option<JsonValue>,
    pub tool_choice: Option<JsonValue>,
    pub metadata: Option<JsonValue>,
    pub user: Option<String>,
    pub include_wrapper_metadata: Option<bool>,
    pub stream_options: Option<JsonValue>,
}

/// What a sampling temperature asks for.
#[derive(Debug, Clone, Copy, PartialEq, Eq, Structural)]
pub enum TemperatureBand {
    /// At most 0.3.
    Low,
    /// Between 0.3 and 0.9.
    Middle,
    /// At least 0.9.
    High,
}

/// The sequences that the answer must not hold.
#[derive(Debug, Clone)]
pub enum StopSequences {
    Single(String),
    Multiple(Vec<String>),
}

/// The form that the answer must have.
#[derive(Debug, Clone)]
pub enum ResponseFormatRequest {
    Text,
    JsonObject,
    JsonSchema { json_schema: JsonSchemaConfig },
}

/// A JSON schema for the answer.
#[derive(Debug, Clone)]
pub struct JsonSchemaConfig {
    pub name: Option<String>,
    pub schema: JsonValue,
    pub strict: Option<bool>,
}

/// One message of the conversation.
#[derive(Debug, Clone)]
pub struct ChatMessage {
    pub role: String,
    pub content: MessageContent,
}

/// What a message holds.
#[derive(Debug, Clone)]
pub enum MessageContent {
    Text(String),
    Parts(Vec<MessagePart>),
}

/// One part of a message.
#[derive(Debug, Clone)]
pub enum MessagePart {
    Text { text: String },
    ImageUrl { image_url: ImageUrlPayload },
    /// An image with the line of text that stands for it.
    Image { caption: String, image: ImageInput },
    Unsupported,
}

/// Where an image is.
#[derive(Debug, Clone)]
pub enum ImageUrlPayload {
    Raw(String),
    Object { url: String },
}

/// Whether the request may use tools: what it says, else whether it names any.
pub open spec fn tools_enabled(request: ChatCompletionRequest) -> bool {
    match request.enable_tools {
        Some(enabled) => enabled,
        None => request.tools is Some || request.tool_choice is Some,
    }
}

/// Whether the request may search the web: only where it says so.
pub open spec fn web_search_enabled(request: ChatCompletionRequest) -> bool {
    request.enable_web_search == Some(true)
}

/// Whether the response carries wrapper metadata: only where the request says so.
pub open spec fn metadata_wanted(request: ChatCompletionRequest) -> bool {
    request.include_wrapper_metadata == Some(true)
}

/// The limit on the answer's tokens, the newer field before the older one.
pub open spec fn token_limit(request: ChatCompletionRequest) -> Option<u32> {
    match request.max_completion_tokens {
        Some(limit) => Some(limit),
        None => request.max_tokens,
    }
}

/// The sequences that the answer must not hold.
pub open spec fn stop_texts(request: ChatCompletionRequest) -> Seq<Seq<char>> {
    match request.stop {
        Some(StopSequences::Single(value)) => seq![value@],
        Some(StopSequences::Multiple(values)) => texts(values@),
        None => Seq::empty(),
    }
}

/// Copies a list of strings.
pub fn copy_strings(strings: &Vec<String>) -> (copies: Vec<String>)
    ensures
        copies@ == strings@,
{
    let mut copies: Vec<String> = Vec::new();
    let mut at: usize = 0;
    while at < strings.len()
        invariant
            at <= strings.len(),
            copies@ == strings@.take(at as int),
        decreases strings.len() - at,
    {
        copies.push(strings[at].clone());
        at = at + 1;
    }
    copies
}

/// Copies an optional string.
pub fn copy_text(text: &Option<String>) -> (copy: Option<String>)
    ensures
        copy == *text,
{
    match text {
        Some(t) => Some(t.clone()),
        None => None,
    }
}

impl ChatCompletionRequest {
    /// Whether the request may use tools.
    pub fn enable_tools(&self) -> (enabled: bool)
        ensures
            enabled == tools_enabled(*self),
    {
        match self.enable_tools {
            Some(enabled) => enabled,
            None => self.tools.is_some() || self.tool_choice.is_some(),
        }
    }

    /// Whether the request may search the web.
    pub fn enable_web_search(&self) -> (enabled: bool)
        ensures
            enabled == web_search_enabled(*self),
    {
        self.enable_web_search.unwrap_or(false)
    }

    /// The limit on the answer's tokens.
    pub fn effective_max_tokens(&self) -> (limit: Option<u32>)
        ensures
            limit == token_limit(*self),
    {
        match self.max_completion_tokens {
            Some(limit) => Some(limit),
            None => self.max_tokens,
        }
    }

    /// Whether the response carries wrapper metadata.
    pub fn include_wrapper_metadata(&self) -> (wanted: bool)
        ensures
            wanted == metadata_wanted(*self),
    {
        self.include_wrapper_metadata.unwrap_or(false)
    }

    /// The sequences that the answer must not hold.
    pub fn stop_sequences(&self) -> (sequences: Vec<String>)
        ensures
            texts(sequences@) == stop_texts(*self),
    {
        match &self.stop {
            Some(StopSequences::Single(value)) => {
                let mut sequences: Vec<String> = Vec::new();
                sequences.push(value.clone());
                assert(texts(sequences@) == seq![value@]);
                sequences
            },
            Some(StopSequences::Multiple(values)) => copy_strings(values),
            None => {
                let sequences: Vec<String> = Vec::new();
                assert(texts(sequences@) == Seq::<Seq<char>>::empty());
                sequences
            },
        }
    }
}

/// The text that stands for an image.
pub open spec fn image_text(url: Seq<char>) -> Seq<char> {
    "[Image URL: "@ + url + "]"@
}

/// The text of one part of a message; parts of other kinds have none.
pub open spec fn part_text(part: MessagePart) -> Option<Seq<char>> {
    match part {
        MessagePart::Text { text } => Some(text@),
        MessagePart::ImageUrl { image_url: ImageUrlPayload::Raw(url) } => Some(image_text(url@)),
        MessagePart::ImageUrl { image_url: ImageUrlPayload::Object { url } } => Some(
            image_text(url@),
        ),
        MessagePart::Image { caption, image } => Some(caption@),
        MessagePart::Unsupported => None,
    }
}

/// The image in one part of a message.
pub open spec fn part_image(part: MessagePart) -> Option<ImageView> {
    match part {
        MessagePart::ImageUrl { image_url: ImageUrlPayload::Raw(url) } => Some(image_of_url(url@)),
        MessagePart::ImageUrl { image_url: ImageUrlPayload::Object { url } } => Some(
            image_of_url(url@),
        ),
        MessagePart::Image { caption, image } => Some(image@),
        MessagePart::Text { text } => None,
        MessagePart::Unsupported => None,
    }
}

/// The images in the parts, in order.
pub open spec fn part_images(parts: Seq<MessagePart>) -> Seq<ImageView>
    decreases parts.len(),
{
    if parts.len() == 0 {
        Seq::empty()
    } else {
        match part_image(parts.last()) {
            Some(image) => part_images(parts.drop_last()).push(image),
            None => part_images(parts.drop_last()),
        }
    }
}

/// The images in a message, in order.
pub open spec fn message_images(message: ChatMessage) -> Seq<ImageView> {
    match message.content {
        MessageContent::Text(_) => Seq::empty(),
        MessageContent::Parts(parts) => part_images(parts@),
    }
}

/// The texts of the parts that have one, in order.
pub open spec fn part_texts(parts: Seq<MessagePart>) -> Seq<Seq<char>>
    decreases parts.len(),
{
    if parts.len() == 0 {
        Seq::empty()
    } else {
        match part_text(parts.last()) {
            Some(text) => part_texts(parts.drop_last()).push(text),
            None => part_texts(parts.drop_last()),
        }
    }
}

/// The text of a message: as it stands, or one line for each part that has a text.
pub open spec fn message_text(message: ChatMessage) -> Seq<char> {
    match message.content {
        MessageContent::Text(text) => text@,
        MessageContent::Parts(parts) => joined(part_texts(parts@), "\n"@),
    }
}

/// The text of every part that has one stands in the text of the message.
pub proof fn law_message_text_holds_every_part(parts: Seq<MessagePart>, at: int)
    requires
        0 <= at < parts.len(),
        part_text(parts[at]) is Some,
    ensures
        occurs_in(part_text(parts[at])->0, joined(part_texts(parts), "\n"@)),
{
    let place = lemma_part_place(parts, at);
    lemma_occurs_in_joined(part_texts(parts), "\n"@, place);
}

proof fn lemma_part_place(parts: Seq<MessagePart>, at: int) -> (place: int)
    requires
        0 <= at < parts.len(),
        part_text(parts[at]) is Some,
    ensures
        0 <= place < part_texts(parts).len(),
        part_texts(parts)[place] == part_text(parts[at])->0,
    decreases parts.len(),
{
    if at == parts.len() - 1 {
        part_texts(parts).len() - 1
    } else {
        lemma_part_place(parts.drop_last(), at)
    }
}

fn render_part(part: &MessagePart) -> (text: Option<String>)
    ensures
        match text {
            Some(t) => part_text(*part) == Some(t@),
            None => part_text(*part) is None,
        },
{
    match part {
        MessagePart::Text { text } => Some(text.clone()),
        MessagePart::ImageUrl { image_url } => match image_url {
            ImageUrlPayload::Raw(url) => Some(concat3("[Image URL: ", url.as_str(), "]")),
            ImageUrlPayload::Object { url } => Some(concat3("[Image URL: ", url.as_str(), "]")),
        },
        MessagePart::Image { caption, .. } => Some(caption.clone()),
        MessagePart::Unsupported => None,
    }
}

fn read_part_image(part: &MessagePart) -> (image: Option<ImageInput>)
    ensures
        match image {
            Some(i) => part_image(*part) == Some(i@),
            None => part_image(*part) is None,
        },
{
    match part {
        MessagePart::ImageUrl { image_url } => match image_url {
            ImageUrlPayload::Raw(url) => Some(read_image_url(url.as_str())),
            ImageUrlPayload::Object { url } => Some(read_image_url(url.as_str())),
        },
        MessagePart::Image { image, .. } => Some(image.clone()),
        MessagePart::Text { .. } => None,
        MessagePart::Unsupported => None,
    }
}

/// The images in a message, in order.
pub fn images_of_message(message: &ChatMessage) -> (images: Vec<ImageInput>)
    ensures
        image_views(images@) == message_images(*message),
{
    let mut images: Vec<ImageInput> = Vec::new();
    assert(image_views(images@) == Seq::<ImageView>::empty());
    match &message.content {
        MessageContent::Text(_) => images,
        MessageContent::Parts(parts) => {
            let mut at: usize = 0;
            while at < parts.len()
                invariant
                    at <= parts.len(),
                    image_views(images@) == part_images(parts@.take(at as int)),
                decreases parts.len() - at,
            {
                let ghost before = image_views(images@);
                assert(parts@.take(at + 1).drop_last() == parts@.take(at as int));
                match read_part_image(&parts[at]) {
                    Some(image) => {
                        images.push(image);
                        assert(image_views(images@) == before.push(image@));
                    },
                    None => {},
                }
                at = at + 1;
            }
            assert(parts@.take(parts.len() as int) == parts@);
            images
        },
    }
}

/// Every image in a part is among the images of the message.
pub proof fn law_message_images_hold_every_part(parts: Seq<MessagePart>, at: int)
    requires
        0 <= at < parts.len(),
        part_image(parts[at]) is Some,
    ensures
        part_images(parts).contains(part_image(parts[at])->0),
    decreases parts.len(),
{
    let images = part_images(parts);
    if at == parts.len() - 1 {
        assert(images[images.len() - 1] == part_image(parts[at])->0);
    } else {
        let before = part_images(parts.drop_last());
        law_message_images_hold_every_part(parts.drop_last(), at);
        let place = choose|i: int| 0 <= i < before.len() && before[i] == part_image(parts[at])->0;
        assert(images[place] == before[place]);
    }
}

/// The text of a message.
pub fn normalize_message_text(message: &ChatMessage) -> (text: String)
    ensures
        text@ == message_text(*message),
{
    match &message.content {
        MessageContent::Text(text) => text.clone(),
        MessageContent::Parts(parts) => {
            let mut rendered: Vec<String> = Vec::new();
            let mut at: usize = 0;
            assert(texts(rendered@) == part_texts(parts@.take(0)));
            while at < parts.len()
                invariant
                    at <= parts.len(),
                    texts(rendered@) == part_texts(parts@.take(at as int)),
                decreases parts.len() - at,
            {
                let ghost before = texts(rendered@);
                assert(parts@.take(at + 1).drop_last() == parts@.take(at as int));
                match render_part(&parts[at]) {
                    Some(text) => {
                        rendered.push(text);
                        assert(texts(rendered@) == before.push(text@));
                    },
                    None => {},
                }
                at = at + 1;
            }
            assert(parts@.take(parts.len() as int) == parts@);
            join(&rendered, "\n")
        },
    }
}

/// What a request says about tools decides; where it says nothing, naming tools or a choice among
/// them means that it may use them.
pub proof fn law_tools_are_opted_into(request: ChatCompletionRequest)
    ensures
        request.enable_tools == Some(true) ==> tools_enabled(request),
        request.enable_tools == Some(false) ==> !tools_enabled(request),
        request.enable_tools is None && request.tools is Some ==> tools_enabled(request),
        request.enable_tools is None && request.tool_choice is Some ==> tools_enabled(request),
        request.enable_tools is None && request.tools is None && request.tool_choice is None
            ==> !tools_enabled(request),
{
}

/// Web search and wrapper metadata are given to those who ask for them, and to nobody else.
pub proof fn law_web_search_and_metadata_are_opted_into(request: ChatCompletionRequest)
    ensures
        request.enable_web_search == Some(true) ==> web_search_enabled(request),
        request.enable_web_search != Some(true) ==> !web_search_enabled(request),
        request.include_wrapper_metadata == Some(true) ==> metadata_wanted(request),
        request.include_wrapper_metadata != Some(true) ==> !metadata_wanted(request),
{
}

/// The newer token limit counts where it is given, else the older one.
pub proof fn law_newer_token_limit_counts(request: ChatCompletionRequest, limit: u32)
    ensures
        request.max_completion_tokens == Some(limit) ==> token_limit(request) == Some(limit),
        request.max_completion_tokens is None && request.max_tokens == Some(limit) ==> token_limit(
            request,
        ) == Some(limit),
        request.max_completion_tokens is None && request.max_tokens is None ==> token_limit(
            request,
        ) is None,
{
}

/// Every stop sequence of a request is among its stop sequences, as it stands and in its place.
pub proof fn law_stop_sequences_are_kept(
    request: ChatCompletionRequest,
    single: String,
    several: Vec<String>,
    at: int,
)
    ensures
        request.stop is None ==> stop_texts(request).len() == 0,
        request.stop == Some(StopSequences::Single(single)) ==> stop_texts(request).len() == 1
            && stop_texts(request)[0] == single@,
        request.stop == Some(StopSequences::Multiple(several)) ==> stop_texts(request).len()
            == several@.len(),
        request.stop == Some(StopSequences::Multiple(several)) && 0 <= at < several@.len()
            ==> stop_texts(request)[at] == several@[at]@,
{
}

/// A message of plain text has that text, character for character, and no image.
pub proof fn law_plain_message_has_its_own_text(message: ChatMessage, text: String)
    requires
        message.content == MessageContent::Text(text),
    ensures
        message_text(message) == text@,
        message_images(message).len() == 0,
{
}

/// A part that is text, or an image at an address, or an image with a caption, has a line; any
/// other part has none.
pub proof fn law_parts_have_their_lines(text: String, url: String, image: ImageInput)
    ensures
        part_text(MessagePart::Text { text }) == Some(text@),
        part_text(MessagePart::ImageUrl { image_url: ImageUrlPayload::Raw(url) }) == Some(
            "[Image URL: "@ + url@ + "]"@,
        ),
        part_text(MessagePart::ImageUrl { image_url: ImageUrlPayload::Object { url } }) == Some(
            "[Image URL: "@ + url@ + "]"@,
        ),
        part_text(MessagePart::Image { caption: text, image }) == Some(text@),
        part_text(MessagePart::Unsupported) is None,
{
}

/// The image of a part is the one at its address, or the one that it holds; text has none.
pub proof fn law_parts_have_their_images(text: String, url: String, image: ImageInput)
    ensures
        ({
            let raw = part_image(MessagePart::ImageUrl { image_url: ImageUrlPayload::Raw(url) });
            let named = part_image(
                MessagePart::ImageUrl { image_url: ImageUrlPayload::Object { url } },
            );
            raw is Some && image_url(raw->0) == url@ && named == raw
        }),
        part_image(MessagePart::Image { caption: text, image }) == Some(image@),
        part_image(MessagePart::Text { text }) is None,
        part_image(MessagePart::Unsupported) is None,
{
    law_image_keeps_its_address(url@);
}

/// The parts of a message are read one after the other: one more text adds a line with that
/// text, one more part without a text adds nothing, and a single text is the whole message.
pub proof fn law_message_grows_by_its_parts(
    message: ChatMessage,
    longer: ChatMessage,
    parts: Vec<MessagePart>,
    more: Vec<MessagePart>,
    added: MessagePart,
)
    requires
        message.content == MessageContent::Parts(parts),
        longer.content == MessageContent::Parts(more),
        more@ == parts@.push(added),
    ensures
        added is Text && parts@.len() == 0 ==> message_text(longer) == added->text@,
        added is Text && parts@.len() > 0 && parts@.last() is Text ==> message_text(longer)
            == message_text(message) + "\n"@ + added->text@,
        added is Unsupported ==> message_text(longer) == message_text(message),
        added is Text || added is Unsupported ==> message_images(longer) == message_images(message),
        added is Image ==> message_images(longer) == message_images(message).push(added->image@),
{
    assert(more@.drop_last() =~= parts@);
    let before = part_texts(parts@);
    if added is Text {
        assert(part_texts(more@) == before.push(added->text@));
        assert(before.push(added->text@).drop_last() =~= before);
    }
}

/// The text of a message holds the text of every part of it, from its first character to its
/// last.
pub proof fn law_message_holds_every_text(
    message: ChatMessage,
    parts: Vec<MessagePart>,
    at: int,
) -> (around: (Seq<char>, Seq<char>))
    requires
        message.content == MessageContent::Parts(parts),
        0 <= at < parts@.len(),
        parts@[at] is Text,
    ensures
        message_text(message) == around.0 + parts@[at]->text@ + around.1,
{
    law_message_text_holds_every_part(parts@, at);
    law_occurrence(parts@[at]->text@, message_text(message), Seq::empty(), Seq::empty())
}

/// The parts of a message are read in order and one by one: the texts and images of two lists of
/// parts are those of the first and then those of the second.
pub proof fn law_parts_are_read_in_order(
    one: Seq<MessagePart>,
    other: Seq<MessagePart>,
    part: MessagePart,
)
    ensures
        part_texts(one + other) == part_texts(one) + part_texts(other),
        part_images(one + other) == part_images(one) + part_images(other),
        part is Text ==> part_texts(seq![part]) == seq![part->text@],
        part is Image ==> part_texts(seq![part]) == seq![part->caption@] && part_images(seq![part])
            == seq![part->image@],
        part is Unsupported ==> part_texts(seq![part]).len() == 0,
    decreases other.len(),
{
    let alone = seq![part];
    assert(alone.drop_last() =~= Seq::<MessagePart>::empty());
    assert(part_texts(alone.drop_last()) =~= Seq::<Seq<char>>::empty());
    assert(part_images(alone.drop_last()) =~= Seq::<ImageView>::empty());
    if part is Text {
        assert(part_texts(alone) =~= seq![part->text@]);
    }
    if part is Image {
        assert(part_texts(alone) =~= seq![part->caption@]);
        assert(part_images(alone) =~= seq![part->image@]);
    }
    if other.len() == 0 {
        assert(one + other =~= one);
        assert(part_texts(one) + part_texts(other) =~= part_texts(one));
        assert(part_images(one) + part_images(other) =~= part_images(one));
    } else {
        law_parts_are_read_in_order(one, other.drop_last(), part);
        assert((one + other).drop_last() =~= one + other.drop_last());
        assert(part_texts(one + other) =~= part_texts(one) + part_texts(other));
        assert(part_images(one + other) =~= part_images(one) + part_images(other));
    }
}

/// The text of a message with two runs of parts is the text of the first run, a line break, and
/// the text of the second.
pub proof fn law_message_text_is_made_of_lines(
    whole: ChatMessage,
    front: ChatMessage,
    back: ChatMessage,
)
    requires
        whole.content is Parts,
        front.content is Parts,
        back.content is Parts,
        whole.content->Parts_0@ == front.content->Parts_0@ + back.content->Parts_0@,
        front.content->Parts_0@.len() > 0,
        front.content->Parts_0@.last() !is Unsupported,
        back.content->Parts_0@.len() > 0,
        back.content->Parts_0@.last() !is Unsupported,
    ensures
        message_text(whole) == message_text(front) + "\n"@ + message_text(back),
        message_images(whole) == message_images(front) + message_images(back),
{
    let (one, other) = (front.content->Parts_0@, back.content->Parts_0@);
    law_parts_are_read_in_order(one, other, one.last());
    law_joining_keeps_every_part(part_texts(one), part_texts(other), Seq::empty(), "\n"@);
}

} // verus!
