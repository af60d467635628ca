//! Token usage, and the wrapper metadata that reports it.

use crate::json::{integer, layout, text_of, JsonValue, JsonView, Layout};
use crate::request::{copy_text, metadata_wanted, ChatCompletionRequest};
use vstd::prelude::*;

verus! {

/// The usage that a finished `exec` turn reports.
#[derive(Debug, Clone, Copy)]
pub struct ExecUsage {
    pub input_tokens: i64,
    pub cached_input_tokens: i64,
    pub output_tokens: i64,
}

/// The usage that a streamed turn has reported so far.
#[derive(Debug, Clone, Copy)]
pub struct StreamingUsage {
    pub input_tokens: i64,
    pub cached_input_tokens: i64,
    pub output_tokens: i64,
    pub reasoning_output_tokens: i64,
}

/// The usage block of a chat completion.
#[derive(Debug, Clone, Copy)]
pub struct UsageBlock {
    pub prompt_tokens: i64,
    pub completion_tokens: i64,
    pub total_tokens: i64,
    pub prompt_tokens_details: PromptTokensDetails,
    pub completion_tokens_details: CompletionTokensDetails,
}

#[derive(Debug, Clone, Copy)]
pub struct PromptTokensDetails {
    pub cached_tokens: i64,
    pub audio_tokens: i64,
}

#[derive(Debug, Clone, Copy)]
pub struct CompletionTokensDetails {
    pub reasoning_tokens: i64,
    pub audio_tokens: i64,
    pub accepted_prediction_tokens: i64,
    pub rejected_prediction_tokens: i64,
}

/// The usage in the wrapper metadata.
#[derive(Debug, Clone, Copy)]
pub struct WrapperUsageMetadata {
    pub input_tokens: i64,
    pub cached_input_tokens: i64,
    pub output_tokens: i64,
    pub reasoning_output_tokens: i64,
}

/// What the wrapper adds to a response.
#[derive(Debug)]
pub struct WrapperMetadata {
    pub thread_id: String,
    pub session_id: Option<String>,
    pub usage: WrapperUsageMetadata,
    /// The estimated cost, a JSON number.
    pub estimated_cost_usd: Option<JsonValue>,
    pub pricing_source: Option<String>,
}

/// The tokens that are paid for, each kind at its own price; none is negative.
#[derive(Debug, Clone, Copy)]
pub struct BillableTokens {
    pub input: i64,
    pub cached_input: i64,
    pub output: i64,
    pub reasoning: i64,
}

/// What a turn costs by the pricing file.
#[derive(Debug)]
pub struct PricingQuote {
    /// The estimate, a JSON number; none where the file does not price the model.
    pub estimated_cost_usd: Option<JsonValue>,
    pub source: String,
}

impl StreamingUsage {
    /// No usage.
    pub open spec fn zero() -> StreamingUsage {
        StreamingUsage {
            input_tokens: 0,
            cached_input_tokens: 0,
            output_tokens: 0,
            reasoning_output_tokens: 0,
        }
    }

    /// Whether the total can be computed in 64 bits.
    pub open spec fn total_fits(self) -> bool {
        i64::MIN <= self.input_tokens + self.output_tokens <= i64::MAX
    }

    /// Whether the total can be computed in 64 bits.
    pub fn has_total(&self) -> (yes: bool)
        ensures
            yes == self.total_fits(),
    {
        let total: i128 = self.input_tokens as i128 + self.output_tokens as i128;
        i64::MIN as i128 <= total && total <= i64::MAX as i128
    }
}

impl Default for StreamingUsage {
    fn default() -> (usage: StreamingUsage)
        ensures
            usage == StreamingUsage::zero(),
    {
        StreamingUsage {
            input_tokens: 0,
            cached_input_tokens: 0,
            output_tokens: 0,
            reasoning_output_tokens: 0,
        }
    }
}

impl ExecUsage {
    /// Whether the total can be computed in 64 bits.
    pub open spec fn total_fits(self) -> bool {
        i64::MIN <= self.input_tokens + self.output_tokens <= i64::MAX
    }

    /// Whether the total can be computed in 64 bits.
    pub fn has_total(&self) -> (yes: bool)
        ensures
            yes == self.total_fits(),
    {
        let total: i128 = self.input_tokens as i128 + self.output_tokens as i128;
        i64::MIN as i128 <= total && total <= i64::MAX as i128
    }
}

/// The usage block of a finished `exec` turn.
pub fn build_openai_usage(usage: &ExecUsage) -> (block: UsageBlock)
    requires
        usage.total_fits(),
    ensures
        block == (UsageBlock {
            prompt_tokens: usage.input_tokens,
            completion_tokens: usage.output_tokens,
            total_tokens: (usage.input_tokens + usage.output_tokens) as i64,
            prompt_tokens_details: PromptTokensDetails {
                cached_tokens: usage.cached_input_tokens,
                audio_tokens: 0,
            },
            completion_tokens_details: CompletionTokensDetails {
                reasoning_tokens: 0,
                audio_tokens: 0,
                accepted_prediction_tokens: 0,
                rejected_prediction_tokens: 0,
            },
        }),
{
    UsageBlock {
        prompt_tokens: usage.input_tokens,
        completion_tokens: usage.output_tokens,
        total_tokens: usage.input_tokens + usage.output_tokens,
        prompt_tokens_details: PromptTokensDetails {
            cached_tokens: usage.cached_input_tokens,
            audio_tokens: 0,
        },
        completion_tokens_details: CompletionTokensDetails {
            reasoning_tokens: 0,
            audio_tokens: 0,
            accepted_prediction_tokens: 0,
            rejected_prediction_tokens: 0,
        },
    }
}

/// A usage block as JSON, from its counts.
pub open spec fn usage_json(input: int, cached: int, output: int, reasoning: int) -> JsonView {
    JsonView::Object(
        map![
            "prompt_tokens"@ => integer(input),
            "completion_tokens"@ => integer(output),
            "total_tokens"@ => integer(input + output),
            "prompt_tokens_details"@ => JsonView::Object(
                map!["cached_tokens"@ => integer(cached), "audio_tokens"@ => integer(0)],
            ),
            "completion_tokens_details"@ => JsonView::Object(
                map![
                    "reasoning_tokens"@ => integer(reasoning),
                    "audio_tokens"@ => integer(0),
                    "accepted_prediction_tokens"@ => integer(0),
                    "rejected_prediction_tokens"@ => integer(0),
                ],
            ),
        ],
    )
}

/// A usage block as JSON.
pub open spec fn usage_block_json(block: UsageBlock) -> JsonView {
    let details = block.completion_tokens_details;
    JsonView::Object(
        map![
            "prompt_tokens"@ => integer(block.prompt_tokens as int),
            "completion_tokens"@ => integer(block.completion_tokens as int),
            "total_tokens"@ => integer(block.total_tokens as int),
            "prompt_tokens_details"@ => JsonView::Object(
                map![
                    "cached_tokens"@ => integer(block.prompt_tokens_details.cached_tokens as int),
                    "audio_tokens"@ => integer(block.prompt_tokens_details.audio_tokens as int),
                ],
            ),
            "completion_tokens_details"@ => JsonView::Object(
                map![
                    "reasoning_tokens"@ => integer(details.reasoning_tokens as int),
                    "audio_tokens"@ => integer(details.audio_tokens as int),
                    "accepted_prediction_tokens"@ => integer(
                        details.accepted_prediction_tokens as int,
                    ),
                    "rejected_prediction_tokens"@ => integer(
                        details.rejected_prediction_tokens as int,
                    ),
                ],
            ),
        ],
    )
}

/// The order of a usage block's members.
pub open spec fn usage_block_layout() -> Layout {
    let prompt = seq![("cached_tokens"@, Layout::Leaf), ("audio_tokens"@, Layout::Leaf)];
    let completion = seq![
        ("reasoning_tokens"@, Layout::Leaf),
        ("audio_tokens"@, Layout::Leaf),
        ("accepted_prediction_tokens"@, Layout::Leaf),
        ("rejected_prediction_tokens"@, Layout::Leaf),
    ];
    Layout::Members(
        seq![
            ("prompt_tokens"@, Layout::Leaf),
            ("completion_tokens"@, Layout::Leaf),
            ("total_tokens"@, Layout::Leaf),
            ("prompt_tokens_details"@, Layout::Members(prompt)),
            ("completion_tokens_details"@, Layout::Members(completion)),
        ],
    )
}

impl UsageBlock {
    /// The block as JSON.
    pub fn to_json(&self) -> (json: JsonValue)
        ensures
            json@ == usage_block_json(*self),
            layout(json) == usage_block_layout(),
    {
        let prompt = JsonValue::object().with(
            "cached_tokens",
            JsonValue::from_i64(self.prompt_tokens_details.cached_tokens),
        ).with("audio_tokens", JsonValue::from_i64(self.prompt_tokens_details.audio_tokens));
        let details = &self.completion_tokens_details;
        let completion = JsonValue::object().with(
            "reasoning_tokens",
            JsonValue::from_i64(details.reasoning_tokens),
        ).with("audio_tokens", JsonValue::from_i64(details.audio_tokens)).with(
            "accepted_prediction_tokens",
            JsonValue::from_i64(details.accepted_prediction_tokens),
        ).with(
            "rejected_prediction_tokens",
            JsonValue::from_i64(details.rejected_prediction_tokens),
        );
        let json = JsonValue::object().with(
            "prompt_tokens",
            JsonValue::from_i64(self.prompt_tokens),
        ).with("completion_tokens", JsonValue::from_i64(self.completion_tokens)).with(
            "total_tokens",
            JsonValue::from_i64(self.total_tokens),
        ).with("prompt_tokens_details", prompt).with("completion_tokens_details", completion);
        proof {
            let placed = usage_block_layout()->Members_0;
            assert(layout(prompt)->Members_0 =~= placed[3].1->Members_0);
            assert(layout(completion)->Members_0 =~= placed[4].1->Members_0);
            assert(layout(json)->Members_0 =~= placed);
        }
        json
    }
}

/// The usage block of a streamed turn, as JSON.
pub fn build_openai_usage_from_stream(usage: &StreamingUsage) -> (json: JsonValue)
    requires
        usage.total_fits(),
    ensures
        json@ == usage_json(
            usage.input_tokens as int,
            usage.cached_input_tokens as int,
            usage.output_tokens as int,
            usage.reasoning_output_tokens as int,
        ),
{
    let block = UsageBlock {
        prompt_tokens: usage.input_tokens,
        completion_tokens: usage.output_tokens,
        total_tokens: usage.input_tokens + usage.output_tokens,
        prompt_tokens_details: PromptTokensDetails {
            cached_tokens: usage.cached_input_tokens,
            audio_tokens: 0,
        },
        completion_tokens_details: CompletionTokensDetails {
            reasoning_tokens: usage.reasoning_output_tokens,
            audio_tokens: 0,
            accepted_prediction_tokens: 0,
            rejected_prediction_tokens: 0,
        },
    };
    block.to_json()
}

/// The count under this name, where there is one, else the old one.
pub open spec fn count_or(report: JsonView, name: Seq<char>, old_count: i64) -> i64 {
    match report.field(name) {
        Some(value) => match value.as_i64() {
            Some(n) => n,
            None => old_count,
        },
        None => old_count,
    }
}

/// The usage after a report: the counts that the report holds, and the old ones elsewhere.
pub open spec fn usage_after(usage: StreamingUsage, params: JsonView) -> StreamingUsage {
    match params.field_of("tokenUsage"@, "last"@) {
        Some(last) => StreamingUsage {
            input_tokens: count_or(last, "inputTokens"@, usage.input_tokens),
            cached_input_tokens: count_or(last, "cachedInputTokens"@, usage.cached_input_tokens),
            output_tokens: count_or(last, "outputTokens"@, usage.output_tokens),
            reasoning_output_tokens: count_or(
                last,
                "reasoningOutputTokens"@,
                usage.reasoning_output_tokens,
            ),
        },
        None => usage,
    }
}

fn reported_count(report: &JsonValue, name: &str, old_count: i64) -> (count: i64)
    ensures
        count == count_or(report@, name@, old_count),
{
    match report.get(name) {
        Some(value) => match value.as_i64() {
            Some(n) => n,
            None => old_count,
        },
        None => old_count,
    }
}

/// Takes a usage report into account.
pub fn update_streaming_usage(usage: &mut StreamingUsage, params: &JsonValue)
    ensures
        *final(usage) == usage_after(*old(usage), params@),
{
    let last = match params.get("tokenUsage") {
        Some(token_usage) => token_usage.get("last"),
        None => None,
    };
    match last {
        Some(report) => {
            usage.input_tokens = reported_count(report, "inputTokens", usage.input_tokens);
            usage.cached_input_tokens =
            reported_count(report, "cachedInputTokens", usage.cached_input_tokens);
            usage.output_tokens = reported_count(report, "outputTokens", usage.output_tokens);
            usage.reasoning_output_tokens =
            reported_count(report, "reasoningOutputTokens", usage.reasoning_output_tokens);
        },
        None => {},
    }
}

/// The metadata's usage for a finished `exec` turn, which reports no reasoning tokens.
pub fn wrapper_usage_from_exec(usage: &ExecUsage) -> (metadata: WrapperUsageMetadata)
    ensures
        metadata == (WrapperUsageMetadata {
            input_tokens: usage.input_tokens,
            cached_input_tokens: usage.cached_input_tokens,
            output_tokens: usage.output_tokens,
            reasoning_output_tokens: 0,
        }),
{
    WrapperUsageMetadata {
        input_tokens: usage.input_tokens,
        cached_input_tokens: usage.cached_input_tokens,
        output_tokens: usage.output_tokens,
        reasoning_output_tokens: 0,
    }
}

/// The metadata's usage for a streamed turn.
pub fn wrapper_usage_from_stream(usage: &StreamingUsage) -> (metadata: WrapperUsageMetadata)
    ensures
        metadata == (WrapperUsageMetadata {
            input_tokens: usage.input_tokens,
            cached_input_tokens: usage.cached_input_tokens,
            output_tokens: usage.output_tokens,
            reasoning_output_tokens: usage.reasoning_output_tokens,
        }),
{
    WrapperUsageMetadata {
        input_tokens: usage.input_tokens,
        cached_input_tokens: usage.cached_input_tokens,
        output_tokens: usage.output_tokens,
        reasoning_output_tokens: usage.reasoning_output_tokens,
    }
}

/// The number, or zero where it is negative.
pub open spec fn at_least_zero(n: int) -> int {
    if n < 0 {
        0
    } else {
        n
    }
}

fn not_below_zero(n: i64) -> (m: i64)
    ensures
        m == at_least_zero(n as int),
{
    if n < 0 {
        0
    } else {
        n
    }
}

/// Where no more input was cached than there was, cached and uncached input add up to it.
pub proof fn law_billable_input_adds_up(usage: WrapperUsageMetadata)
    requires
        0 <= usage.cached_input_tokens <= usage.input_tokens,
    ensures
        usage.uncached_fits(),
        at_least_zero(usage.input_tokens - usage.cached_input_tokens) + at_least_zero(
            usage.cached_input_tokens as int,
        ) == usage.input_tokens,
{
}

impl WrapperUsageMetadata {
    /// Whether the uncached input can be computed in 64 bits.
    pub open spec fn uncached_fits(self) -> bool {
        i64::MIN <= self.input_tokens - self.cached_input_tokens <= i64::MAX
    }

    /// Whether the uncached input can be computed in 64 bits.
    pub fn has_uncached(&self) -> (yes: bool)
        ensures
            yes == self.uncached_fits(),
    {
        let uncached: i128 = self.input_tokens as i128 - self.cached_input_tokens as i128;
        i64::MIN as i128 <= uncached && uncached <= i64::MAX as i128
    }

    /// The tokens that are paid for.
    pub fn billable(&self) -> (tokens: BillableTokens)
        requires
            self.uncached_fits(),
        ensures
            tokens.input == at_least_zero(self.input_tokens - self.cached_input_tokens),
            tokens.cached_input == at_least_zero(self.cached_input_tokens as int),
            tokens.output == at_least_zero(self.output_tokens as int),
            tokens.reasoning == at_least_zero(self.reasoning_output_tokens as int),
    {
        BillableTokens {
            input: not_below_zero(self.input_tokens - self.cached_input_tokens),
            cached_input: not_below_zero(self.cached_input_tokens),
            output: not_below_zero(self.output_tokens),
            reasoning: not_below_zero(self.reasoning_output_tokens),
        }
    }

    /// The usage as JSON.
    pub fn to_json(&self) -> (json: JsonValue)
        ensures
            json@ == wrapper_usage_json(*self),
            layout(json) == wrapper_usage_layout(),
    {
        let json = JsonValue::object().with(
            "input_tokens",
            JsonValue::from_i64(self.input_tokens),
        ).with("cached_input_tokens", JsonValue::from_i64(self.cached_input_tokens)).with(
            "output_tokens",
            JsonValue::from_i64(self.output_tokens),
        ).with("reasoning_output_tokens", JsonValue::from_i64(self.reasoning_output_tokens));
        assert(layout(json)->Members_0 =~= wrapper_usage_layout()->Members_0);
        json
    }
}

/// The metadata's usage as JSON.
pub open spec fn wrapper_usage_json(usage: WrapperUsageMetadata) -> JsonView {
    JsonView::Object(
        map![
            "input_tokens"@ => integer(usage.input_tokens as int),
            "cached_input_tokens"@ => integer(usage.cached_input_tokens as int),
            "output_tokens"@ => integer(usage.output_tokens as int),
            "reasoning_output_tokens"@ => integer(usage.reasoning_output_tokens as int),
        ],
    )
}

/// The order of the members of the metadata's usage.
pub open spec fn wrapper_usage_layout() -> Layout {
    Layout::Members(
        seq![
            ("input_tokens"@, Layout::Leaf),
            ("cached_input_tokens"@, Layout::Leaf),
            ("output_tokens"@, Layout::Leaf),
            ("reasoning_output_tokens"@, Layout::Leaf),
        ],
    )
}

/// The members in order with one more, where it has a value.
pub open spec fn with_placed(
    placed: Seq<(Seq<char>, Layout)>,
    name: Seq<char>,
    value: Option<Layout>,
) -> Seq<(Seq<char>, Layout)> {
    match value {
        Some(v) => placed.push((name, v)),
        None => placed,
    }
}

/// The layout of an optional text.
pub open spec fn text_layout(text: Option<String>) -> Option<Layout> {
    match text {
        Some(_) => Some(Layout::Leaf),
        None => None,
    }
}

/// The layout of an optional JSON tree.
pub open spec fn layout_of(value: Option<JsonValue>) -> Option<Layout> {
    match value {
        Some(v) => Some(layout(v)),
        None => None,
    }
}

/// The order of the metadata's members.
pub open spec fn wrapper_layout(metadata: WrapperMetadata) -> Layout {
    let thread = seq![("thread_id"@, Layout::Leaf)];
    let session = with_placed(thread, "session_id"@, text_layout(metadata.session_id));
    let usage = session.push(("usage"@, wrapper_usage_layout()));
    let cost = with_placed(usage, "estimated_cost_usd"@, layout_of(metadata.estimated_cost_usd));
    Layout::Members(with_placed(cost, "pricing_source"@, text_layout(metadata.pricing_source)))
}

/// The members with one more, where it has a value.
pub open spec fn with_member(
    members: Map<Seq<char>, JsonView>,
    name: Seq<char>,
    value: Option<JsonView>,
) -> Map<Seq<char>, JsonView> {
    match value {
        Some(v) => members.insert(name, v),
        None => members,
    }
}

/// The value of an optional JSON tree.
pub open spec fn json_of(value: Option<JsonValue>) -> Option<JsonView> {
    match value {
        Some(v) => Some(v@),
        None => None,
    }
}

/// An optional text as JSON.
pub open spec fn text_json(text: Option<String>) -> Option<JsonView> {
    match text {
        Some(t) => Some(JsonView::Text(t@)),
        None => None,
    }
}

/// The metadata as JSON; what it does not hold has no member.
pub open spec fn wrapper_json(metadata: WrapperMetadata) -> JsonView {
    let thread = map!["thread_id"@ => JsonView::Text(metadata.thread_id@)];
    let session = with_member(thread, "session_id"@, text_json(metadata.session_id));
    let usage = session.insert("usage"@, wrapper_usage_json(metadata.usage));
    let cost = with_member(usage, "estimated_cost_usd"@, json_of(metadata.estimated_cost_usd));
    JsonView::Object(with_member(cost, "pricing_source"@, text_json(metadata.pricing_source)))
}

/// Optional metadata as JSON, `null` where there is none.
pub open spec fn wrapper_json_or_null(metadata: Option<WrapperMetadata>) -> JsonView {
    match metadata {
        Some(m) => wrapper_json(m),
        None => JsonView::Null,
    }
}

fn with_optional_text(json: JsonValue, name: &str, text: &Option<String>) -> (more: JsonValue)
    requires
        json@ is Object,
        layout(json) is Members,
    ensures
        more@ == JsonView::Object(with_member(json@->Object_0, name@, text_json(*text))),
        layout(more) == Layout::Members(
            with_placed(layout(json)->Members_0, name@, text_layout(*text)),
        ),
{
    match text {
        Some(t) => json.with(name, JsonValue::from_text(t.as_str())),
        None => json,
    }
}

impl WrapperMetadata {
    /// The metadata as JSON.
    pub fn to_json(&self) -> (json: JsonValue)
        ensures
            json@ == wrapper_json(*self),
            layout(json) == wrapper_layout(*self),
    {
        let thread = JsonValue::object().with(
            "thread_id",
            JsonValue::from_text(self.thread_id.as_str()),
        );
        let session = with_optional_text(thread, "session_id", &self.session_id);
        let usage = session.with("usage", self.usage.to_json());
        let cost = match &self.estimated_cost_usd {
            Some(amount) => usage.with("estimated_cost_usd", amount.copy()),
            None => usage,
        };
        with_optional_text(cost, "pricing_source", &self.pricing_source)
    }
}

/// Optional metadata as JSON, `null` where there is none.
pub fn wrapper_to_json(metadata: &Option<WrapperMetadata>) -> (json: JsonValue)
    ensures
        json@ == wrapper_json_or_null(*metadata),
{
    match metadata {
        Some(m) => m.to_json(),
        None => JsonValue::Null,
    }
}

/// The wrapper metadata of a turn; none where the request does not ask for it.
pub fn build_wrapper_metadata(
    request: &ChatCompletionRequest,
    thread_id: &str,
    usage: WrapperUsageMetadata,
    pricing: &Option<PricingQuote>,
) -> (metadata: Option<WrapperMetadata>)
    ensures
        metadata is Some <==> metadata_wanted(*request),
        metadata matches Some(m) ==> {
            &&& m.thread_id@ == thread_id@
            &&& m.session_id == request.session_id
            &&& m.usage == usage
            &&& match *pricing {
                Some(quote) => json_of(m.estimated_cost_usd) == json_of(quote.estimated_cost_usd)
                    && text_of(m.pricing_source) == Some(quote.source@),
                None => m.estimated_cost_usd is None && m.pricing_source is None,
            }
        },
{
    if !request.include_wrapper_metadata() {
        return None;
    }
    let (estimated_cost_usd, pricing_source) = match pricing {
        Some(quote) => (
            match &quote.estimated_cost_usd {
                Some(amount) => Some(amount.copy()),
                None => None,
            },
            Some(quote.source.clone()),
        ),
        None => (None, None),
    };
    Some(
        WrapperMetadata {
            thread_id: thread_id.to_owned(),
            session_id: copy_text(&request.session_id),
            usage,
            estimated_cost_usd,
            pricing_source,
        },
    )
}

proof fn lemma_usage_names()
    ensures
        "prompt_tokens"@ != "completion_tokens"@,
        "prompt_tokens"@ != "total_tokens"@,
        "prompt_tokens"@ != "prompt_tokens_details"@,
        "prompt_tokens"@ != "completion_tokens_details"@,
        "completion_tokens"@ != "total_tokens"@,
        "completion_tokens"@ != "prompt_tokens_details"@,
        "completion_tokens"@ != "completion_tokens_details"@,
        "total_tokens"@ != "prompt_tokens_details"@,
        "total_tokens"@ != "completion_tokens_details"@,
        "prompt_tokens_details"@ != "completion_tokens_details"@,
{
    reveal_strlit("prompt_tokens");
    reveal_strlit("completion_tokens");
    reveal_strlit("total_tokens");
    reveal_strlit("prompt_tokens_details");
    reveal_strlit("completion_tokens_details");
    assert("prompt_tokens"@.len() != "completion_tokens"@.len());
    assert("prompt_tokens"@.len() != "total_tokens"@.len());
    assert("prompt_tokens"@.len() != "prompt_tokens_details"@.len());
    assert("prompt_tokens"@.len() != "completion_tokens_details"@.len());
    assert("completion_tokens"@.len() != "total_tokens"@.len());
    assert("completion_tokens"@.len() != "prompt_tokens_details"@.len());
    assert("completion_tokens"@.len() != "completion_tokens_details"@.len());
    assert("total_tokens"@.len() != "prompt_tokens_details"@.len());
    assert("total_tokens"@.len() != "completion_tokens_details"@.len());
    assert("prompt_tokens_details"@.len() != "completion_tokens_details"@.len());
}

proof fn lemma_detail_names()
    ensures
        "cached_tokens"@ != "reasoning_tokens"@,
        "cached_tokens"@ != "audio_tokens"@,
        "cached_tokens"@ != "accepted_prediction_tokens"@,
        "cached_tokens"@ != "rejected_prediction_tokens"@,
        "reasoning_tokens"@ != "audio_tokens"@,
        "reasoning_tokens"@ != "accepted_prediction_tokens"@,
        "reasoning_tokens"@ != "rejected_prediction_tokens"@,
        "audio_tokens"@ != "accepted_prediction_tokens"@,
        "audio_tokens"@ != "rejected_prediction_tokens"@,
        "accepted_prediction_tokens"@ != "rejected_prediction_tokens"@,
{
    reveal_strlit("cached_tokens");
    reveal_strlit("reasoning_tokens");
    reveal_strlit("audio_tokens");
    reveal_strlit("accepted_prediction_tokens");
    reveal_strlit("rejected_prediction_tokens");
    assert("cached_tokens"@.len() != "reasoning_tokens"@.len());
    assert("cached_tokens"@.len() != "audio_tokens"@.len());
    assert("cached_tokens"@.len() != "accepted_prediction_tokens"@.len());
    assert("cached_tokens"@.len() != "rejected_prediction_tokens"@.len());
    assert("reasoning_tokens"@.len() != "audio_tokens"@.len());
    assert("reasoning_tokens"@.len() != "accepted_prediction_tokens"@.len());
    assert("reasoning_tokens"@.len() != "rejected_prediction_tokens"@.len());
    assert("audio_tokens"@.len() != "accepted_prediction_tokens"@.len());
    assert("audio_tokens"@.len() != "rejected_prediction_tokens"@.len());
    assert("accepted_prediction_tokens"@[0] != "rejected_prediction_tokens"@[0]);
}

proof fn lemma_wrapper_names()
    ensures
        "thread_id"@ != "session_id"@,
        "thread_id"@ != "usage"@,
        "thread_id"@ != "estimated_cost_usd"@,
        "thread_id"@ != "pricing_source"@,
        "session_id"@ != "usage"@,
        "session_id"@ != "estimated_cost_usd"@,
        "session_id"@ != "pricing_source"@,
        "usage"@ != "estimated_cost_usd"@,
        "usage"@ != "pricing_source"@,
        "estimated_cost_usd"@ != "pricing_source"@,
{
    reveal_strlit("thread_id");
    reveal_strlit("session_id");
    reveal_strlit("usage");
    reveal_strlit("estimated_cost_usd");
    reveal_strlit("pricing_source");
    assert("thread_id"@.len() != "session_id"@.len());
    assert("thread_id"@.len() != "usage"@.len());
    assert("thread_id"@.len() != "estimated_cost_usd"@.len());
    assert("thread_id"@.len() != "pricing_source"@.len());
    assert("session_id"@.len() != "usage"@.len());
    assert("session_id"@.len() != "estimated_cost_usd"@.len());
    assert("session_id"@.len() != "pricing_source"@.len());
    assert("usage"@.len() != "estimated_cost_usd"@.len());
    assert("usage"@.len() != "pricing_source"@.len());
    assert("estimated_cost_usd"@.len() != "pricing_source"@.len());
}

proof fn lemma_wrapper_usage_names()
    ensures
        "input_tokens"@ != "cached_input_tokens"@,
        "input_tokens"@ != "output_tokens"@,
        "input_tokens"@ != "reasoning_output_tokens"@,
        "cached_input_tokens"@ != "output_tokens"@,
        "cached_input_tokens"@ != "reasoning_output_tokens"@,
        "output_tokens"@ != "reasoning_output_tokens"@,
{
    reveal_strlit("input_tokens");
    reveal_strlit("cached_input_tokens");
    reveal_strlit("output_tokens");
    reveal_strlit("reasoning_output_tokens");
    assert("input_tokens"@.len() != "cached_input_tokens"@.len());
    assert("input_tokens"@.len() != "output_tokens"@.len());
    assert("input_tokens"@.len() != "reasoning_output_tokens"@.len());
    assert("cached_input_tokens"@.len() != "output_tokens"@.len());
    assert("cached_input_tokens"@.len() != "reasoning_output_tokens"@.len());
    assert("output_tokens"@.len() != "reasoning_output_tokens"@.len());
}

/// The usage block of a streamed turn reports the counts of the turn, each under its own name,
/// and their sum; nothing else is counted.
pub proof fn law_stream_usage_is_counted(usage: StreamingUsage) -> (block: (
    Map<Seq<char>, JsonView>,
    Map<Seq<char>, JsonView>,
    Map<Seq<char>, JsonView>,
))
    requires
        usage.total_fits(),
    ensures
        usage_json(
            usage.input_tokens as int,
            usage.cached_input_tokens as int,
            usage.output_tokens as int,
            usage.reasoning_output_tokens as int,
        ) == JsonView::Object(block.0),
        block.0["prompt_tokens"@].as_i64() == Some(usage.input_tokens),
        block.0["completion_tokens"@].as_i64() == Some(usage.output_tokens),
        block.0["total_tokens"@].as_i64() == Some(
            (usage.input_tokens + usage.output_tokens) as i64,
        ),
        block.0["prompt_tokens_details"@] == JsonView::Object(block.1),
        block.0["completion_tokens_details"@] == JsonView::Object(block.2),
        block.1["cached_tokens"@].as_i64() == Some(usage.cached_input_tokens),
        block.1["audio_tokens"@].as_i64() == Some(0i64),
        block.2["reasoning_tokens"@].as_i64() == Some(usage.reasoning_output_tokens),
        block.2["audio_tokens"@].as_i64() == Some(0i64),
        block.2["accepted_prediction_tokens"@].as_i64() == Some(0i64),
        block.2["rejected_prediction_tokens"@].as_i64() == Some(0i64),
{
    lemma_usage_names();
    lemma_detail_names();
    let members = usage_json(
        usage.input_tokens as int,
        usage.cached_input_tokens as int,
        usage.output_tokens as int,
        usage.reasoning_output_tokens as int,
    )->Object_0;
    (
        members,
        members["prompt_tokens_details"@]->Object_0,
        members["completion_tokens_details"@]->Object_0,
    )
}

/// A usage block as JSON holds each count of the block under its own name.
pub proof fn law_usage_block_shows_its_counts(block: UsageBlock) -> (shown: (
    Map<Seq<char>, JsonView>,
    Map<Seq<char>, JsonView>,
    Map<Seq<char>, JsonView>,
))
    ensures
        usage_block_json(block) == JsonView::Object(shown.0),
        shown.0["prompt_tokens"@].as_i64() == Some(block.prompt_tokens),
        shown.0["completion_tokens"@].as_i64() == Some(block.completion_tokens),
        shown.0["total_tokens"@].as_i64() == Some(block.total_tokens),
        shown.0["prompt_tokens_details"@] == JsonView::Object(shown.1),
        shown.0["completion_tokens_details"@] == JsonView::Object(shown.2),
        shown.1["cached_tokens"@].as_i64() == Some(block.prompt_tokens_details.cached_tokens),
        shown.1["audio_tokens"@].as_i64() == Some(block.prompt_tokens_details.audio_tokens),
        shown.2["reasoning_tokens"@].as_i64() == Some(
            block.completion_tokens_details.reasoning_tokens,
        ),
        shown.2["audio_tokens"@].as_i64() == Some(block.completion_tokens_details.audio_tokens),
        shown.2["accepted_prediction_tokens"@].as_i64() == Some(
            block.completion_tokens_details.accepted_prediction_tokens,
        ),
        shown.2["rejected_prediction_tokens"@].as_i64() == Some(
            block.completion_tokens_details.rejected_prediction_tokens,
        ),
{
    lemma_usage_names();
    lemma_detail_names();
    let members = usage_block_json(block)->Object_0;
    (
        members,
        members["prompt_tokens_details"@]->Object_0,
        members["completion_tokens_details"@]->Object_0,
    )
}

/// A count that a report names is taken over; a count that it does not name stays.
pub proof fn law_reported_counts_replace_old_ones(
    usage: StreamingUsage,
    members: Map<Seq<char>, JsonView>,
    inner: Map<Seq<char>, JsonView>,
    last: Map<Seq<char>, JsonView>,
    n: i64,
)
    requires
        members.contains_key("tokenUsage"@),
        members["tokenUsage"@] == JsonView::Object(inner),
        inner.contains_key("last"@),
        inner["last"@] == JsonView::Object(last),
    ensures
        ({
            let after = usage_after(usage, JsonView::Object(members));
            let same = integer(n as int);
            &&& last.contains_key("inputTokens"@) && last["inputTokens"@] == same
                ==> after.input_tokens == n
            &&& last.contains_key("cachedInputTokens"@) && last["cachedInputTokens"@] == same
                ==> after.cached_input_tokens == n
            &&& last.contains_key("outputTokens"@) && last["outputTokens"@] == same
                ==> after.output_tokens == n
            &&& last.contains_key("reasoningOutputTokens"@) && last["reasoningOutputTokens"@]
                == same ==> after.reasoning_output_tokens == n
            &&& !last.contains_key("inputTokens"@) ==> after.input_tokens == usage.input_tokens
            &&& !last.contains_key("cachedInputTokens"@) ==> after.cached_input_tokens
                == usage.cached_input_tokens
            &&& !last.contains_key("outputTokens"@) ==> after.output_tokens == usage.output_tokens
            &&& !last.contains_key("reasoningOutputTokens"@) ==> after.reasoning_output_tokens
                == usage.reasoning_output_tokens
        }),
{
}

/// A report without the counts of a last turn changes nothing.
pub proof fn law_report_without_counts_changes_nothing(
    usage: StreamingUsage,
    members: Map<Seq<char>, JsonView>,
)
    requires
        !members.contains_key("tokenUsage"@),
    ensures
        usage_after(usage, JsonView::Object(members)) == usage,
{
}

/// Nothing that is paid for is negative, and what is not negative is paid for as it is.
pub proof fn law_nothing_negative_is_paid_for(n: int)
    ensures
        at_least_zero(n) >= 0,
        n >= 0 ==> at_least_zero(n) == n,
        n <= 0 ==> at_least_zero(n) == 0,
{
}

/// The metadata as JSON names the thread, holds the counts, and has a member for the session,
/// the cost and the source of the prices exactly where there is one.
pub proof fn law_metadata_shows_what_it_holds(metadata: WrapperMetadata) -> (shown: (
    Map<Seq<char>, JsonView>,
    Map<Seq<char>, JsonView>,
))
    ensures
        wrapper_json(metadata) == JsonView::Object(shown.0),
        wrapper_json_or_null(Some(metadata)) == wrapper_json(metadata),
        wrapper_json_or_null(None) == JsonView::Null,
        shown.0["thread_id"@] == JsonView::Text(metadata.thread_id@),
        shown.0.contains_key("session_id"@) <==> metadata.session_id is Some,
        metadata.session_id matches Some(id) ==> shown.0["session_id"@] == JsonView::Text(id@),
        shown.0.contains_key("estimated_cost_usd"@) <==> metadata.estimated_cost_usd is Some,
        metadata.estimated_cost_usd matches Some(cost) ==> shown.0["estimated_cost_usd"@] == cost@,
        shown.0.contains_key("pricing_source"@) <==> metadata.pricing_source is Some,
        metadata.pricing_source matches Some(source) ==> shown.0["pricing_source"@]
            == JsonView::Text(source@),
        shown.0["usage"@] == JsonView::Object(shown.1),
        shown.1["input_tokens"@].as_i64() == Some(metadata.usage.input_tokens),
        shown.1["cached_input_tokens"@].as_i64() == Some(metadata.usage.cached_input_tokens),
        shown.1["output_tokens"@].as_i64() == Some(metadata.usage.output_tokens),
        shown.1["reasoning_output_tokens"@].as_i64() == Some(
            metadata.usage.reasoning_output_tokens,
        ),
{
    lemma_wrapper_names();
    lemma_wrapper_usage_names();
    (wrapper_json(metadata)->Object_0, wrapper_usage_json(metadata.usage)->Object_0)
}

/// A total can be computed exactly where the sum fits.
pub proof fn law_totals_fit_where_the_sum_does(streamed: StreamingUsage, finished: ExecUsage)
    ensures
        streamed.total_fits() <==> -0x8000_0000_0000_0000 <= streamed.input_tokens
            + streamed.output_tokens <= 0x7fff_ffff_ffff_ffff,
        finished.total_fits() <==> -0x8000_0000_0000_0000 <= finished.input_tokens
            + finished.output_tokens <= 0x7fff_ffff_ffff_ffff,
        StreamingUsage::zero().input_tokens == 0,
        StreamingUsage::zero().cached_input_tokens == 0,
        StreamingUsage::zero().output_tokens == 0,
        StreamingUsage::zero().reasoning_output_tokens == 0,
{
}

/// The members of the usage block and of the metadata stand in their usual order.
pub proof fn law_usage_members_stand_in_order(metadata: WrapperMetadata)
    ensures
        ({
            let placed = usage_block_layout()->Members_0;
            &&& usage_block_layout() is Members
            &&& placed.len() == 5
            &&& placed[0].0 == "prompt_tokens"@
            &&& placed[1].0 == "completion_tokens"@
            &&& placed[2].0 == "total_tokens"@
            &&& placed[3].0 == "prompt_tokens_details"@
            &&& placed[4].0 == "completion_tokens_details"@
        }),
        ({
            let placed = wrapper_usage_layout()->Members_0;
            &&& wrapper_usage_layout() is Members
            &&& placed.len() == 4
            &&& placed[0].0 == "input_tokens"@
            &&& placed[1].0 == "cached_input_tokens"@
            &&& placed[2].0 == "output_tokens"@
            &&& placed[3].0 == "reasoning_output_tokens"@
        }),
        ({
            let placed = wrapper_layout(metadata)->Members_0;
            let session = if metadata.session_id is Some {
                1int
            } else {
                0
            };
            let cost = session + if metadata.estimated_cost_usd is Some {
                1int
            } else {
                0
            };
            &&& wrapper_layout(metadata) is Members
            &&& placed[0].0 == "thread_id"@
            &&& metadata.session_id is Some ==> placed[1].0 == "session_id"@
            &&& placed[session + 1].0 == "usage"@
            &&& metadata.estimated_cost_usd is Some ==> placed[session + 2].0
                == "estimated_cost_usd"@
            &&& metadata.pricing_source is Some ==> placed[cost + 2].0 == "pricing_source"@
        }),
{
}

} // verus!
