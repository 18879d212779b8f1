//! Neutral data model shared by all provider adapters.

use vstd::prelude::*;

use crate::error::{Error, ErrorV};
use crate::json::JsonValue;
use crate::json::JsonV;

verus! {

use vstd::string::StrSliceExecFns;
use vstd::string::StringExecFns;

/// Message role in a conversation.
#[derive(Clone, Copy, Debug, PartialEq, Eq, Structural)]
pub enum Role {
    System,
    User,
    Assistant,
    Tool,
}

/// Reason the completion finished.
#[derive(Clone, Copy, Debug, PartialEq, Eq, Structural)]
pub enum FinishReason {
    Stop,
    Length,
    ToolCalls,
    ContentFilter,
    Unknown,
}

/// Kind of streaming chunk.
#[derive(Clone, Copy, Debug, PartialEq, Eq, Structural)]
pub enum ChunkKind {
    Text,
    UsageOnly,
    Ping,
    ToolDelta,
    Thinking,
    Unknown,
}

/// Token usage statistics.
#[derive(Clone, Copy, Debug, PartialEq, Eq, Structural)]
pub struct Usage {
    pub input_tokens: u32,
    pub output_tokens: u32,
    /// Tokens read from cache.
    pub cache_read_input_tokens: u32,
    /// Tokens written to cache.
    pub cache_creation_input_tokens: u32,
}

/// Field-wise maximum of two usage records.
pub open spec fn spec_merge_usage(a: Usage, b: Usage) -> Usage {
    Usage {
        input_tokens: if a.input_tokens >= b.input_tokens {
            a.input_tokens
        } else {
            b.input_tokens
        },
        output_tokens: if a.output_tokens >= b.output_tokens {
            a.output_tokens
        } else {
            b.output_tokens
        },
        cache_read_input_tokens: if a.cache_read_input_tokens >= b.cache_read_input_tokens {
            a.cache_read_input_tokens
        } else {
            b.cache_read_input_tokens
        },
        cache_creation_input_tokens: if a.cache_creation_input_tokens
            >= b.cache_creation_input_tokens {
            a.cache_creation_input_tokens
        } else {
            b.cache_creation_input_tokens
        },
    }
}

/// The all-zero usage record.
pub open spec fn zero_usage() -> Usage {
    Usage {
        input_tokens: 0,
        output_tokens: 0,
        cache_read_input_tokens: 0,
        cache_creation_input_tokens: 0,
    }
}

impl Usage {
    /// The all-zero usage record.
    pub fn new() -> (r: Usage)
        ensures
            r == zero_usage(),
    {
        Usage {
            input_tokens: 0,
            output_tokens: 0,
            cache_read_input_tokens: 0,
            cache_creation_input_tokens: 0,
        }
    }

    /// Total tokens used: input plus output.
    pub fn total(&self) -> (r: u32)
        requires
            self.input_tokens + self.output_tokens <= u32::MAX,
        ensures
            r == self.input_tokens + self.output_tokens,
    {
        self.input_tokens + self.output_tokens
    }

    /// Merge with another usage record, taking the maximum of each field.
    pub fn merge(&mut self, other: &Usage)
        ensures
            *final(self) == spec_merge_usage(*old(self), *other),
    {
        if other.input_tokens > self.input_tokens {
            self.input_tokens = other.input_tokens;
        }
        if other.output_tokens > self.output_tokens {
            self.output_tokens = other.output_tokens;
        }
        if other.cache_read_input_tokens > self.cache_read_input_tokens {
            self.cache_read_input_tokens = other.cache_read_input_tokens;
        }
        if other.cache_creation_input_tokens > self.cache_creation_input_tokens {
            self.cache_creation_input_tokens = other.cache_creation_input_tokens;
        }
    }
}

impl Default for Usage {
    /// The all-zero usage record.
    fn default() -> (r: Usage)
        ensures
            r == zero_usage(),
    {
        Usage::new()
    }
}

/// Merge of a sequence of usage records into an all-zero start, in order.
pub open spec fn fold_merge_usages(s: Seq<Usage>) -> Usage
    decreases s.len(),
{
    if s.len() == 0 {
        zero_usage()
    } else {
        spec_merge_usage(fold_merge_usages(s.drop_last()), s.last())
    }
}

/// Usage merging is monotone and exact: each field of the merged result is at
/// least every corresponding input field, and when there is any input at all
/// it equals one of the inputs for that field (hence the maximum).
pub proof fn lemma_usage_merge_monotone(s: Seq<Usage>)
    ensures
        forall|i: int|
            0 <= i < s.len() ==> fold_merge_usages(s).input_tokens >= #[trigger] s[i].input_tokens
                && fold_merge_usages(s).output_tokens >= s[i].output_tokens && fold_merge_usages(
                s,
            ).cache_read_input_tokens >= s[i].cache_read_input_tokens && fold_merge_usages(
                s,
            ).cache_creation_input_tokens >= s[i].cache_creation_input_tokens,
        s.len() > 0 ==> exists|i: int|
            0 <= i < s.len() && fold_merge_usages(s).input_tokens == #[trigger] s[i].input_tokens,
        s.len() > 0 ==> exists|i: int|
            0 <= i < s.len() && fold_merge_usages(s).output_tokens == #[trigger] s[i].output_tokens,
        s.len() > 0 ==> exists|i: int|
            0 <= i < s.len() && fold_merge_usages(s).cache_read_input_tokens
                == #[trigger] s[i].cache_read_input_tokens,
        s.len() > 0 ==> exists|i: int|
            0 <= i < s.len() && fold_merge_usages(s).cache_creation_input_tokens
                == #[trigger] s[i].cache_creation_input_tokens,
    decreases s.len(),
{
    if s.len() > 0 {
        lemma_usage_merge_monotone(s.drop_last());
        let prev = fold_merge_usages(s.drop_last());
        let last = s.last();
        assert forall|i: int| 0 <= i < s.len() implies fold_merge_usages(s).input_tokens
            >= #[trigger] s[i].input_tokens && fold_merge_usages(s).output_tokens
            >= s[i].output_tokens && fold_merge_usages(s).cache_read_input_tokens
            >= s[i].cache_read_input_tokens && fold_merge_usages(s).cache_creation_input_tokens
            >= s[i].cache_creation_input_tokens by {
            if i < s.len() - 1 {
                assert(s.drop_last()[i] == s[i]);
            }
        }
        if s.len() == 1 {
            assert(fold_merge_usages(s).input_tokens == s[0].input_tokens || fold_merge_usages(
                s,
            ).input_tokens == 0);
        }
        if fold_merge_usages(s).input_tokens == last.input_tokens {
            assert(s[s.len() - 1] == last);
        } else {
            assert(s.len() > 1) by {
                if s.len() == 1 {
                    assert(prev == zero_usage());
                }
            }
            let i = choose|i: int|
                0 <= i < s.drop_last().len() && prev.input_tokens == #[trigger] s.drop_last()[
                    i
                ].input_tokens;
            assert(s[i].input_tokens == fold_merge_usages(s).input_tokens);
        }
        if fold_merge_usages(s).output_tokens == last.output_tokens {
            assert(s[s.len() - 1] == last);
        } else {
            assert(s.len() > 1) by {
                if s.len() == 1 {
                    assert(prev == zero_usage());
                }
            }
            let i = choose|i: int|
                0 <= i < s.drop_last().len() && prev.output_tokens == #[trigger] s.drop_last()[
                    i
                ].output_tokens;
            assert(s[i].output_tokens == fold_merge_usages(s).output_tokens);
        }
        if fold_merge_usages(s).cache_read_input_tokens == last.cache_read_input_tokens {
            assert(s[s.len() - 1] == last);
        } else {
            assert(s.len() > 1) by {
                if s.len() == 1 {
                    assert(prev == zero_usage());
                }
            }
            let i = choose|i: int|
                0 <= i < s.drop_last().len() && prev.cache_read_input_tokens
                    == #[trigger] s.drop_last()[i].cache_read_input_tokens;
            assert(s[i].cache_read_input_tokens == fold_merge_usages(s).cache_read_input_tokens);
        }
        if fold_merge_usages(s).cache_creation_input_tokens == last.cache_creation_input_tokens {
            assert(s[s.len() - 1] == last);
        } else {
            assert(s.len() > 1) by {
                if s.len() == 1 {
                    assert(prev == zero_usage());
                }
            }
            let i = choose|i: int|
                0 <= i < s.drop_last().len() && prev.cache_creation_input_tokens
                    == #[trigger] s.drop_last()[i].cache_creation_input_tokens;
            assert(s[i].cache_creation_input_tokens == fold_merge_usages(
                s,
            ).cache_creation_input_tokens);
        }
    }
}

/// View of an optional string as an optional character sequence.
pub open spec fn opt_str_view(o: Option<String>) -> Option<Seq<char>> {
    match o {
        Some(s) => Some(s@),
        None => None,
    }
}

/// An image reference carried in a content part.
pub struct ImageUrl {
    pub url: String,
    pub detail: Option<String>,
}

pub struct ImageUrlV {
    pub url: Seq<char>,
    pub detail: Option<Seq<char>>,
}

impl View for ImageUrl {
    type V = ImageUrlV;

    open spec fn view(&self) -> ImageUrlV {
        ImageUrlV { url: self.url@, detail: opt_str_view(self.detail) }
    }
}

/// Content part for multi-modal messages.
pub enum ContentPart {
    Text { text: String },
    ImageUrl { image_url: ImageUrl },
}

pub enum ContentPartV {
    Text { text: Seq<char> },
    ImageUrl { image_url: ImageUrlV },
}

impl View for ContentPart {
    type V = ContentPartV;

    open spec fn view(&self) -> ContentPartV {
        match self {
            ContentPart::Text { text } => (ContentPartV::Text { text: text@ }),
            ContentPart::ImageUrl { image_url } => (ContentPartV::ImageUrl {
                image_url: image_url@,
            }),
        }
    }
}

/// Message content: either plain text or structured parts.
pub enum MessageContent {
    Text(String),
    Parts(Vec<ContentPart>),
}

pub enum MessageContentV {
    Text(Seq<char>),
    Parts(Seq<ContentPartV>),
}

impl View for MessageContent {
    type V = MessageContentV;

    open spec fn view(&self) -> MessageContentV {
        match self {
            MessageContent::Text(s) => MessageContentV::Text(s@),
            MessageContent::Parts(parts) => MessageContentV::Parts(parts_view(parts@)),
        }
    }
}

impl MessageContent {
    /// The text payload when the content is plain text.
    pub fn as_text(&self) -> (r: Option<&String>)
        ensures
            match r {
                Some(s) => self@ == MessageContentV::Text(s@),
                None => !(self@ is Text),
            },
    {
        match self {
            MessageContent::Text(s) => Some(s),
            MessageContent::Parts(_) => None,
        }
    }
}

/// Function call details of a tool call.
pub struct FunctionCall {
    pub name: String,
    pub arguments: String,
}

pub struct FunctionCallV {
    pub name: Seq<char>,
    pub arguments: Seq<char>,
}

impl View for FunctionCall {
    type V = FunctionCallV;

    open spec fn view(&self) -> FunctionCallV {
        FunctionCallV { name: self.name@, arguments: self.arguments@ }
    }
}

/// A tool call in a response.
pub struct ToolCall {
    pub id: String,
    pub tool_type: String,
    pub function: FunctionCall,
}

pub struct ToolCallV {
    pub id: Seq<char>,
    pub tool_type: Seq<char>,
    pub function: FunctionCallV,
}

impl View for ToolCall {
    type V = ToolCallV;

    open spec fn view(&self) -> ToolCallV {
        ToolCallV { id: self.id@, tool_type: self.tool_type@, function: self.function@ }
    }
}

/// View of a sequence of content parts.
pub open spec fn parts_view(parts: Seq<ContentPart>) -> Seq<ContentPartV> {
    Seq::new(
        parts.len(),
        |i: int|
            if 0 <= i < parts.len() {
                parts[i]@
            } else {
                ContentPartV::Text { text: Seq::empty() }
            },
    )
}

/// View of a sequence of tool calls.
pub open spec fn tool_calls_view(calls: Seq<ToolCall>) -> Seq<ToolCallV> {
    Seq::new(
        calls.len(),
        |i: int|
            if 0 <= i < calls.len() {
                calls[i]@
            } else {
                ToolCallV {
                    id: Seq::empty(),
                    tool_type: Seq::empty(),
                    function: FunctionCallV { name: Seq::empty(), arguments: Seq::empty() },
                }
            },
    )
}

/// A conversation message.
pub struct Message {
    pub role: Role,
    pub content: MessageContent,
    pub name: Option<String>,
    pub tool_call_id: Option<String>,
    pub tool_calls: Option<Vec<ToolCall>>,
}

pub struct MessageV {
    pub role: Role,
    pub content: MessageContentV,
    pub name: Option<Seq<char>>,
    pub tool_call_id: Option<Seq<char>>,
    pub tool_calls: Option<Seq<ToolCallV>>,
}

impl View for Message {
    type V = MessageV;

    open spec fn view(&self) -> MessageV {
        MessageV {
            role: self.role,
            content: self.content@,
            name: opt_str_view(self.name),
            tool_call_id: opt_str_view(self.tool_call_id),
            tool_calls: match self.tool_calls {
                Some(calls) => Some(tool_calls_view(calls@)),
                None => None,
            },
        }
    }
}

/// The message a given constructor builds: the role, plain text content, and
/// no optional fields but the tool call id.
pub open spec fn spec_plain_message(
    role: Role,
    content: Seq<char>,
    tool_call_id: Option<Seq<char>>,
) -> MessageV {
    MessageV {
        role,
        content: MessageContentV::Text(content),
        name: None,
        tool_call_id,
        tool_calls: None,
    }
}

impl Message {
    /// Create a user message.
    pub fn user(content: &str) -> (r: Message)
        ensures
            r@ == spec_plain_message(Role::User, content@, None),
    {
        Message {
            role: Role::User,
            content: MessageContent::Text(content.to_owned()),
            name: None,
            tool_call_id: None,
            tool_calls: None,
        }
    }

    /// Create a system message.
    pub fn system(content: &str) -> (r: Message)
        ensures
            r@ == spec_plain_message(Role::System, content@, None),
    {
        Message {
            role: Role::System,
            content: MessageContent::Text(content.to_owned()),
            name: None,
            tool_call_id: None,
            tool_calls: None,
        }
    }

    /// Create an assistant message.
    pub fn assistant(content: &str) -> (r: Message)
        ensures
            r@ == spec_plain_message(Role::Assistant, content@, None),
    {
        Message {
            role: Role::Assistant,
            content: MessageContent::Text(content.to_owned()),
            name: None,
            tool_call_id: None,
            tool_calls: None,
        }
    }

    /// Create a tool result message.
    pub fn tool_result(tool_call_id: &str, content: &str) -> (r: Message)
        ensures
            r@ == spec_plain_message(Role::Tool, content@, Some(tool_call_id@)),
    {
        Message {
            role: Role::Tool,
            content: MessageContent::Text(content.to_owned()),
            name: None,
            tool_call_id: Some(tool_call_id.to_owned()),
            tool_calls: None,
        }
    }
}

/// Function definition for tool calling.
pub struct FunctionDef {
    pub name: String,
    pub description: Option<String>,
    pub parameters: Option<JsonValue>,
}

pub struct FunctionDefV {
    pub name: Seq<char>,
    pub description: Option<Seq<char>>,
    pub parameters: Option<JsonV>,
}

impl View for FunctionDef {
    type V = FunctionDefV;

    open spec fn view(&self) -> FunctionDefV {
        FunctionDefV {
            name: self.name@,
            description: opt_str_view(self.description),
            parameters: match self.parameters {
                Some(p) => Some(p@),
                None => None,
            },
        }
    }
}

/// Tool (function) definition offered to the model.
pub struct Tool {
    pub tool_type: String,
    pub function: FunctionDef,
}

pub struct ToolV {
    pub tool_type: Seq<char>,
    pub function: FunctionDefV,
}

impl View for Tool {
    type V = ToolV;

    open spec fn view(&self) -> ToolV {
        ToolV { tool_type: self.tool_type@, function: self.function@ }
    }
}

impl Tool {
    /// Create a function tool.
    pub fn function(name: &str, description: &str, parameters: JsonValue) -> (r: Tool)
        ensures
            r@ == (ToolV {
                tool_type: "function"@,
                function: FunctionDefV {
                    name: name@,
                    description: Some(description@),
                    parameters: Some(parameters@),
                },
            }),
    {
        Tool {
            tool_type: "function".to_owned(),
            function: FunctionDef {
                name: name.to_owned(),
                description: Some(description.to_owned()),
                parameters: Some(parameters),
            },
        }
    }
}

/// Result of a completed request.
pub struct CompletionResult {
    pub content: String,
    pub usage: Usage,
    pub model: String,
    pub finish_reason: FinishReason,
    pub tool_calls: Vec<ToolCall>,
}

pub struct CompletionResultV {
    pub content: Seq<char>,
    pub usage: Usage,
    pub model: Seq<char>,
    pub finish_reason: FinishReason,
    pub tool_calls: Seq<ToolCallV>,
}

impl View for CompletionResult {
    type V = CompletionResultV;

    open spec fn view(&self) -> CompletionResultV {
        CompletionResultV {
            content: self.content@,
            usage: self.usage,
            model: self.model@,
            finish_reason: self.finish_reason,
            tool_calls: tool_calls_view(self.tool_calls@),
        }
    }
}

/// Delta for streaming tool calls.
pub struct ToolCallDelta {
    pub index: usize,
    pub id: Option<String>,
    pub function_name: Option<String>,
    pub function_arguments: Option<String>,
}

pub struct ToolDeltaV {
    pub index: int,
    pub id: Option<Seq<char>>,
    pub function_name: Option<Seq<char>>,
    pub function_arguments: Option<Seq<char>>,
}

impl View for ToolCallDelta {
    type V = ToolDeltaV;

    open spec fn view(&self) -> ToolDeltaV {
        ToolDeltaV {
            index: self.index as int,
            id: opt_str_view(self.id),
            function_name: opt_str_view(self.function_name),
            function_arguments: opt_str_view(self.function_arguments),
        }
    }
}

/// Text payload of a streaming chunk. `Empty` and an empty owned string mean
/// the same thing: no text.
pub enum TextData {
    Empty,
    Owned(String),
}

/// A single streaming chunk.
pub struct StreamChunk {
    pub kind: ChunkKind,
    pub text_data: TextData,
    pub finish_reason: Option<FinishReason>,
    pub usage: Option<Usage>,
    pub tool_call_delta: Option<ToolCallDelta>,
}

pub struct ChunkV {
    pub kind: ChunkKind,
    pub text: Seq<char>,
    pub finish_reason: Option<FinishReason>,
    pub usage: Option<Usage>,
    pub tool_call_delta: Option<ToolDeltaV>,
}

impl View for StreamChunk {
    type V = ChunkV;

    open spec fn view(&self) -> ChunkV {
        ChunkV {
            kind: self.kind,
            text: match self.text_data {
                TextData::Empty => Seq::empty(),
                TextData::Owned(s) => s@,
            },
            finish_reason: self.finish_reason,
            usage: self.usage,
            tool_call_delta: match self.tool_call_delta {
                Some(d) => Some(d@),
                None => None,
            },
        }
    }
}

/// The chunk with no payload of the given kind.
pub open spec fn spec_empty_chunk(kind: ChunkKind) -> ChunkV {
    ChunkV { kind, text: Seq::empty(), finish_reason: None, usage: None, tool_call_delta: None }
}

impl StreamChunk {
    /// Create an empty chunk of the given kind.
    pub fn empty(kind: ChunkKind) -> (r: Self)
        ensures
            r@ == spec_empty_chunk(kind),
    {
        StreamChunk {
            kind,
            text_data: TextData::Empty,
            finish_reason: None,
            usage: None,
            tool_call_delta: None,
        }
    }

    /// Create a text chunk owning its data.
    pub fn text_owned(text: String) -> (r: Self)
        ensures
            r@ == (ChunkV { kind: ChunkKind::Text, text: text@, ..spec_empty_chunk(
                ChunkKind::Text,
            ) }),
    {
        let r = StreamChunk {
            kind: ChunkKind::Text,
            text_data: if text.as_str().is_empty() {
                TextData::Empty
            } else {
                TextData::Owned(text)
            },
            finish_reason: None,
            usage: None,
            tool_call_delta: None,
        };
        proof {
            assert(r@.text =~= text@);
        }
        r
    }

    /// Create a usage-only chunk.
    pub fn usage(usage: Usage) -> (r: Self)
        ensures
            r@ == (ChunkV { usage: Some(usage), ..spec_empty_chunk(ChunkKind::UsageOnly) }),
    {
        StreamChunk {
            kind: ChunkKind::UsageOnly,
            text_data: TextData::Empty,
            finish_reason: None,
            usage: Some(usage),
            tool_call_delta: None,
        }
    }

    /// The text payload, when there is one.
    pub fn text(&self) -> (r: Option<&String>)
        ensures
            match r {
                Some(s) => s@ == self@.text && self@.text.len() != 0,
                None => self@.text.len() == 0,
            },
    {
        match &self.text_data {
            TextData::Empty => None,
            TextData::Owned(s) => if s.as_str().is_empty() {
                None
            } else {
                Some(s)
            },
        }
    }

    /// The owned text payload, consuming the chunk.
    pub fn into_text(self) -> (r: Option<String>)
        ensures
            match r {
                Some(s) => s@ == self@.text && self@.text.len() != 0,
                None => self@.text.len() == 0,
            },
    {
        match self.text_data {
            TextData::Empty => None,
            TextData::Owned(s) => if s.as_str().is_empty() {
                None
            } else {
                Some(s)
            },
        }
    }

    /// Set the finish reason.
    pub fn with_finish_reason(self, reason: FinishReason) -> (r: Self)
        ensures
            r@ == (ChunkV { finish_reason: Some(reason), ..self@ }),
    {
        StreamChunk { finish_reason: Some(reason), ..self }
    }

    /// Set the usage.
    pub fn with_usage(self, usage: Usage) -> (r: Self)
        ensures
            r@ == (ChunkV { usage: Some(usage), ..self@ }),
    {
        StreamChunk { usage: Some(usage), ..self }
    }
}

/// One tool call under construction.
pub struct ToolCallBuilder {
    pub id: String,
    pub name: String,
    pub arguments: String,
}

pub struct BuilderV {
    pub id: Seq<char>,
    pub name: Seq<char>,
    pub arguments: Seq<char>,
}

impl View for ToolCallBuilder {
    type V = BuilderV;

    open spec fn view(&self) -> BuilderV {
        BuilderV { id: self.id@, name: self.name@, arguments: self.arguments@ }
    }
}

pub open spec fn empty_builder() -> BuilderV {
    BuilderV { id: Seq::empty(), name: Seq::empty(), arguments: Seq::empty() }
}

/// Accumulator building tool calls from streamed deltas.
pub struct ToolCallAccumulator {
    pub calls: Vec<ToolCallBuilder>,
}

/// View of a sequence of builders.
pub open spec fn builders_view(calls: Seq<ToolCallBuilder>) -> Seq<BuilderV> {
    Seq::new(
        calls.len(),
        |i: int|
            if 0 <= i < calls.len() {
                calls[i]@
            } else {
                empty_builder()
            },
    )
}

impl View for ToolCallAccumulator {
    type V = Seq<BuilderV>;

    open spec fn view(&self) -> Seq<BuilderV> {
        builders_view(self.calls@)
    }
}

/// Application of one delta: the list is padded with empty builders up to the
/// delta's index, the id and name are replaced when the delta carries
/// non-empty ones, and the argument fragment is appended.
pub open spec fn apply_delta(s: Seq<BuilderV>, d: ToolDeltaV) -> Seq<BuilderV> {
    let padded = if s.len() > d.index {
        s
    } else {
        s + Seq::new((d.index + 1 - s.len()) as nat, |i: int| empty_builder())
    };
    let b = padded[d.index];
    padded.update(
        d.index,
        BuilderV {
            id: match d.id {
                Some(x) => if x.len() > 0 {
                    x
                } else {
                    b.id
                },
                None => b.id,
            },
            name: match d.function_name {
                Some(x) => if x.len() > 0 {
                    x
                } else {
                    b.name
                },
                None => b.name,
            },
            arguments: match d.function_arguments {
                Some(x) => b.arguments + x,
                None => b.arguments,
            },
        },
    )
}

/// Application of a sequence of deltas in order.
pub open spec fn apply_deltas(s: Seq<BuilderV>, ds: Seq<ToolDeltaV>) -> Seq<BuilderV>
    decreases ds.len(),
{
    if ds.len() == 0 {
        s
    } else {
        apply_delta(apply_deltas(s, ds.drop_last()), ds.last())
    }
}

/// The finalized calls: builders with an empty id are dropped, the others
/// become function tool calls.
pub open spec fn finalize_calls(s: Seq<BuilderV>) -> Seq<ToolCallV>
    decreases s.len(),
{
    if s.len() == 0 {
        Seq::empty()
    } else {
        finalize_calls(s.drop_last()) + if s.last().id.len() > 0 {
            seq![
                ToolCallV {
                    id: s.last().id,
                    tool_type: "function"@,
                    function: FunctionCallV { name: s.last().name, arguments: s.last().arguments },
                },
            ]
        } else {
            Seq::empty()
        }
    }
}

impl ToolCallAccumulator {
    /// Create an empty accumulator.
    pub fn new() -> (r: Self)
        ensures
            r@ == Seq::<BuilderV>::empty(),
    {
        let r = ToolCallAccumulator { calls: Vec::new() };
        proof {
            assert(r@ =~= Seq::<BuilderV>::empty());
        }
        r
    }

    /// Apply one delta to the accumulator.
    #[verifier::loop_isolation(false)]
    pub fn apply(&mut self, delta: &ToolCallDelta)
        ensures
            final(self)@ == apply_delta(old(self)@, delta@),
    {
        while self.calls.len() <= delta.index
            invariant
                self@.len() >= old(self)@.len(),
                old(self)@.len() > delta.index as int ==> self@.len() == old(self)@.len(),
                old(self)@.len() <= delta.index as int ==> self@.len() <= delta.index as int + 1,
                forall|t: int| 0 <= t < old(self)@.len() ==> self@[t] == old(self)@[t],
                forall|t: int|
                    old(self)@.len() <= t < self@.len() ==> self@[t] == empty_builder(),
            decreases delta.index + 1 - self.calls.len(),
        {
            let b = ToolCallBuilder {
                id: String::new(),
                name: String::new(),
                arguments: String::new(),
            };
            proof {
                assert(b@ == empty_builder());
            }
            let ghost prev = self@;
            self.calls.push(b);
            proof {
                assert(self@.len() == prev.len() + 1);
                assert(self@[prev.len() as int] == b@);
                assert forall|t: int| 0 <= t < prev.len() implies self@[t] == prev[t] by {}
                assert forall|t: int|
                    old(self)@.len() <= t < self@.len() implies self@[t] == empty_builder() by {
                    if t < prev.len() {
                        assert(self@[t] == prev[t]);
                        assert(prev[t] == empty_builder());
                    } else {
                        assert(t == prev.len() as int);
                        assert(self@[t] == b@);
                    }
                }
            }
        }
        let ghost padded = if old(self)@.len() > delta.index as int {
            old(self)@
        } else {
            old(self)@ + Seq::new(
                (delta.index + 1 - old(self)@.len()) as nat,
                |i: int| empty_builder(),
            )
        };
        proof {
            assert(self@.len() == padded.len());
            assert forall|t: int| 0 <= t < padded.len() implies self@[t] == padded[t] by {
                if t >= old(self)@.len() {
                    assert(self@[t] == empty_builder());
                }
            }
            assert(self@ =~= padded);
        }
        let i = delta.index;
        let id_new: String = if let Some(x) = &delta.id {
            if !x.as_str().is_empty() {
                x.clone()
            } else {
                self.calls[i].id.clone()
            }
        } else {
            self.calls[i].id.clone()
        };
        let name_new: String = if let Some(x) = &delta.function_name {
            if !x.as_str().is_empty() {
                x.clone()
            } else {
                self.calls[i].name.clone()
            }
        } else {
            self.calls[i].name.clone()
        };
        let mut args_new: String = self.calls[i].arguments.clone();
        if let Some(a) = &delta.function_arguments {
            args_new.append(a.as_str());
        }
        self.calls[i] = ToolCallBuilder { id: id_new, name: name_new, arguments: args_new };
        proof {
            assert(self@ =~= apply_delta(old(self)@, delta@));
        }
    }

    /// Finalize into completed tool calls, dropping builders whose id stayed
    /// empty.
    #[verifier::loop_isolation(false)]
    pub fn finalize(self) -> (r: Vec<ToolCall>)
        ensures
            tool_calls_view(r@) == finalize_calls(self@),
    {
        let mut out: Vec<ToolCall> = Vec::new();
        let mut i: usize = 0;
        let calls = self.calls;
        let ghost sv = builders_view(calls@);
        while i < calls.len()
            invariant
                0 <= i <= calls.len(),
                tool_calls_view(out@) == finalize_calls(sv.take(i as int)),
            decreases calls.len() - i,
        {
            proof {
                assert(sv.take(i + 1).drop_last() =~= sv.take(i as int));
                assert(sv.take(i + 1).last() == calls@[i as int]@);
            }
            if !calls[i].id.as_str().is_empty() {
                out.push(
                    ToolCall {
                        id: calls[i].id.clone(),
                        tool_type: "function".to_owned(),
                        function: FunctionCall {
                            name: calls[i].name.clone(),
                            arguments: calls[i].arguments.clone(),
                        },
                    },
                );
            }
            proof {
                assert(tool_calls_view(out@) =~= finalize_calls(sv.take(i + 1)));
            }
            i = i + 1;
        }
        proof {
            assert(sv.take(calls@.len() as int) =~= sv);
            assert(sv == builders_view(calls@));
        }
        out
    }
}

/// Concatenation of a sequence of fragments.
pub open spec fn concat_frags(frags: Seq<Seq<char>>) -> Seq<char>
    decreases frags.len(),
{
    if frags.len() == 0 {
        Seq::empty()
    } else {
        concat_frags(frags.drop_last()) + frags.last()
    }
}

/// Tool-delta concatenation: delivering the fragments of a string in order as
/// argument deltas under one index leaves that builder's arguments equal to
/// the concatenation of the fragments appended to what it held before; in
/// particular, starting from an empty accumulator the finalized call carries
/// exactly the original string.
pub proof fn lemma_tool_delta_concatenation(
    s0: Seq<BuilderV>,
    ds: Seq<ToolDeltaV>,
    idx: int,
    frags: Seq<Seq<char>>,
)
    requires
        ds.len() == frags.len(),
        ds.len() > 0,
        idx >= 0,
        forall|i: int|
            0 <= i < ds.len() ==> (#[trigger] ds[i]).index == idx && ds[i].function_arguments
                == Some(frags[i]),
    ensures
        apply_deltas(s0, ds).len() > idx,
        apply_deltas(s0, ds)[idx].arguments == (if idx < s0.len() {
            s0[idx].arguments
        } else {
            Seq::<char>::empty()
        }) + concat_frags(frags),
        forall|j: int|
            0 <= j < apply_deltas(s0, ds).len() && j != idx && j < s0.len()
                ==> #[trigger] apply_deltas(s0, ds)[j] == s0[j],
    decreases ds.len(),
{
    let prior: Seq<char> = if idx < s0.len() {
        s0[idx].arguments
    } else {
        Seq::empty()
    };
    if ds.len() == 1 {
        reveal_with_fuel(apply_deltas, 2);
        reveal_with_fuel(concat_frags, 2);
        assert(ds.drop_last().len() == 0);
        assert(ds.drop_last() =~= Seq::<ToolDeltaV>::empty());
        assert(frags.drop_last() =~= Seq::<Seq<char>>::empty());
        assert(apply_deltas(s0, ds) == apply_delta(s0, ds[0]));
        assert(concat_frags(frags) =~= frags[0]);
        assert(apply_delta(s0, ds[0])[idx].arguments =~= prior + frags[0]);
    } else {
        lemma_tool_delta_concatenation(s0, ds.drop_last(), idx, frags.drop_last());
        let mid = apply_deltas(s0, ds.drop_last());
        assert(apply_deltas(s0, ds) == apply_delta(mid, ds.last()));
        assert(mid[idx].arguments == prior + concat_frags(frags.drop_last()));
        assert(apply_delta(mid, ds.last())[idx].arguments == mid[idx].arguments + frags.last());
        assert(prior + concat_frags(frags.drop_last()) + frags.last() =~= prior + concat_frags(
            frags,
        ));
    }
}

/// Parsed provider and model from a model identifier string.
pub struct ModelId {
    pub provider: String,
    pub model: String,
}

/// Position of the first `/` in a string, if any.
pub open spec fn first_slash(s: Seq<char>) -> Option<int>
    decreases s.len(),
{
    if s.len() == 0 {
        None
    } else if s[0] == '/' {
        Some(0)
    } else {
        match first_slash(s.skip(1)) {
            None => None,
            Some(i) => Some(i + 1),
        }
    }
}

/// A model identifier is well formed when it has a `/` with at least one
/// character on each side of the first one.
pub open spec fn valid_model_id(s: Seq<char>) -> bool {
    match first_slash(s) {
        Some(i) => 0 < i && i + 1 < s.len(),
        None => false,
    }
}

proof fn lemma_first_slash_at(s: Seq<char>, k: int)
    requires
        0 <= k < s.len(),
        s[k] == '/',
        forall|j: int| 0 <= j < k ==> s[j] != '/',
    ensures
        first_slash(s) == Some(k),
    decreases k,
{
    if k > 0 {
        lemma_first_slash_at(s.skip(1), k - 1);
    }
}

proof fn lemma_first_slash_none(s: Seq<char>)
    requires
        forall|j: int| 0 <= j < s.len() ==> s[j] != '/',
    ensures
        first_slash(s) is None,
    decreases s.len(),
{
    if s.len() > 0 {
        lemma_first_slash_none(s.skip(1));
    }
}

/// The first slash really is a slash, and nothing before it is one.
pub proof fn lemma_first_slash_char(s: Seq<char>)
    requires
        first_slash(s) is Some,
    ensures
        0 <= first_slash(s)->0 < s.len(),
        s[first_slash(s)->0] == '/',
        forall|j: int| 0 <= j < first_slash(s)->0 ==> s[j] != '/',
    decreases s.len(),
{
    if s.len() > 0 && s[0] != '/' {
        lemma_first_slash_char(s.skip(1));
        let i = first_slash(s)->0;
        assert forall|j: int| 0 <= j < i implies s[j] != '/' by {
            if j > 0 {
                assert(s.skip(1)[j - 1] == s[j]);
            }
        }
    }
}

impl ModelId {
    /// Parse a model identifier of the form `provider/model`: the provider is
    /// everything before the first slash, the model everything after it, and
    /// both halves must be non-empty.
    #[verifier::loop_isolation(false)]
    pub fn parse(s: &str) -> (r: Result<ModelId, Error>)
        ensures
            match r {
                Ok(id) => valid_model_id(s@) && id.provider@ == s@.subrange(0, first_slash(s@)->0)
                    && id.model@ == s@.subrange(first_slash(s@)->0 + 1, s@.len() as int),
                Err(e) => !valid_model_id(s@) && e@ == ErrorV::InvalidModel(s@),
            },
    {
        let n = s.unicode_len();
        let mut i: usize = 0;
        while i < n
            invariant
                0 <= i <= n,
                n == s@.len(),
                forall|j: int| 0 <= j < i ==> s@[j] != '/',
            decreases n - i,
        {
            if s.get_char(i) == '/' {
                proof {
                    lemma_first_slash_at(s@, i as int);
                }
                if i == 0 || i + 1 == n {
                    return Err(Error::InvalidModel(s.to_owned()));
                }
                let provider = s.substring_char(0, i).to_owned();
                let model = s.substring_char(i + 1, n).to_owned();
                return Ok(ModelId { provider, model });
            }
            i = i + 1;
        }
        proof {
            lemma_first_slash_none(s@);
        }
        Err(Error::InvalidModel(s.to_owned()))
    }
}

/// Identifier round trip: for a well-formed `provider/model` string, the
/// parsed provider, a slash, and the parsed model concatenate back to the
/// original string.
pub proof fn lemma_model_id_round_trip(s: Seq<char>)
    requires
        valid_model_id(s),
    ensures
        s.subrange(0, first_slash(s)->0) + seq!['/'] + s.subrange(
            first_slash(s)->0 + 1,
            s.len() as int,
        ) == s,
{
    lemma_first_slash_char(s);
    assert(s.subrange(0, first_slash(s)->0) + seq!['/'] + s.subrange(
        first_slash(s)->0 + 1,
        s.len() as int,
    ) =~= s);
}

/// View of a sequence of tools.
pub open spec fn tools_view(tools: Seq<Tool>) -> Seq<ToolV> {
    Seq::new(
        tools.len(),
        |i: int|
            if 0 <= i < tools.len() {
                tools[i]@
            } else {
                ToolV {
                    tool_type: Seq::empty(),
                    function: FunctionDefV { name: Seq::empty(), description: None, parameters: None },
                }
            },
    )
}

/// View of a sequence of messages.
pub open spec fn msgs_view(msgs: Seq<Message>) -> Seq<MessageV> {
    Seq::new(
        msgs.len(),
        |i: int|
            if 0 <= i < msgs.len() {
                msgs[i]@
            } else {
                spec_plain_message(Role::User, Seq::empty(), None)
            },
    )
}

} // verus!
