//! Cerebras adapter: OpenAI-compatible chat completions with an SSE stream
//! terminated by a `[DONE]` sentinel.

use vstd::prelude::*;

use crate::error::{Error, ErrorV};
use crate::json::{JsonValue, JsonV, fields_view, items_view, parse_json, spec_parse_json,
    spec_u64_dec, spec_milli_dec, str_eq};
use crate::providers::{RequestConfig, RequestConfigV, spec_tool_choice_value, fold_obj_set,
    merge_extra, field_req_u32, get_req_u32, field_req_str, get_req_str, field_opt_str,
    get_opt_str, field_req_arr, get_req_arr, field_opt_arr, get_opt_arr, field_req_obj,
    get_req_obj, field_opt_u32, get_opt_u32};
use crate::types::{Message, MessageV, MessageContent, MessageContentV, ContentPart, ContentPartV,
    Role, Usage, FinishReason, StreamChunk, ChunkV, spec_empty_chunk, ChunkKind,
    ToolCallDelta, ToolDeltaV, ToolCall, ToolCallV, FunctionCall, FunctionCallV, Tool, ToolV,
    CompletionResult, CompletionResultV, msgs_view, tool_calls_view};

verus! {

use vstd::string::StringExecFns;

/// The wire name of a role in OpenAI-shaped messages.
pub open spec fn spec_role_str(r: Role) -> Seq<char> {
    match r {
        Role::System => "system"@,
        Role::User => "user"@,
        Role::Assistant => "assistant"@,
        Role::Tool => "tool"@,
    }
}

pub fn role_str(r: Role) -> (s: &'static str)
    ensures
        s@ == spec_role_str(r),
{
    match r {
        Role::System => "system",
        Role::User => "user",
        Role::Assistant => "assistant",
        Role::Tool => "tool",
    }
}

/// OpenAI-shaped encoding of one content part.
pub open spec fn spec_part_json(p: ContentPartV) -> JsonV {
    match p {
        ContentPartV::Text { text } => JsonV::Obj(
            seq![("type"@, JsonV::Str("text"@)), ("text"@, JsonV::Str(text))],
        ),
        ContentPartV::ImageUrl { image_url } => JsonV::Obj(
            seq![
                ("type"@, JsonV::Str("image_url"@)),
                (
                    "image_url"@,
                    JsonV::Obj(
                        seq![("url"@, JsonV::Str(image_url.url))] + (match image_url.detail {
                            Some(d) => seq![("detail"@, JsonV::Str(d))],
                            None => Seq::empty(),
                        }),
                    ),
                ),
            ],
        ),
    }
}

pub open spec fn spec_parts_json(parts: Seq<ContentPartV>) -> Seq<JsonV> {
    Seq::new(
        parts.len(),
        |i: int|
            if 0 <= i < parts.len() {
                spec_part_json(parts[i])
            } else {
                JsonV::Null
            },
    )
}

/// OpenAI-shaped encoding of message content: plain text stays a string,
/// parts become an array of typed blocks.
pub open spec fn spec_content_json(c: MessageContentV) -> JsonV {
    match c {
        MessageContentV::Text(s) => JsonV::Str(s),
        MessageContentV::Parts(parts) => JsonV::Arr(spec_parts_json(parts)),
    }
}

/// OpenAI-shaped encoding of a tool call attached to an assistant message.
pub open spec fn spec_tool_call_json(c: ToolCallV) -> JsonV {
    JsonV::Obj(
        seq![
            ("id"@, JsonV::Str(c.id)),
            ("type"@, JsonV::Str(c.tool_type)),
            (
                "function"@,
                JsonV::Obj(
                    seq![
                        ("name"@, JsonV::Str(c.function.name)),
                        ("arguments"@, JsonV::Str(c.function.arguments)),
                    ],
                ),
            ),
        ],
    )
}

pub open spec fn spec_tool_calls_json(calls: Seq<ToolCallV>) -> Seq<JsonV> {
    Seq::new(
        calls.len(),
        |i: int|
            if 0 <= i < calls.len() {
                spec_tool_call_json(calls[i])
            } else {
                JsonV::Null
            },
    )
}

/// OpenAI-shaped encoding of one message: role and content, then the
/// optional name, tool call id and tool calls, in that order.
pub open spec fn spec_chat_message(m: MessageV) -> JsonV {
    JsonV::Obj(
        seq![("role"@, JsonV::Str(spec_role_str(m.role))), ("content"@, spec_content_json(m.content))]
            + (match m.name {
            Some(n) => seq![("name"@, JsonV::Str(n))],
            None => Seq::empty(),
        }) + (match m.tool_call_id {
            Some(t) => seq![("tool_call_id"@, JsonV::Str(t))],
            None => Seq::empty(),
        }) + (match m.tool_calls {
            Some(calls) => seq![("tool_calls"@, JsonV::Arr(spec_tool_calls_json(calls)))],
            None => Seq::empty(),
        }),
    )
}

pub open spec fn spec_chat_messages(msgs: Seq<MessageV>) -> Seq<JsonV> {
    Seq::new(
        msgs.len(),
        |i: int|
            if 0 <= i < msgs.len() {
                spec_chat_message(msgs[i])
            } else {
                JsonV::Null
            },
    )
}

/// Build the JSON for one content part.
pub fn part_json(p: &ContentPart) -> (r: JsonValue)
    ensures
        r@ == spec_part_json(p@),
{
    match p {
        ContentPart::Text { text } => {
            let mut fields: Vec<(String, JsonValue)> = Vec::new();
            fields.push(("type".to_owned(), JsonValue::string("text")));
            fields.push(("text".to_owned(), JsonValue::Str(text.clone())));
            let ghost fv = fields_view(fields@);
            let r = JsonValue::Obj(fields);
            proof {
                broadcast use crate::json::lemma_jv_view_obj;

                assert(fv =~= spec_part_json(p@)->Obj_0);
            }
            r
        },
        ContentPart::ImageUrl { image_url } => {
            let mut inner: Vec<(String, JsonValue)> = Vec::new();
            inner.push(("url".to_owned(), JsonValue::Str(image_url.url.clone())));
            if let Some(d) = &image_url.detail {
                inner.push(("detail".to_owned(), JsonValue::Str(d.clone())));
            }
            let ghost iv = fields_view(inner@);
            let mut fields: Vec<(String, JsonValue)> = Vec::new();
            fields.push(("type".to_owned(), JsonValue::string("image_url")));
            fields.push(("image_url".to_owned(), JsonValue::Obj(inner)));
            let ghost fv = fields_view(fields@);
            let r = JsonValue::Obj(fields);
            proof {
                broadcast use crate::json::lemma_jv_view_obj;

                assert(iv =~= seq![("url"@, JsonV::Str(image_url.url@))] + (
                match image_url@.detail {
                    Some(d) => seq![("detail"@, JsonV::Str(d))],
                    None => Seq::<(Seq<char>, JsonV)>::empty(),
                }));
                assert(fv =~= spec_part_json(p@)->Obj_0);
            }
            r
        },
    }
}

/// Build the JSON for message content.
#[verifier::loop_isolation(false)]
pub fn content_json(c: &MessageContent) -> (r: JsonValue)
    ensures
        r@ == spec_content_json(c@),
{
    match c {
        MessageContent::Text(s) => JsonValue::Str(s.clone()),
        MessageContent::Parts(parts) => {
            let mut out: Vec<JsonValue> = Vec::new();
            let ghost pv = crate::types::parts_view(parts@);
            let mut i: usize = 0;
            while i < parts.len()
                invariant
                    0 <= i <= parts.len(),
                    pv == crate::types::parts_view(parts@),
                    items_view(out@) == spec_parts_json(pv).take(i as int),
                decreases parts.len() - i,
            {
                out.push(part_json(&parts[i]));
                proof {
                    assert(items_view(out@) =~= spec_parts_json(pv).take(i + 1));
                }
                i = i + 1;
            }
            let ghost ov = items_view(out@);
            let r = JsonValue::Arr(out);
            proof {
                broadcast use crate::json::lemma_jv_view_arr;

                assert(ov =~= spec_parts_json(pv));
            }
            r
        },
    }
}

/// Build the JSON for one attached tool call.
pub fn tool_call_json(c: &ToolCall) -> (r: JsonValue)
    ensures
        r@ == spec_tool_call_json(c@),
{
    let mut inner: Vec<(String, JsonValue)> = Vec::new();
    inner.push(("name".to_owned(), JsonValue::Str(c.function.name.clone())));
    inner.push(("arguments".to_owned(), JsonValue::Str(c.function.arguments.clone())));
    let ghost iv = fields_view(inner@);
    let mut fields: Vec<(String, JsonValue)> = Vec::new();
    fields.push(("id".to_owned(), JsonValue::Str(c.id.clone())));
    fields.push(("type".to_owned(), JsonValue::Str(c.tool_type.clone())));
    fields.push(("function".to_owned(), JsonValue::Obj(inner)));
    let ghost fv = fields_view(fields@);
    let r = JsonValue::Obj(fields);
    proof {
        broadcast use crate::json::lemma_jv_view_obj;

        assert(iv =~= spec_tool_call_json(c@)->Obj_0[2].1->Obj_0);
        assert(fv =~= spec_tool_call_json(c@)->Obj_0);
    }
    r
}

/// Build the JSON for one message in the OpenAI chat shape.
#[verifier::loop_isolation(false)]
pub fn chat_message_json(m: &Message) -> (r: JsonValue)
    ensures
        r@ == spec_chat_message(m@),
{
    let mut fields: Vec<(String, JsonValue)> = Vec::new();
    fields.push(("role".to_owned(), JsonValue::string(role_str(m.role))));
    fields.push(("content".to_owned(), content_json(&m.content)));
    if let Some(n) = &m.name {
        fields.push(("name".to_owned(), JsonValue::Str(n.clone())));
    }
    if let Some(t) = &m.tool_call_id {
        fields.push(("tool_call_id".to_owned(), JsonValue::Str(t.clone())));
    }
    if let Some(calls) = &m.tool_calls {
        let mut out: Vec<JsonValue> = Vec::new();
        let ghost cv = tool_calls_view(calls@);
        let mut i: usize = 0;
        while i < calls.len()
            invariant
                0 <= i <= calls.len(),
                cv == tool_calls_view(calls@),
                items_view(out@) == spec_tool_calls_json(cv).take(i as int),
            decreases calls.len() - i,
        {
            out.push(tool_call_json(&calls[i]));
            proof {
                assert(items_view(out@) =~= spec_tool_calls_json(cv).take(i + 1));
            }
            i = i + 1;
        }
        let ghost ov = items_view(out@);
        proof {
            assert(ov =~= spec_tool_calls_json(cv));
        }
        fields.push(("tool_calls".to_owned(), JsonValue::Arr(out)));
    }
    let ghost fv = fields_view(fields@);
    let r = JsonValue::Obj(fields);
    proof {
        broadcast use crate::json::lemma_jv_view_arr;
        broadcast use crate::json::lemma_jv_view_obj;

        assert(fv =~= spec_chat_message(m@)->Obj_0);
    }
    r
}

/// Build the JSON array of messages.
#[verifier::loop_isolation(false)]
pub fn chat_messages_json(messages: &[Message]) -> (r: Vec<JsonValue>)
    ensures
        items_view(r@) == spec_chat_messages(msgs_view(messages@)),
{
    let mut out: Vec<JsonValue> = Vec::new();
    let ghost mv = msgs_view(messages@);
    let mut i: usize = 0;
    while i < messages.len()
        invariant
            0 <= i <= messages@.len(),
            mv == msgs_view(messages@),
            items_view(out@) == spec_chat_messages(mv).take(i as int),
        decreases messages@.len() - i,
    {
        out.push(chat_message_json(&messages[i]));
        proof {
            assert(items_view(out@) =~= spec_chat_messages(mv).take(i + 1));
        }
        i = i + 1;
    }
    proof {
        assert(items_view(out@) =~= spec_chat_messages(mv));
    }
    out
}

/// Encoding of the stop list.
pub open spec fn spec_stops_json(stop: Seq<Seq<char>>) -> Seq<JsonV> {
    Seq::new(
        stop.len(),
        |i: int|
            if 0 <= i < stop.len() {
                JsonV::Str(stop[i])
            } else {
                JsonV::Null
            },
    )
}

/// OpenAI-shaped encoding of one tool definition.
pub open spec fn spec_tool_json(t: ToolV) -> JsonV {
    JsonV::Obj(
        seq![
            ("type"@, JsonV::Str(t.tool_type)),
            (
                "function"@,
                JsonV::Obj(
                    seq![("name"@, JsonV::Str(t.function.name))] + (match t.function.description {
                        Some(d) => seq![("description"@, JsonV::Str(d))],
                        None => Seq::empty(),
                    }) + (match t.function.parameters {
                        Some(p) => seq![("parameters"@, p)],
                        None => Seq::empty(),
                    }),
                ),
            ),
        ],
    )
}

pub open spec fn spec_tools_json(tools: Seq<ToolV>) -> Seq<JsonV> {
    Seq::new(
        tools.len(),
        |i: int|
            if 0 <= i < tools.len() {
                spec_tool_json(tools[i])
            } else {
                JsonV::Null
            },
    )
}

/// Build the JSON for one tool definition in the OpenAI shape.
pub fn tool_json(t: &Tool) -> (r: JsonValue)
    ensures
        r@ == spec_tool_json(t@),
{
    let mut inner: Vec<(String, JsonValue)> = Vec::new();
    inner.push(("name".to_owned(), JsonValue::Str(t.function.name.clone())));
    if let Some(d) = &t.function.description {
        inner.push(("description".to_owned(), JsonValue::Str(d.clone())));
    }
    if let Some(p) = &t.function.parameters {
        inner.push(("parameters".to_owned(), p.clone_value()));
    }
    let ghost iv = fields_view(inner@);
    let mut fields: Vec<(String, JsonValue)> = Vec::new();
    fields.push(("type".to_owned(), JsonValue::Str(t.tool_type.clone())));
    fields.push(("function".to_owned(), JsonValue::Obj(inner)));
    let ghost fv = fields_view(fields@);
    let r = JsonValue::Obj(fields);
    proof {
        broadcast use crate::json::lemma_jv_view_obj;

        assert(iv =~= spec_tool_json(t@)->Obj_0[1].1->Obj_0);
        assert(fv =~= spec_tool_json(t@)->Obj_0);
    }
    r
}

/// Build the JSON array of tool definitions, in the OpenAI shape.
#[verifier::loop_isolation(false)]
pub fn tools_json(tools: &Vec<Tool>) -> (r: Vec<JsonValue>)
    ensures
        items_view(r@) == spec_tools_json(crate::types::tools_view(tools@)),
{
    let mut out: Vec<JsonValue> = Vec::new();
    let ghost tv = crate::types::tools_view(tools@);
    let mut i: usize = 0;
    while i < tools.len()
        invariant
            0 <= i <= tools@.len(),
            tv == crate::types::tools_view(tools@),
            items_view(out@) == spec_tools_json(tv).take(i as int),
        decreases tools@.len() - i,
    {
        out.push(tool_json(&tools[i]));
        proof {
            assert(items_view(out@) =~= spec_tools_json(tv).take(i + 1));
        }
        i = i + 1;
    }
    proof {
        assert(items_view(out@) =~= spec_tools_json(tv));
    }
    out
}

/// The base body fields shared by streaming and terminal requests: model and
/// messages, then each configured option, then the extra fields merged in.
pub open spec fn spec_base_fields(
    model: Seq<char>,
    msgs: Seq<MessageV>,
    cfg: RequestConfigV,
) -> Seq<(Seq<char>, JsonV)> {
    let base = seq![("model"@, JsonV::Str(model)), ("messages"@, JsonV::Arr(spec_chat_messages(msgs)))]
        + (match cfg.max_tokens {
        Some(n) => seq![("max_tokens"@, JsonV::Num(spec_u64_dec(n as nat)))],
        None => Seq::empty(),
    }) + (match cfg.temperature_milli {
        Some(t) => seq![("temperature"@, JsonV::Num(spec_milli_dec(t as nat)))],
        None => Seq::empty(),
    }) + (match cfg.top_p_milli {
        Some(t) => seq![("top_p"@, JsonV::Num(spec_milli_dec(t as nat)))],
        None => Seq::empty(),
    }) + (match cfg.stop {
        Some(stop) => seq![("stop"@, JsonV::Arr(spec_stops_json(stop)))],
        None => Seq::empty(),
    }) + (match cfg.tools {
        Some(tools) => seq![("tools"@, JsonV::Arr(spec_tools_json(tools)))],
        None => Seq::empty(),
    }) + (match cfg.tool_choice {
        Some(c) => seq![("tool_choice"@, spec_tool_choice_value(c))],
        None => Seq::empty(),
    });
    match cfg.extra {
        Some(e) => fold_obj_set(base, e),
        None => base,
    }
}

/// The streaming body: the base fields with `stream` set and usage reporting
/// requested.
pub open spec fn spec_stream_body(model: Seq<char>, msgs: Seq<MessageV>, cfg: RequestConfigV) -> JsonV {
    JsonV::Obj(
        crate::json::spec_obj_set(
            crate::json::spec_obj_set(
                spec_base_fields(model, msgs, cfg),
                "stream"@,
                JsonV::Bool(true),
            ),
            "stream_options"@,
            JsonV::Obj(seq![("include_usage"@, JsonV::Bool(true))]),
        ),
    )
}

/// The terminal body: the base fields with `stream` set to false.
pub open spec fn spec_complete_body(
    model: Seq<char>,
    msgs: Seq<MessageV>,
    cfg: RequestConfigV,
) -> JsonV {
    JsonV::Obj(
        crate::json::spec_obj_set(spec_base_fields(model, msgs, cfg), "stream"@, JsonV::Bool(false)),
    )
}

/// Build the base body fields.
pub fn base_fields(model: &str, messages: &[Message], config: &RequestConfig) -> (r: Vec<
    (String, JsonValue),
>)
    ensures
        fields_view(r@) == spec_base_fields(model@, msgs_view(messages@), config@),
{
    let mut fields: Vec<(String, JsonValue)> = Vec::new();
    fields.push(("model".to_owned(), JsonValue::string(model)));
    fields.push(("messages".to_owned(), JsonValue::Arr(chat_messages_json(messages))));
    if let Some(n) = config.max_tokens {
        fields.push(("max_tokens".to_owned(), JsonValue::from_u64(n as u64)));
    }
    if let Some(t) = config.temperature_milli {
        fields.push(("temperature".to_owned(), JsonValue::from_milli(t)));
    }
    if let Some(t) = config.top_p_milli {
        fields.push(("top_p".to_owned(), JsonValue::from_milli(t)));
    }
    if let Some(stop) = &config.stop {
        let mut out: Vec<JsonValue> = Vec::new();
        let ghost sv = crate::providers::stops_view(stop@);
        let mut i: usize = 0;
        #[verifier::loop_isolation(false)]
        while i < stop.len()
            invariant
                0 <= i <= stop@.len(),
                sv == crate::providers::stops_view(stop@),
                items_view(out@) == spec_stops_json(sv).take(i as int),
            decreases stop@.len() - i,
        {
            out.push(JsonValue::Str(stop[i].clone()));
            proof {
                assert(items_view(out@) =~= spec_stops_json(sv).take(i + 1));
            }
            i = i + 1;
        }
        proof {
            assert(items_view(out@) =~= spec_stops_json(sv));
        }
        fields.push(("stop".to_owned(), JsonValue::Arr(out)));
    }
    if let Some(tools) = &config.tools {
        fields.push(("tools".to_owned(), JsonValue::Arr(tools_json(tools))));
    }
    if let Some(choice) = &config.tool_choice {
        fields.push(("tool_choice".to_owned(), choice.to_value()));
    }
    let ghost before_extra = fields_view(fields@);
    proof {
        broadcast use crate::json::lemma_jv_view_arr;

        assert(before_extra =~= seq![
            ("model"@, JsonV::Str(model@)),
            ("messages"@, JsonV::Arr(spec_chat_messages(msgs_view(messages@)))),
        ] + (match config@.max_tokens {
            Some(n) => seq![("max_tokens"@, JsonV::Num(spec_u64_dec(n as nat)))],
            None => Seq::<(Seq<char>, JsonV)>::empty(),
        }) + (match config@.temperature_milli {
            Some(t) => seq![("temperature"@, JsonV::Num(spec_milli_dec(t as nat)))],
            None => Seq::<(Seq<char>, JsonV)>::empty(),
        }) + (match config@.top_p_milli {
            Some(t) => seq![("top_p"@, JsonV::Num(spec_milli_dec(t as nat)))],
            None => Seq::<(Seq<char>, JsonV)>::empty(),
        }) + (match config@.stop {
            Some(stop) => seq![("stop"@, JsonV::Arr(spec_stops_json(stop)))],
            None => Seq::<(Seq<char>, JsonV)>::empty(),
        }) + (match config@.tools {
            Some(tools) => seq![("tools"@, JsonV::Arr(spec_tools_json(tools)))],
            None => Seq::<(Seq<char>, JsonV)>::empty(),
        }) + (match config@.tool_choice {
            Some(c) => seq![("tool_choice"@, spec_tool_choice_value(c))],
            None => Seq::<(Seq<char>, JsonV)>::empty(),
        }));
    }
    merge_extra(&mut fields, &config.extra);
    fields
}

/// Cerebras API provider.
pub struct CerebrasProvider {
    pub base_url: String,
}

impl CerebrasProvider {
    /// The provider with its production endpoint.
    pub fn new() -> (r: Self)
        ensures
            r.base_url@ == "https://api.cerebras.ai/v1"@,
    {
        CerebrasProvider { base_url: "https://api.cerebras.ai/v1".to_owned() }
    }

    /// The provider pointed at another base URL.
    pub fn with_base_url(base_url: &str) -> (r: Self)
        ensures
            r.base_url@ == base_url@,
    {
        CerebrasProvider { base_url: base_url.to_owned() }
    }

    /// The provider's name.
    pub fn name(&self) -> (r: &'static str)
        ensures
            r@ == "cerebras"@,
    {
        "cerebras"
    }

    /// The base URL requests go to.
    pub fn base_url(&self) -> (r: &str)
        ensures
            r@ == self.base_url@,
    {
        self.base_url.as_str()
    }

    /// The path under the base URL.
    pub fn chat_endpoint(&self) -> (r: &'static str)
        ensures
            r@ == "/chat/completions"@,
    {
        "/chat/completions"
    }

    /// Request headers: JSON content type and bearer authorization.
    pub fn headers(&self, api_key: &str) -> (r: Vec<(String, String)>)
        ensures
            fields_header_view(r@) == seq![
                ("content-type"@, "application/json"@),
                ("authorization"@, "Bearer "@ + api_key@),
            ],
    {
        let mut out: Vec<(String, String)> = Vec::new();
        out.push(("content-type".to_owned(), "application/json".to_owned()));
        out.push(("authorization".to_owned(), "Bearer ".to_owned().concat(api_key)));
        proof {
            assert(fields_header_view(out@) =~= seq![
                ("content-type"@, "application/json"@),
                ("authorization"@, "Bearer "@ + api_key@),
            ]);
        }
        out
    }

    /// The URL for streaming requests.
    pub fn stream_url(&self, _model: &str, _api_key: &str) -> (r: String)
        ensures
            r@ == self.base_url@ + "/chat/completions"@,
    {
        self.base_url.clone().concat("/chat/completions")
    }

    /// The URL for terminal requests.
    pub fn complete_url(&self, _model: &str, _api_key: &str) -> (r: String)
        ensures
            r@ == self.base_url@ + "/chat/completions"@,
    {
        self.base_url.clone().concat("/chat/completions")
    }

    /// Build the body for a streaming completion.
    pub fn build_stream_body(&self, model: &str, messages: &[Message], config: &RequestConfig) -> (r:
        Result<JsonValue, Error>)
        ensures
            r matches Ok(b) && b@ == spec_stream_body(model@, msgs_view(messages@), config@),
    {
        let mut fields = base_fields(model, messages, config);
        crate::json::obj_set(&mut fields, "stream".to_owned(), JsonValue::Bool(true));
        let mut opts: Vec<(String, JsonValue)> = Vec::new();
        opts.push(("include_usage".to_owned(), JsonValue::Bool(true)));
        let ghost ov = fields_view(opts@);
        crate::json::obj_set(&mut fields, "stream_options".to_owned(), JsonValue::Obj(opts));
        let ghost fv = fields_view(fields@);
        let r = JsonValue::Obj(fields);
        proof {
            broadcast use crate::json::lemma_jv_view_obj;

            assert(ov =~= seq![("include_usage"@, JsonV::Bool(true))]);
            assert(r@ == spec_stream_body(model@, msgs_view(messages@), config@));
        }
        Ok(r)
    }

    /// Build the body for a terminal completion.
    pub fn build_complete_body(&self, model: &str, messages: &[Message], config: &RequestConfig) -> (
        r: Result<JsonValue, Error>)
        ensures
            r matches Ok(b) && b@ == spec_complete_body(model@, msgs_view(messages@), config@),
    {
        let mut fields = base_fields(model, messages, config);
        crate::json::obj_set(&mut fields, "stream".to_owned(), JsonValue::Bool(false));
        let ghost fv = fields_view(fields@);
        let r = JsonValue::Obj(fields);
        proof {
            broadcast use crate::json::lemma_jv_view_obj;

            assert(r@ == spec_complete_body(model@, msgs_view(messages@), config@));
        }
        Ok(r)
    }

    /// Create the event decoder for this provider's stream; it carries no
    /// state.
    pub fn create_parser(&self) -> (r: CerebrasParser) {
        CerebrasParser::new()
    }

    /// Parse a terminal (non-streaming) response body.
    pub fn parse_response(&self, body: &str) -> (r: Result<CompletionResult, Error>)
        ensures
            cerebras_response_matches(body@, r),
    {
        let v = match parse_json(body) {
            Some(v) => v,
            None => {
                return Err(Error::parse("invalid JSON".to_owned()));
            },
        };
        decode_response(&v)
    }
}

/// View of a header list.
pub open spec fn fields_header_view(hs: Seq<(String, String)>) -> Seq<(Seq<char>, Seq<char>)> {
    Seq::new(
        hs.len(),
        |i: int|
            if 0 <= i < hs.len() {
                (hs[i].0@, hs[i].1@)
            } else {
                (Seq::empty(), Seq::empty())
            },
    )
}

/// Mapping of a vendor finish-reason string onto the neutral vocabulary.
pub open spec fn spec_finish_reason(reason: Option<Seq<char>>) -> FinishReason {
    match reason {
        Some(s) => if s == "stop"@ {
            FinishReason::Stop
        } else if s == "length"@ {
            FinishReason::Length
        } else if s == "tool_calls"@ {
            FinishReason::ToolCalls
        } else if s == "content_filter"@ {
            FinishReason::ContentFilter
        } else {
            FinishReason::Unknown
        },
        None => FinishReason::Unknown,
    }
}

/// Parse a finish reason string to the neutral vocabulary; anything
/// unrecognized, absence included, is `Unknown`.
pub fn parse_finish_reason(reason: Option<&str>) -> (r: FinishReason)
    ensures
        r == spec_finish_reason(match reason {
            Some(s) => Some(s@),
            None => None,
        }),
{
    match reason {
        Some(s) => {
            if str_eq(s, "stop") {
                FinishReason::Stop
            } else if str_eq(s, "length") {
                FinishReason::Length
            } else if str_eq(s, "tool_calls") {
                FinishReason::ToolCalls
            } else if str_eq(s, "content_filter") {
                FinishReason::ContentFilter
            } else {
                FinishReason::Unknown
            }
        },
        None => FinishReason::Unknown,
    }
}

/// The usage object of this protocol: required prompt and completion token
/// counts.
pub open spec fn spec_usage(j: JsonV) -> Result<Usage, ()> {
    match (field_req_u32(j, "prompt_tokens"@), field_req_u32(j, "completion_tokens"@)) {
        (Ok(p), Ok(c)) => Ok(
            Usage {
                input_tokens: p,
                output_tokens: c,
                cache_read_input_tokens: 0,
                cache_creation_input_tokens: 0,
            },
        ),
        _ => Err(()),
    }
}

fn decode_usage(v: &JsonValue) -> (r: Result<Usage, ()>)
    ensures
        match r {
            Ok(u) => spec_usage(v@) == Ok::<Usage, ()>(u),
            Err(_) => spec_usage(v@) is Err,
        },
{
    let p = match get_req_u32(v, "prompt_tokens") {
        Ok(p) => p,
        Err(_) => {
            return Err(());
        },
    };
    let c = match get_req_u32(v, "completion_tokens") {
        Ok(c) => c,
        Err(_) => {
            return Err(());
        },
    };
    Ok(Usage { input_tokens: p, output_tokens: c, cache_read_input_tokens: 0,
        cache_creation_input_tokens: 0 })
}

/// The decoded form of one streamed event of this protocol. An event with no
/// choices carries only usage; otherwise the first choice's delta yields
/// text, a tool-call delta or nothing, with the finish reason and any usage
/// attached.
pub open spec fn spec_decode_chunk(j: JsonV) -> Result<Option<ChunkV>, ErrorV> {
    let schema_err = ErrorV::Parse("unexpected schema"@);
    match field_req_arr(j, "choices"@) {
        Err(_) => Err(schema_err),
        Ok(choices) => if choices.len() == 0 {
            match crate::json::spec_get(j, "usage"@) {
                Some(u) => match spec_usage(u) {
                    Ok(usage) => Ok(
                        Some(
                            ChunkV {
                                usage: Some(usage),
                                ..spec_empty_chunk(ChunkKind::UsageOnly)
                            },
                        ),
                    ),
                    Err(_) => Err(schema_err),
                },
                None => Ok(None),
            }
        } else {
            let choice = choices[0];
            match field_req_obj(choice, "delta"@) {
                Err(_) => Err(schema_err),
                Ok(delta) => match (
                    field_opt_str(delta, "content"@),
                    field_opt_arr(delta, "tool_calls"@),
                    field_opt_str(choice, "finish_reason"@),
                ) {
                    (Ok(content), Ok(tool_calls), Ok(finish)) => {
                        let base = match content {
                            Some(text) => (ChunkV {
                                kind: ChunkKind::Text,
                                text: text,
                                ..spec_empty_chunk(ChunkKind::Text)
                            }),
                            None => if tool_calls is Some {
                                spec_empty_chunk(ChunkKind::ToolDelta)
                            } else {
                                spec_empty_chunk(ChunkKind::Unknown)
                            },
                        };
                        let with_tool = match tool_calls {
                            Some(tcs) => if tcs.len() == 0 {
                                Ok(base)
                            } else {
                                match spec_tool_delta(tcs[0]) {
                                    Ok(d) => Ok(
                                        ChunkV {
                                            kind: ChunkKind::ToolDelta,
                                            tool_call_delta: Some(d),
                                            ..base
                                        },
                                    ),
                                    Err(_) => Err(schema_err),
                                }
                            },
                            None => Ok(base),
                        };
                        match with_tool {
                            Err(e) => Err(e),
                            Ok(ch) => {
                                let with_finish = match finish {
                                    Some(reason) => (ChunkV {
                                        finish_reason: Some(spec_finish_reason(Some(reason))),
                                        ..ch
                                    }),
                                    None => ch,
                                };
                                match crate::json::spec_get(j, "usage"@) {
                                    Some(u) => match spec_usage(u) {
                                        Ok(usage) => Ok(
                                            Some(ChunkV { usage: Some(usage), ..with_finish }),
                                        ),
                                        Err(_) => Err(schema_err),
                                    },
                                    None => Ok(Some(with_finish)),
                                }
                            },
                        }
                    },
                    _ => Err(schema_err),
                },
            }
        },
    }
}

/// The tool-call delta of one entry: a required index, then optional id,
/// name and argument fragment.
pub open spec fn spec_tool_delta(j: JsonV) -> Result<ToolDeltaV, ()> {
    match field_opt_u32(j, "index"@) {
        Ok(Some(idx)) => {
            let f = crate::json::spec_get(j, "function"@);
            match (
                field_opt_str(j, "id"@),
                match f {
                    None => Ok((None, None)),
                    Some(fo) => match (
                        field_opt_str(fo, "name"@),
                        field_opt_str(fo, "arguments"@),
                    ) {
                        (Ok(n), Ok(a)) => Ok((n, a)),
                        _ => Err(()),
                    },
                },
            ) {
                (Ok(id), Ok((name, args))) => Ok(
                    ToolDeltaV {
                        index: idx as int,
                        id: id,
                        function_name: name,
                        function_arguments: args,
                    },
                ),
                _ => Err(()),
            }
        },
        _ => Err(()),
    }
}

fn decode_tool_delta(v: &JsonValue) -> (r: Result<ToolCallDelta, ()>)
    ensures
        match r {
            Ok(d) => spec_tool_delta(v@) == Ok::<ToolDeltaV, ()>(d@),
            Err(_) => spec_tool_delta(v@) is Err,
        },
{
    let idx = match get_opt_u32(v, "index") {
        Ok(Some(i)) => i,
        _ => {
            return Err(());
        },
    };
    let id: Option<String> = match get_opt_str(v, "id") {
        Ok(Some(s)) => Some(s.clone()),
        Ok(None) => None,
        Err(_) => {
            return Err(());
        },
    };
    let mut name: Option<String> = None;
    let mut args: Option<String> = None;
    match v.get("function") {
        None => {},
        Some(f) => {
            name = match get_opt_str(f, "name") {
                Ok(Some(s)) => Some(s.clone()),
                Ok(None) => None,
                Err(_) => {
                    return Err(());
                },
            };
            args = match get_opt_str(f, "arguments") {
                Ok(Some(s)) => Some(s.clone()),
                Ok(None) => None,
                Err(_) => {
                    return Err(());
                },
            };
        },
    }
    Ok(ToolCallDelta { index: idx as usize, id, function_name: name, function_arguments: args })
}

/// Streaming event decoder for this protocol. The protocol itself carries
/// no state between events.
pub struct CerebrasParser {
}

impl CerebrasParser {
    /// Create a decoder.
    pub fn new() -> (r: Self) {
        CerebrasParser {}
    }

    /// Whether a data payload ends the stream: exactly the `[DONE]`
    /// sentinel, and nothing else, not even a payload containing it.
    pub fn is_end_of_stream(&self, data: &str) -> (r: bool)
        ensures
            r == (data@ == "[DONE]"@),
    {
        str_eq(data, "[DONE]")
    }

    /// Decode one SSE data payload into at most one chunk.
    pub fn parse_chunk(&mut self, data: &str) -> (r: Result<Option<StreamChunk>, Error>)
        ensures
            cerebras_chunk_matches(data@, r),
    {
        let v = match parse_json(data) {
            Some(v) => v,
            None => {
                return Err(Error::parse("invalid JSON".to_owned()));
            },
        };
        let choices = match get_req_arr(&v, "choices") {
            Ok(c) => c,
            Err(_) => {
                return Err(Error::parse("unexpected schema".to_owned()));
            },
        };
        if choices.len() == 0 {
            match v.get("usage") {
                Some(u) => match decode_usage(u) {
                    Ok(usage) => {
                        return Ok(Some(StreamChunk::usage(usage)));
                    },
                    Err(_) => {
                        return Err(Error::parse("unexpected schema".to_owned()));
                    },
                },
                None => {
                    return Ok(None);
                },
            }
        }
        let choice = &choices[0];
        let delta = match get_req_obj(choice, "delta") {
            Ok(d) => d,
            Err(_) => {
                return Err(Error::parse("unexpected schema".to_owned()));
            },
        };
        let content: Option<String> = match get_opt_str(delta, "content") {
            Ok(Some(s)) => Some(s.clone()),
            Ok(None) => None,
            Err(_) => {
                return Err(Error::parse("unexpected schema".to_owned()));
            },
        };
        let tool_calls = match get_opt_arr(delta, "tool_calls") {
            Ok(t) => t,
            Err(_) => {
                return Err(Error::parse("unexpected schema".to_owned()));
            },
        };
        let mut chunk: StreamChunk = match content {
            Some(text) => StreamChunk::text_owned(text),
            None => if tool_calls.is_some() {
                StreamChunk::empty(ChunkKind::ToolDelta)
            } else {
                StreamChunk::empty(ChunkKind::Unknown)
            },
        };
        if let Some(tcs) = tool_calls {
            if tcs.len() > 0 {
                match decode_tool_delta(&tcs[0]) {
                    Ok(d) => {
                        chunk.tool_call_delta = Some(d);
                        chunk.kind = ChunkKind::ToolDelta;
                    },
                    Err(_) => {
                        return Err(Error::parse("unexpected schema".to_owned()));
                    },
                }
            }
        }
        match get_opt_str(choice, "finish_reason") {
            Ok(Some(reason)) => {
                chunk.finish_reason = Some(parse_finish_reason(Some(reason.as_str())));
            },
            Ok(None) => {},
            Err(_) => {
                return Err(Error::parse("unexpected schema".to_owned()));
            },
        }
        match v.get("usage") {
            Some(u) => match decode_usage(u) {
                Ok(usage) => {
                    chunk.usage = Some(usage);
                },
                Err(_) => {
                    return Err(Error::parse("unexpected schema".to_owned()));
                },
            },
            None => {},
        }
        Ok(Some(chunk))
    }
}

/// How a decoded result must relate to the payload text: parse failures are
/// parse errors, and otherwise the result is exactly the specified decode of
/// the parsed document.
pub open spec fn cerebras_chunk_matches(
    data: Seq<char>,
    r: Result<Option<StreamChunk>, Error>,
) -> bool {
    match spec_parse_json(data) {
        None => r matches Err(e) && e@ == ErrorV::Parse("invalid JSON"@),
        Some(j) => match spec_decode_chunk(j) {
            Ok(None) => r matches Ok(None),
            Ok(Some(cv)) => r matches Ok(Some(ch)) && ch@ == cv,
            Err(ev) => r matches Err(e) && e@ == ev,
        },
    }
}

/// The decoded form of a terminal response of this protocol.
pub open spec fn spec_decode_response(j: JsonV) -> Result<CompletionResultV, ErrorV> {
    let schema_err = ErrorV::Parse("unexpected schema"@);
    match (field_req_str(j, "model"@), field_req_arr(j, "choices"@), field_req_obj(j, "usage"@)) {
        (Ok(model), Ok(choices), Ok(uj)) => match spec_usage(uj) {
            Err(_) => Err(schema_err),
            Ok(usage) => if choices.len() == 0 {
                Err(ErrorV::Parse("no choices"@))
            } else {
                let choice = choices[0];
                match (field_req_obj(choice, "message"@), field_opt_str(choice, "finish_reason"@)) {
                    (Ok(message), Ok(finish)) => match (
                        field_opt_str(message, "content"@),
                        field_opt_arr(message, "tool_calls"@),
                    ) {
                        (Ok(content), Ok(tool_calls)) => {
                            let calls = match tool_calls {
                                Some(tcs) => spec_parse_tool_calls(tcs),
                                None => Ok(Seq::empty()),
                            };
                            match calls {
                                Err(_) => Err(schema_err),
                                Ok(cs) => Ok(
                                    CompletionResultV {
                                        content: match content {
                                            Some(c) => c,
                                            None => Seq::empty(),
                                        },
                                        usage: usage,
                                        model: model,
                                        finish_reason: spec_finish_reason(finish),
                                        tool_calls: cs,
                                    },
                                ),
                            }
                        },
                        _ => Err(schema_err),
                    },
                    _ => Err(schema_err),
                }
            },
        },
        _ => Err(schema_err),
    }
}

/// A fully-formed tool call: id, type, and a function with name and
/// arguments, all required.
pub open spec fn spec_parse_tool_call(j: JsonV) -> Result<ToolCallV, ()> {
    match (field_req_str(j, "id"@), field_req_str(j, "type"@), field_req_obj(j, "function"@)) {
        (Ok(id), Ok(ty), Ok(f)) => match (
            field_req_str(f, "name"@),
            field_req_str(f, "arguments"@),
        ) {
            (Ok(name), Ok(args)) => Ok(
                ToolCallV {
                    id: id,
                    tool_type: ty,
                    function: FunctionCallV { name: name, arguments: args },
                },
            ),
            _ => Err(()),
        },
        _ => Err(()),
    }
}

pub open spec fn spec_parse_tool_calls(items: Seq<JsonV>) -> Result<Seq<ToolCallV>, ()>
    decreases items.len(),
{
    if items.len() == 0 {
        Ok(Seq::empty())
    } else {
        match (spec_parse_tool_calls(items.drop_last()), spec_parse_tool_call(items.last())) {
            (Ok(init), Ok(last)) => Ok(init.push(last)),
            _ => Err(()),
        }
    }
}

fn parse_tool_call(v: &JsonValue) -> (r: Result<ToolCall, ()>)
    ensures
        match r {
            Ok(c) => spec_parse_tool_call(v@) == Ok::<ToolCallV, ()>(c@),
            Err(_) => spec_parse_tool_call(v@) is Err,
        },
{
    let id = match get_req_str(v, "id") {
        Ok(s) => s.clone(),
        Err(_) => {
            return Err(());
        },
    };
    let ty = match get_req_str(v, "type") {
        Ok(s) => s.clone(),
        Err(_) => {
            return Err(());
        },
    };
    let f = match get_req_obj(v, "function") {
        Ok(f) => f,
        Err(_) => {
            return Err(());
        },
    };
    let name = match get_req_str(f, "name") {
        Ok(s) => s.clone(),
        Err(_) => {
            return Err(());
        },
    };
    let args = match get_req_str(f, "arguments") {
        Ok(s) => s.clone(),
        Err(_) => {
            return Err(());
        },
    };
    Ok(ToolCall { id, tool_type: ty, function: FunctionCall { name, arguments: args } })
}

#[verifier::loop_isolation(false)]
fn parse_tool_calls(items: &Vec<JsonValue>) -> (r: Result<Vec<ToolCall>, ()>)
    ensures
        match r {
            Ok(cs) => spec_parse_tool_calls(items_view(items@)) == Ok::<Seq<ToolCallV>, ()>(
                tool_calls_view(cs@),
            ),
            Err(_) => spec_parse_tool_calls(items_view(items@)) is Err,
        },
{
    let ghost iv = items_view(items@);
    let mut out: Vec<ToolCall> = Vec::new();
    proof {
        assert(iv.take(0) =~= Seq::<JsonV>::empty());
        assert(tool_calls_view(out@) =~= Seq::<ToolCallV>::empty());
    }
    let mut i: usize = 0;
    while i < items.len()
        invariant
            0 <= i <= items@.len(),
            iv == items_view(items@),
            spec_parse_tool_calls(iv.take(i as int)) == Ok::<Seq<ToolCallV>, ()>(
                tool_calls_view(out@),
            ),
        decreases items@.len() - i,
    {
        proof {
            assert(iv.take(i + 1).drop_last() =~= iv.take(i as int));
        }
        match parse_tool_call(&items[i]) {
            Ok(c) => {
                out.push(c);
                proof {
                    assert(tool_calls_view(out@) =~= spec_parse_tool_calls(
                        iv.take(i + 1),
                    )->Ok_0);
                }
            },
            Err(_) => {
                proof {
                    lemma_parse_tool_calls_err(iv, i as int);
                }
                return Err(());
            },
        }
        i = i + 1;
    }
    proof {
        assert(iv.take(items@.len() as int) =~= iv);
    }
    Ok(out)
}

proof fn lemma_parse_tool_calls_err(items: Seq<JsonV>, k: int)
    requires
        0 <= k < items.len(),
        spec_parse_tool_call(items[k]) is Err,
    ensures
        spec_parse_tool_calls(items) is Err,
    decreases items.len(),
{
    if items.len() > 0 {
        if k < items.len() - 1 {
            lemma_parse_tool_calls_err(items.drop_last(), k);
        }
    }
}

fn decode_response(v: &JsonValue) -> (r: Result<CompletionResult, Error>)
    ensures
        match spec_decode_response(v@) {
            Ok(cv) => r matches Ok(c) && c@ == cv,
            Err(ev) => r matches Err(e) && e@ == ev,
        },
{
    let model = match get_req_str(v, "model") {
        Ok(s) => s.clone(),
        Err(_) => {
            return Err(Error::parse("unexpected schema".to_owned()));
        },
    };
    let choices = match get_req_arr(v, "choices") {
        Ok(c) => c,
        Err(_) => {
            return Err(Error::parse("unexpected schema".to_owned()));
        },
    };
    let uj = match get_req_obj(v, "usage") {
        Ok(u) => u,
        Err(_) => {
            return Err(Error::parse("unexpected schema".to_owned()));
        },
    };
    let usage = match decode_usage(uj) {
        Ok(u) => u,
        Err(_) => {
            return Err(Error::parse("unexpected schema".to_owned()));
        },
    };
    if choices.len() == 0 {
        return Err(Error::parse("no choices".to_owned()));
    }
    let choice = &choices[0];
    let message = match get_req_obj(choice, "message") {
        Ok(m) => m,
        Err(_) => {
            return Err(Error::parse("unexpected schema".to_owned()));
        },
    };
    let finish = match get_opt_str(choice, "finish_reason") {
        Ok(f) => f,
        Err(_) => {
            return Err(Error::parse("unexpected schema".to_owned()));
        },
    };
    let finish_reason = parse_finish_reason(match &finish {
        Some(s) => Some(s.as_str()),
        None => None,
    });
    let content: String = match get_opt_str(message, "content") {
        Ok(Some(s)) => s.clone(),
        Ok(None) => String::new(),
        Err(_) => {
            return Err(Error::parse("unexpected schema".to_owned()));
        },
    };
    let tool_calls: Vec<ToolCall> = match get_opt_arr(message, "tool_calls") {
        Ok(Some(tcs)) => match parse_tool_calls(tcs) {
            Ok(cs) => cs,
            Err(_) => {
                return Err(Error::parse("unexpected schema".to_owned()));
            },
        },
        Ok(None) => Vec::new(),
        Err(_) => {
            return Err(Error::parse("unexpected schema".to_owned()));
        },
    };
    proof {
        assert(tool_calls_view(Seq::<ToolCall>::empty()) =~= Seq::<ToolCallV>::empty());
    }
    Ok(CompletionResult { content, usage, model, finish_reason, tool_calls })
}

/// How a parsed terminal response must relate to the body text.
pub open spec fn cerebras_response_matches(
    body: Seq<char>,
    r: Result<CompletionResult, Error>,
) -> bool {
    match spec_parse_json(body) {
        None => r matches Err(e) && e@ == ErrorV::Parse("invalid JSON"@),
        Some(j) => match spec_decode_response(j) {
            Ok(cv) => r matches Ok(c) && c@ == cv,
            Err(ev) => r matches Err(e) && e@ == ev,
        },
    }
}

} // verus!
