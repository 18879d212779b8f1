//! OpenAI Responses API adapter: instructions extracted from the system
//! message, an `input` array, and named streaming events.

use vstd::prelude::*;

use crate::error::{Error, ErrorV};
use crate::json::{JsonValue, JsonV, fields_view, items_view, parse_json, spec_parse_json,
    spec_u64_dec, spec_milli_dec, str_eq, spec_get};
use crate::providers::{RequestConfig, RequestConfigV, ToolChoice, ToolChoiceV, fold_obj_set,
    merge_extra, field_req_u32, get_req_u32, field_opt_u32, get_opt_u32, field_req_str,
    get_req_str, field_opt_str, get_opt_str, field_req_arr, get_req_arr, field_opt_arr,
    get_opt_arr, field_req_obj, get_req_obj};
use crate::providers::cerebras::fields_header_view;
use crate::providers::anthropic::{first_system, spec_system_text, lemma_first_system_at,
    lemma_first_system_none};
use crate::types::{Message, MessageV, MessageContent, MessageContentV, ContentPart, ContentPartV,
    Role, Usage, FinishReason, StreamChunk, ChunkV, spec_empty_chunk, ChunkKind, ToolCallDelta,
    ToolDeltaV, ToolCall, ToolCallV, FunctionCall, FunctionCallV, Tool, ToolV, CompletionResult,
    CompletionResultV, msgs_view, tool_calls_view, parts_view, tools_view, opt_str_view};

verus! {

use vstd::string::StrSliceExecFns;
use vstd::string::StringExecFns;

/// The wire name of a role in the `input` array.
pub open spec fn spec_oa_role(r: Role) -> Seq<char> {
    match r {
        Role::System => "system"@,
        Role::User => "user"@,
        Role::Assistant => "assistant"@,
        Role::Tool => "tool"@,
    }
}

/// The Responses encoding of one content part; an image reference carries
/// only its URL.
pub open spec fn spec_oa_part(p: ContentPartV) -> JsonV {
    match p {
        ContentPartV::Text { text } => JsonV::Obj(
            seq![("type"@, JsonV::Str("text"@)), ("text"@, JsonV::Str(text))],
        ),
        ContentPartV::ImageUrl { image_url } => JsonV::Obj(
            seq![
                ("type"@, JsonV::Str("image_url"@)),
                ("image_url"@, JsonV::Obj(seq![("url"@, JsonV::Str(image_url.url))])),
            ],
        ),
    }
}

pub open spec fn spec_oa_parts(parts: Seq<ContentPartV>) -> Seq<JsonV> {
    Seq::new(
        parts.len(),
        |i: int|
            if 0 <= i < parts.len() {
                spec_oa_part(parts[i])
            } else {
                JsonV::Null
            },
    )
}

/// The Responses encoding of one non-system message.
pub open spec fn spec_oa_message(m: MessageV) -> JsonV {
    let content = match m.content {
        MessageContentV::Text(text) => JsonV::Str(text),
        MessageContentV::Parts(parts) => JsonV::Arr(spec_oa_parts(parts)),
    };
    JsonV::Obj(
        seq![("role"@, JsonV::Str(spec_oa_role(m.role))), ("content"@, content)],
    )
}

/// The non-system messages, encoded in order as the `input` array.
pub open spec fn spec_oa_messages(msgs: Seq<MessageV>) -> Seq<JsonV>
    decreases msgs.len(),
{
    if msgs.len() == 0 {
        Seq::empty()
    } else {
        spec_oa_messages(msgs.drop_last()) + (if msgs.last().role == Role::System {
            Seq::empty()
        } else {
            seq![spec_oa_message(msgs.last())]
        })
    }
}

/// The Responses encoding of one tool definition: flat, with the function
/// name at top level.
pub open spec fn spec_oa_tool(t: ToolV) -> JsonV {
    JsonV::Obj(
        seq![
            ("type"@, JsonV::Str("function"@)),
            ("name"@, JsonV::Str(t.function.name)),
            (
                "description"@,
                match t.function.description {
                    Some(d) => JsonV::Str(d),
                    None => JsonV::Null,
                },
            ),
            (
                "parameters"@,
                match t.function.parameters {
                    Some(p) => p,
                    None => JsonV::Null,
                },
            ),
        ],
    )
}

pub open spec fn spec_oa_tools(tools: Seq<ToolV>) -> Seq<JsonV> {
    Seq::new(
        tools.len(),
        |i: int|
            if 0 <= i < tools.len() {
                spec_oa_tool(tools[i])
            } else {
                JsonV::Null
            },
    )
}

/// The Responses tool-choice encoding: a bare mode string, or a flat
/// function selector.
pub open spec fn spec_oa_tool_choice(c: ToolChoiceV) -> JsonV {
    match c {
        ToolChoiceV::Auto => JsonV::Str("auto"@),
        ToolChoiceV::NoTools => JsonV::Str("none"@),
        ToolChoiceV::Required => JsonV::Str("required"@),
        ToolChoiceV::Function(name) => JsonV::Obj(
            seq![("type"@, JsonV::Str("function"@)), ("name"@, JsonV::Str(name))],
        ),
    }
}

/// The base body fields: model and input, then instructions and each
/// configured option.
pub open spec fn spec_oa_base_fields(
    model: Seq<char>,
    msgs: Seq<MessageV>,
    cfg: RequestConfigV,
) -> Seq<(Seq<char>, JsonV)> {
    seq![("model"@, JsonV::Str(model)), ("input"@, JsonV::Arr(spec_oa_messages(msgs)))] + (
    match spec_system_text(msgs, cfg) {
        Some(s) => seq![("instructions"@, JsonV::Str(s))],
        None => Seq::empty(),
    }) + (match cfg.max_tokens {
        Some(n) => seq![("max_output_tokens"@, JsonV::Num(spec_u64_dec(n as nat)))],
        None => Seq::empty(),
    }) + (match cfg.temperature_milli {
        Some(t) => seq![("temperature"@, JsonV::Num(spec_milli_dec(t as nat)))],
        None => Seq::empty(),
    }) + (match cfg.top_p_milli {
        Some(t) => seq![("top_p"@, JsonV::Num(spec_milli_dec(t as nat)))],
        None => Seq::empty(),
    }) + (match cfg.tools {
        Some(tools) => seq![("tools"@, JsonV::Arr(spec_oa_tools(tools)))],
        None => Seq::empty(),
    }) + (match cfg.tool_choice {
        Some(c) => seq![("tool_choice"@, spec_oa_tool_choice(c))],
        None => Seq::empty(),
    })
}

pub open spec fn spec_oa_base(model: Seq<char>, msgs: Seq<MessageV>, cfg: RequestConfigV) -> Seq<
    (Seq<char>, JsonV),
> {
    match cfg.extra {
        Some(e) => fold_obj_set(spec_oa_base_fields(model, msgs, cfg), e),
        None => spec_oa_base_fields(model, msgs, cfg),
    }
}

pub open spec fn spec_oa_stream_body(model: Seq<char>, msgs: Seq<MessageV>, cfg: RequestConfigV) -> JsonV {
    JsonV::Obj(
        crate::json::spec_obj_set(spec_oa_base(model, msgs, cfg), "stream"@, JsonV::Bool(true)),
    )
}

pub open spec fn spec_oa_complete_body(
    model: Seq<char>,
    msgs: Seq<MessageV>,
    cfg: RequestConfigV,
) -> JsonV {
    JsonV::Obj(
        crate::json::spec_obj_set(spec_oa_base(model, msgs, cfg), "stream"@, JsonV::Bool(false)),
    )
}

fn oa_part(p: &ContentPart) -> (r: JsonValue)
    ensures
        r@ == spec_oa_part(p@),
{
    match p {
        ContentPart::Text { text } => {
            let mut fields: Vec<(String, JsonValue)> = Vec::new();
            fields.push(("type".to_owned(), JsonValue::string("text")));
            fields.push(("text".to_owned(), JsonValue::Str(text.clone())));
            let ghost fv = fields_view(fields@);
            let r = JsonValue::Obj(fields);
            proof {
                broadcast use crate::json::lemma_jv_view_obj;

                assert(fv =~= spec_oa_part(p@)->Obj_0);
            }
            r
        },
        ContentPart::ImageUrl { image_url } => {
            let mut inner: Vec<(String, JsonValue)> = Vec::new();
            inner.push(("url".to_owned(), JsonValue::Str(image_url.url.clone())));
            let ghost iv = fields_view(inner@);
            let mut fields: Vec<(String, JsonValue)> = Vec::new();
            fields.push(("type".to_owned(), JsonValue::string("image_url")));
            fields.push(("image_url".to_owned(), JsonValue::Obj(inner)));
            let ghost fv = fields_view(fields@);
            let r = JsonValue::Obj(fields);
            proof {
                broadcast use crate::json::lemma_jv_view_obj;

                assert(iv =~= seq![("url"@, JsonV::Str(image_url.url@))]);
                assert(fv =~= spec_oa_part(p@)->Obj_0);
            }
            r
        },
    }
}

fn oa_message(m: &Message) -> (r: JsonValue)
    ensures
        r@ == spec_oa_message(m@),
{
    let role: &str = match m.role {
        Role::System => "system",
        Role::User => "user",
        Role::Assistant => "assistant",
        Role::Tool => "tool",
    };
    let content: JsonValue = match &m.content {
        MessageContent::Text(text) => JsonValue::Str(text.clone()),
        MessageContent::Parts(ps) => {
            let mut out: Vec<JsonValue> = Vec::new();
            let ghost pv = parts_view(ps@);
            let mut i: usize = 0;
            #[verifier::loop_isolation(false)]
            while i < ps.len()
                invariant
                    0 <= i <= ps.len(),
                    pv == parts_view(ps@),
                    items_view(out@) == spec_oa_parts(pv).take(i as int),
                decreases ps.len() - i,
            {
                out.push(oa_part(&ps[i]));
                proof {
                    assert(items_view(out@) =~= spec_oa_parts(pv).take(i + 1));
                }
                i = i + 1;
            }
            let ghost ov = items_view(out@);
            let c = JsonValue::Arr(out);
            proof {
                broadcast use crate::json::lemma_jv_view_arr;

                assert(ov =~= spec_oa_parts(pv));
            }
            c
        },
    };
    let mut fields: Vec<(String, JsonValue)> = Vec::new();
    fields.push(("role".to_owned(), JsonValue::string(role)));
    fields.push(("content".to_owned(), content));
    let ghost fv = fields_view(fields@);
    let r = JsonValue::Obj(fields);
    proof {
        broadcast use crate::json::lemma_jv_view_obj;

        assert(fv =~= spec_oa_message(m@)->Obj_0);
    }
    r
}

/// OpenAI Responses API provider.
pub struct OpenAIProvider {
    pub base_url: String,
}

impl OpenAIProvider {
    /// The provider with its production endpoint.
    pub fn new() -> (r: Self)
        ensures
            r.base_url@ == "https://api.openai.com"@,
    {
        OpenAIProvider { base_url: "https://api.openai.com".to_owned() }
    }

    /// The provider pointed at another base URL.
    pub fn with_base_url(base_url: &str) -> (r: Self)
        ensures
            r.base_url@ == base_url@,
    {
        OpenAIProvider { base_url: base_url.to_owned() }
    }

    /// The provider's name.
    pub fn name(&self) -> (r: &'static str)
        ensures
            r@ == "openai"@,
    {
        "openai"
    }

    /// The base URL requests go to.
    pub fn base_url(&self) -> (r: &str)
        ensures
            r@ == self.base_url@,
    {
        self.base_url.as_str()
    }

    /// The path under the base URL.
    pub fn chat_endpoint(&self) -> (r: &'static str)
        ensures
            r@ == "/v1/responses"@,
    {
        "/v1/responses"
    }

    /// Request headers: JSON content type and bearer authorization.
    pub fn headers(&self, api_key: &str) -> (r: Vec<(String, String)>)
        ensures
            fields_header_view(r@) == seq![
                ("content-type"@, "application/json"@),
                ("authorization"@, "Bearer "@ + api_key@),
            ],
    {
        let mut out: Vec<(String, String)> = Vec::new();
        out.push(("content-type".to_owned(), "application/json".to_owned()));
        out.push(("authorization".to_owned(), "Bearer ".to_owned().concat(api_key)));
        proof {
            assert(fields_header_view(out@) =~= seq![
                ("content-type"@, "application/json"@),
                ("authorization"@, "Bearer "@ + api_key@),
            ]);
        }
        out
    }

    /// The URL for streaming requests.
    pub fn stream_url(&self, _model: &str, _api_key: &str) -> (r: String)
        ensures
            r@ == self.base_url@ + "/v1/responses"@,
    {
        self.base_url.clone().concat("/v1/responses")
    }

    /// The URL for terminal requests.
    pub fn complete_url(&self, _model: &str, _api_key: &str) -> (r: String)
        ensures
            r@ == self.base_url@ + "/v1/responses"@,
    {
        self.base_url.clone().concat("/v1/responses")
    }

    /// Convert the non-system messages into the `input` array.
    #[verifier::loop_isolation(false)]
    pub fn convert_messages(&self, messages: &[Message]) -> (r: Vec<JsonValue>)
        ensures
            items_view(r@) == spec_oa_messages(msgs_view(messages@)),
    {
        let ghost mv = msgs_view(messages@);
        let mut msgs: Vec<JsonValue> = Vec::new();
        let mut i: usize = 0;
        proof {
            assert(mv.take(0) =~= Seq::<MessageV>::empty());
        }
        while i < messages.len()
            invariant
                0 <= i <= messages@.len(),
                mv == msgs_view(messages@),
                items_view(msgs@) == spec_oa_messages(mv.take(i as int)),
            decreases messages@.len() - i,
        {
            proof {
                assert(mv.take(i + 1).drop_last() =~= mv.take(i as int));
            }
            if !matches!(messages[i].role, Role::System) {
                msgs.push(oa_message(&messages[i]));
            }
            proof {
                assert(items_view(msgs@) =~= spec_oa_messages(mv.take(i + 1)));
            }
            i = i + 1;
        }
        proof {
            assert(mv.take(messages@.len() as int) =~= mv);
        }
        msgs
    }

    /// The instructions text: the first system message's plain text, else the
    /// configured system prompt.
    #[verifier::loop_isolation(false)]
    fn instructions_of(&self, messages: &[Message], config: &RequestConfig) -> (r: Option<String>)
        ensures
            opt_str_view(r) == spec_system_text(msgs_view(messages@), config@),
    {
        let ghost mv = msgs_view(messages@);
        let n = messages.len();
        let mut k: usize = 0;
        while k < n && !matches!(messages[k].role, Role::System)
            invariant
                0 <= k <= n,
                n == messages@.len(),
                mv == msgs_view(messages@),
                forall|j: int| 0 <= j < k ==> mv[j].role != Role::System,
            decreases n - k,
        {
            k = k + 1;
        }
        let mut text: Option<String> = None;
        if k < n {
            proof {
                lemma_first_system_at(mv, k as int);
            }
            match messages[k].content.as_text() {
                Some(t) => {
                    text = Some(t.clone());
                },
                None => {
                    text = None;
                },
            }
        } else {
            proof {
                lemma_first_system_none(mv);
            }
        }
        if text.is_none() {
            if let Some(s) = &config.system {
                text = Some(s.clone());
            }
        }
        text
    }

    /// Build the base body fields with the extra fields merged in.
    #[verifier::loop_isolation(false)]
    #[verifier::rlimit(60)]
    fn base_fields(&self, model: &str, messages: &[Message], config: &RequestConfig) -> (r: Vec<
        (String, JsonValue),
    >)
        ensures
            fields_view(r@) == spec_oa_base(model@, msgs_view(messages@), config@),
    {
        let ghost mv = msgs_view(messages@);
        let instructions = self.instructions_of(messages, config);
        let input = self.convert_messages(messages);
        let mut fields: Vec<(String, JsonValue)> = Vec::new();
        fields.push(("model".to_owned(), JsonValue::string(model)));
        fields.push(("input".to_owned(), JsonValue::Arr(input)));
        let ghost g0 = seq![
            ("model"@, JsonV::Str(model@)),
            ("input"@, JsonV::Arr(spec_oa_messages(mv))),
        ];
        proof {
            broadcast use crate::json::lemma_jv_view_arr;

            assert(fields_view(fields@) =~= g0);
        }
        if let Some(sx) = instructions {
            fields.push(("instructions".to_owned(), JsonValue::Str(sx)));
        }
        let ghost g1 = g0 + (match spec_system_text(mv, config@) {
            Some(sx) => seq![("instructions"@, JsonV::Str(sx))],
            None => Seq::<(Seq<char>, JsonV)>::empty(),
        });
        proof {
            assert(fields_view(fields@) =~= g1);
        }
        if let Some(n) = config.max_tokens {
            fields.push(("max_output_tokens".to_owned(), JsonValue::from_u64(n as u64)));
        }
        let ghost g2 = g1 + (match config@.max_tokens {
            Some(n) => seq![("max_output_tokens"@, JsonV::Num(spec_u64_dec(n as nat)))],
            None => Seq::<(Seq<char>, JsonV)>::empty(),
        });
        proof {
            assert(fields_view(fields@) =~= g2);
        }
        if let Some(t) = config.temperature_milli {
            fields.push(("temperature".to_owned(), JsonValue::from_milli(t)));
        }
        let ghost g3 = g2 + (match config@.temperature_milli {
            Some(t) => seq![("temperature"@, JsonV::Num(spec_milli_dec(t as nat)))],
            None => Seq::<(Seq<char>, JsonV)>::empty(),
        });
        proof {
            assert(fields_view(fields@) =~= g3);
        }
        if let Some(t) = config.top_p_milli {
            fields.push(("top_p".to_owned(), JsonValue::from_milli(t)));
        }
        let ghost g4 = g3 + (match config@.top_p_milli {
            Some(t) => seq![("top_p"@, JsonV::Num(spec_milli_dec(t as nat)))],
            None => Seq::<(Seq<char>, JsonV)>::empty(),
        });
        proof {
            assert(fields_view(fields@) =~= g4);
        }
        if let Some(tools) = &config.tools {
            let mut out: Vec<JsonValue> = Vec::new();
            let ghost tv = tools_view(tools@);
            let mut j: usize = 0;
            while j < tools.len()
                invariant
                    0 <= j <= tools@.len(),
                    tv == tools_view(tools@),
                    items_view(out@) == spec_oa_tools(tv).take(j as int),
                decreases tools@.len() - j,
            {
                let t = &tools[j];
                let mut tf: Vec<(String, JsonValue)> = Vec::new();
                tf.push(("type".to_owned(), JsonValue::string("function")));
                tf.push(("name".to_owned(), JsonValue::Str(t.function.name.clone())));
                tf.push(
                    (
                        "description".to_owned(),
                        match &t.function.description {
                            Some(d) => JsonValue::Str(d.clone()),
                            None => JsonValue::Null,
                        },
                    ),
                );
                tf.push(
                    (
                        "parameters".to_owned(),
                        match &t.function.parameters {
                            Some(p) => p.clone_value(),
                            None => JsonValue::Null,
                        },
                    ),
                );
                let ghost tfv = fields_view(tf@);
                out.push(JsonValue::Obj(tf));
                proof {
                    broadcast use crate::json::lemma_jv_view_obj;

                    assert(tfv =~= spec_oa_tool(tv[j as int])->Obj_0);
                    assert(items_view(out@) =~= spec_oa_tools(tv).take(j + 1));
                }
                j = j + 1;
            }
            proof {
                assert(items_view(out@) =~= spec_oa_tools(tv));
            }
            fields.push(("tools".to_owned(), JsonValue::Arr(out)));
        }
        let ghost g5 = g4 + (match config@.tools {
            Some(tools) => seq![("tools"@, JsonV::Arr(spec_oa_tools(tools)))],
            None => Seq::<(Seq<char>, JsonV)>::empty(),
        });
        proof {
            broadcast use crate::json::lemma_jv_view_arr;

            assert(fields_view(fields@) =~= g5);
        }
        if let Some(choice) = &config.tool_choice {
            let tc: JsonValue = match choice {
                ToolChoice::Auto => JsonValue::string("auto"),
                ToolChoice::NoTools => JsonValue::string("none"),
                ToolChoice::Required => JsonValue::string("required"),
                ToolChoice::Function(name) => {
                    let mut cf: Vec<(String, JsonValue)> = Vec::new();
                    cf.push(("type".to_owned(), JsonValue::string("function")));
                    cf.push(("name".to_owned(), JsonValue::Str(name.clone())));
                    let ghost cfv = fields_view(cf@);
                    let tcv = JsonValue::Obj(cf);
                    proof {
                        broadcast use crate::json::lemma_jv_view_obj;

                        assert(cfv =~= spec_oa_tool_choice(choice@)->Obj_0);
                    }
                    tcv
                },
            };
            fields.push(("tool_choice".to_owned(), tc));
        }
        let ghost g6 = g5 + (match config@.tool_choice {
            Some(c) => seq![("tool_choice"@, spec_oa_tool_choice(c))],
            None => Seq::<(Seq<char>, JsonV)>::empty(),
        });
        proof {
            assert(fields_view(fields@) =~= g6);
            assert(g6 == spec_oa_base_fields(model@, mv, config@));
        }
        merge_extra(&mut fields, &config.extra);
        proof {
            if config.extra is Some {
                let e = config.extra->0;
                assert(config@.extra == Some(fields_view(e@)));
                assert(fields_view(fields@) == fold_obj_set(g6, fields_view(e@)));
            } else {
                assert(config@.extra is None);
                assert(fields_view(fields@) == g6);
            }
        }
        fields
    }

    /// Build the body for a streaming completion.
    pub fn build_stream_body(&self, model: &str, messages: &[Message], config: &RequestConfig) -> (r:
        Result<JsonValue, Error>)
        ensures
            r matches Ok(b) && b@ == spec_oa_stream_body(model@, msgs_view(messages@), config@),
    {
        let mut fields = self.base_fields(model, messages, config);
        crate::json::obj_set(&mut fields, "stream".to_owned(), JsonValue::Bool(true));
        let r = JsonValue::Obj(fields);
        proof {
            broadcast use crate::json::lemma_jv_view_obj;

        }
        Ok(r)
    }

    /// Build the body for a terminal completion.
    pub fn build_complete_body(&self, model: &str, messages: &[Message], config: &RequestConfig) -> (
        r: Result<JsonValue, Error>)
        ensures
            r matches Ok(b) && b@ == spec_oa_complete_body(model@, msgs_view(messages@), config@),
    {
        let mut fields = self.base_fields(model, messages, config);
        crate::json::obj_set(&mut fields, "stream".to_owned(), JsonValue::Bool(false));
        let r = JsonValue::Obj(fields);
        proof {
            broadcast use crate::json::lemma_jv_view_obj;

        }
        Ok(r)
    }

    /// Create the event decoder for this provider's stream.
    pub fn create_parser(&self) -> (r: OpenAIParser)
        ensures
            r@ == initial_oa_state(),
    {
        OpenAIParser::new()
    }

    /// Parse a terminal (non-streaming) response body.
    pub fn parse_response(&self, body: &str) -> (r: Result<CompletionResult, Error>)
        ensures
            oa_response_matches(body@, r),
    {
        let v = match parse_json(body) {
            Some(v) => v,
            None => {
                return Err(Error::parse("invalid JSON".to_owned()));
            },
        };
        decode_oa_response(&v)
    }
}

/// The usage object of this protocol: required input and output counts, and
/// required token details whose cached count defaults to zero.
pub open spec fn spec_oa_usage(j: JsonV) -> Result<Usage, ()> {
    match (
        field_req_u32(j, "input_tokens"@),
        field_req_u32(j, "output_tokens"@),
        field_req_obj(j, "input_tokens_details"@),
    ) {
        (Ok(i), Ok(o), Ok(d)) => match field_opt_u32(d, "cached_tokens"@) {
            Ok(c) => Ok(
                Usage {
                    input_tokens: i,
                    output_tokens: o,
                    cache_read_input_tokens: match c {
                        Some(n) => n,
                        None => 0,
                    },
                    cache_creation_input_tokens: 0,
                },
            ),
            Err(_) => Err(()),
        },
        _ => Err(()),
    }
}

fn decode_oa_usage(v: &JsonValue) -> (r: Result<Usage, ()>)
    ensures
        match r {
            Ok(u) => spec_oa_usage(v@) == Ok::<Usage, ()>(u),
            Err(_) => spec_oa_usage(v@) is Err,
        },
{
    let i = match get_req_u32(v, "input_tokens") {
        Ok(x) => x,
        Err(_) => {
            return Err(());
        },
    };
    let o = match get_req_u32(v, "output_tokens") {
        Ok(x) => x,
        Err(_) => {
            return Err(());
        },
    };
    let d = match get_req_obj(v, "input_tokens_details") {
        Ok(x) => x,
        Err(_) => {
            return Err(());
        },
    };
    let c = match get_opt_u32(d, "cached_tokens") {
        Ok(x) => x,
        Err(_) => {
            return Err(());
        },
    };
    Ok(
        Usage {
            input_tokens: i,
            output_tokens: o,
            cache_read_input_tokens: match c {
                Some(n) => n,
                None => 0,
            },
            cache_creation_input_tokens: 0,
        },
    )
}

/// The finish reason a response status maps to.
pub open spec fn spec_oa_status_finish(s: Seq<char>) -> FinishReason {
    if s == "completed"@ {
        FinishReason::Stop
    } else if s == "incomplete"@ {
        FinishReason::Length
    } else {
        FinishReason::Unknown
    }
}

/// Decoder state between events: the pending tool id and name recorded when
/// a function-call output item is added, and the running tool index.
pub struct OaStateV {
    pub tool_id: Option<Seq<char>>,
    pub tool_name: Option<Seq<char>>,
    pub tool_index: int,
}

pub open spec fn initial_oa_state() -> OaStateV {
    OaStateV { tool_id: None, tool_name: None, tool_index: 0 }
}

/// Streaming event decoder for the Responses protocol.
pub struct OpenAIParser {
    pub current_tool_id: Option<String>,
    pub current_tool_name: Option<String>,
    pub tool_index: usize,
}

impl View for OpenAIParser {
    type V = OaStateV;

    open spec fn view(&self) -> OaStateV {
        OaStateV {
            tool_id: opt_str_view(self.current_tool_id),
            tool_name: opt_str_view(self.current_tool_name),
            tool_index: self.tool_index as int,
        }
    }
}

/// One decoding step: the new state and the outcome. Events whose type is
/// unrecognized are ignored.
pub open spec fn spec_oa_step(st: OaStateV, j: JsonV) -> (
    OaStateV,
    Result<Option<ChunkV>, ErrorV>,
) {
    let schema_err = ErrorV::Parse("unexpected schema"@);
    match field_req_str(j, "type"@) {
        Err(_) => (st, Err(schema_err)),
        Ok(ty) => if ty == "response.created"@ || ty == "response.in_progress"@ {
            match field_req_obj(j, "response"@) {
                Err(_) => (st, Err(schema_err)),
                Ok(resp) => match (field_req_str(resp, "id"@), field_req_str(resp, "status"@)) {
                    (Ok(_), Ok(_)) => (st, Ok(None)),
                    _ => (st, Err(schema_err)),
                },
            }
        } else if ty == "response.output_item.added"@ {
            match spec_get(j, "output_index"@) {
                None => (st, Err(schema_err)),
                Some(_) => match spec_get(j, "item"@) {
                    None => (st, Ok(None)),
                    Some(JsonV::Null) => (st, Ok(None)),
                    Some(item) => match field_req_str(item, "type"@) {
                        Err(_) => (st, Err(schema_err)),
                        Ok(it) => if it == "function_call"@ {
                            match (
                                field_req_str(item, "call_id"@),
                                field_req_str(item, "name"@),
                            ) {
                                (Ok(id), Ok(name)) => (
                                    (OaStateV {
                                        tool_id: Some(id),
                                        tool_name: Some(name),
                                        ..st
                                    }),
                                    Ok(None),
                                ),
                                _ => (st, Err(schema_err)),
                            }
                        } else if it == "message"@ {
                            (st, Ok(None))
                        } else {
                            (st, Err(schema_err))
                        },
                    },
                },
            }
        } else if ty == "response.content_part.added"@ {
            match field_req_u32(j, "content_index"@) {
                Ok(_) => (st, Ok(None)),
                Err(_) => (st, Err(schema_err)),
            }
        } else if ty == "response.output_text.delta"@ {
            match (spec_get(j, "output_index"@), field_req_str(j, "delta"@)) {
                (Some(_), Ok(delta)) => (
                    st,
                    Ok(
                        Some(
                            ChunkV {
                                kind: ChunkKind::Text,
                                text: delta,
                                ..spec_empty_chunk(ChunkKind::Text)
                            },
                        ),
                    ),
                ),
                _ => (st, Err(schema_err)),
            }
        } else if ty == "response.function_call_arguments.delta"@ {
            match (field_req_str(j, "item_id"@), field_req_str(j, "delta"@)) {
                (Ok(_), Ok(delta)) => (
                    st,
                    Ok(
                        Some(
                            ChunkV {
                                kind: ChunkKind::ToolDelta,
                                tool_call_delta: Some(
                                    ToolDeltaV {
                                        index: st.tool_index,
                                        id: st.tool_id,
                                        function_name: st.tool_name,
                                        function_arguments: Some(delta),
                                    },
                                ),
                                ..spec_empty_chunk(ChunkKind::ToolDelta)
                            },
                        ),
                    ),
                ),
                _ => (st, Err(schema_err)),
            }
        } else if ty == "response.function_call_arguments.done"@ {
            match field_req_str(j, "arguments"@) {
                Err(_) => (st, Err(schema_err)),
                Ok(_) => (
                    (OaStateV {
                        tool_id: None,
                        tool_name: None,
                        tool_index: if st.tool_index < usize::MAX as int {
                            st.tool_index + 1
                        } else {
                            st.tool_index
                        },
                    }),
                    Ok(None),
                ),
            }
        } else if ty == "response.output_text.done"@ {
            match field_req_str(j, "text"@) {
                Ok(_) => (st, Ok(None)),
                Err(_) => (st, Err(schema_err)),
            }
        } else if ty == "response.content_part.done"@ || ty == "response.output_item.done"@ {
            (st, Ok(None))
        } else if ty == "response.completed"@ {
            match field_req_obj(j, "response"@) {
                Err(_) => (st, Err(schema_err)),
                Ok(resp) => match (field_req_str(resp, "status"@), spec_get(resp, "usage"@)) {
                    (Ok(status), u) => {
                        let usage = match u {
                            Some(JsonV::Null) => Ok(None),
                            Some(uj) => match spec_oa_usage(uj) {
                                Ok(x) => Ok(Some(x)),
                                Err(_) => Err(()),
                            },
                            None => Ok(None),
                        };
                        match usage {
                            Err(_) => (st, Err(schema_err)),
                            Ok(u2) => (
                                st,
                                Ok(
                                    Some(
                                        ChunkV {
                                            usage: u2,
                                            finish_reason: Some(spec_oa_status_finish(status)),
                                            ..spec_empty_chunk(ChunkKind::Unknown)
                                        },
                                    ),
                                ),
                            ),
                        }
                    },
                    _ => (st, Err(schema_err)),
                },
            }
        } else if ty == "error"@ {
            match field_req_obj(j, "error"@) {
                Err(_) => (st, Err(schema_err)),
                Ok(e) => match field_req_str(e, "message"@) {
                    Err(_) => (st, Err(schema_err)),
                    Ok(msg) => (st, Err(ErrorV::Api { status: 0, message: msg })),
                },
            }
        } else {
            (st, Ok(None))
        },
    }
}

/// How one decoded event must relate to the payload text and the states.
pub open spec fn oa_chunk_matches(
    data: Seq<char>,
    st0: OaStateV,
    st1: OaStateV,
    r: Result<Option<StreamChunk>, Error>,
) -> bool {
    match spec_parse_json(data) {
        None => st1 == st0 && (r matches Err(e) && e@ == ErrorV::Parse("invalid JSON"@)),
        Some(j) => {
            let (st2, out) = spec_oa_step(st0, j);
            st1 == st2 && (match out {
                Ok(None) => r matches Ok(None),
                Ok(Some(cv)) => r matches Ok(Some(ch)) && ch@ == cv,
                Err(ev) => r matches Err(e) && e@ == ev,
            })
        },
    }
}

impl OpenAIParser {
    /// Create a decoder in its initial state.
    pub fn new() -> (r: Self)
        ensures
            r@ == initial_oa_state(),
    {
        OpenAIParser { current_tool_id: None, current_tool_name: None, tool_index: 0 }
    }

    /// The Responses stream has no data sentinel; `response.completed` is the
    /// terminal event.
    pub fn is_end_of_stream(&self, _data: &str) -> (r: bool)
        ensures
            r == false,
    {
        false
    }

    /// Decode one SSE data payload into at most one chunk, updating the
    /// decoder state.
    #[verifier::rlimit(30)]
    pub fn parse_chunk(&mut self, data: &str) -> (r: Result<Option<StreamChunk>, Error>)
        ensures
            oa_chunk_matches(data@, old(self)@, final(self)@, r),
    {
        let v = match parse_json(data) {
            Some(v) => v,
            None => {
                return Err(Error::parse("invalid JSON".to_owned()));
            },
        };
        let ty = match get_req_str(&v, "type") {
            Ok(t) => t,
            Err(_) => {
                return Err(Error::parse("unexpected schema".to_owned()));
            },
        };
        if str_eq(ty.as_str(), "response.created") || str_eq(ty.as_str(), "response.in_progress") {
            let resp = match get_req_obj(&v, "response") {
                Ok(x) => x,
                Err(_) => {
                    return Err(Error::parse("unexpected schema".to_owned()));
                },
            };
            match (get_req_str(resp, "id"), get_req_str(resp, "status")) {
                (Ok(_), Ok(_)) => Ok(None),
                _ => Err(Error::parse("unexpected schema".to_owned())),
            }
        } else if str_eq(ty.as_str(), "response.output_item.added") {
            if v.get("output_index").is_none() {
                return Err(Error::parse("unexpected schema".to_owned()));
            }
            match v.get("item") {
                None => Ok(None),
                Some(item) => {
                    if item.is_null() {
                        return Ok(None);
                    }
                    let it = match get_req_str(item, "type") {
                        Ok(t) => t,
                        Err(_) => {
                            return Err(Error::parse("unexpected schema".to_owned()));
                        },
                    };
                    if str_eq(it.as_str(), "function_call") {
                        let id = match get_req_str(item, "call_id") {
                            Ok(s) => s.clone(),
                            Err(_) => {
                                return Err(Error::parse("unexpected schema".to_owned()));
                            },
                        };
                        let name = match get_req_str(item, "name") {
                            Ok(s) => s.clone(),
                            Err(_) => {
                                return Err(Error::parse("unexpected schema".to_owned()));
                            },
                        };
                        self.current_tool_id = Some(id);
                        self.current_tool_name = Some(name);
                        Ok(None)
                    } else if str_eq(it.as_str(), "message") {
                        Ok(None)
                    } else {
                        Err(Error::parse("unexpected schema".to_owned()))
                    }
                },
            }
        } else if str_eq(ty.as_str(), "response.content_part.added") {
            match get_req_u32(&v, "content_index") {
                Ok(_) => Ok(None),
                Err(_) => Err(Error::parse("unexpected schema".to_owned())),
            }
        } else if str_eq(ty.as_str(), "response.output_text.delta") {
            if v.get("output_index").is_none() {
                return Err(Error::parse("unexpected schema".to_owned()));
            }
            match get_req_str(&v, "delta") {
                Ok(delta) => Ok(Some(StreamChunk::text_owned(delta.clone()))),
                Err(_) => Err(Error::parse("unexpected schema".to_owned())),
            }
        } else if str_eq(ty.as_str(), "response.function_call_arguments.delta") {
            if get_req_str(&v, "item_id").is_err() {
                return Err(Error::parse("unexpected schema".to_owned()));
            }
            match get_req_str(&v, "delta") {
                Ok(delta) => {
                    let mut chunk = StreamChunk::empty(ChunkKind::ToolDelta);
                    chunk.tool_call_delta = Some(
                        ToolCallDelta {
                            index: self.tool_index,
                            id: match &self.current_tool_id {
                                Some(s) => Some(s.clone()),
                                None => None,
                            },
                            function_name: match &self.current_tool_name {
                                Some(s) => Some(s.clone()),
                                None => None,
                            },
                            function_arguments: Some(delta.clone()),
                        },
                    );
                    Ok(Some(chunk))
                },
                Err(_) => Err(Error::parse("unexpected schema".to_owned())),
            }
        } else if str_eq(ty.as_str(), "response.function_call_arguments.done") {
            match get_req_str(&v, "arguments") {
                Ok(_) => {
                    self.current_tool_id = None;
                    self.current_tool_name = None;
                    if self.tool_index < usize::MAX {
                        self.tool_index = self.tool_index + 1;
                    }
                    Ok(None)
                },
                Err(_) => Err(Error::parse("unexpected schema".to_owned())),
            }
        } else if str_eq(ty.as_str(), "response.output_text.done") {
            match get_req_str(&v, "text") {
                Ok(_) => Ok(None),
                Err(_) => Err(Error::parse("unexpected schema".to_owned())),
            }
        } else if str_eq(ty.as_str(), "response.content_part.done") || str_eq(
            ty.as_str(),
            "response.output_item.done",
        ) {
            Ok(None)
        } else if str_eq(ty.as_str(), "response.completed") {
            let resp = match get_req_obj(&v, "response") {
                Ok(x) => x,
                Err(_) => {
                    return Err(Error::parse("unexpected schema".to_owned()));
                },
            };
            let status = match get_req_str(resp, "status") {
                Ok(s) => s,
                Err(_) => {
                    return Err(Error::parse("unexpected schema".to_owned()));
                },
            };
            let usage: Option<Usage> = match resp.get("usage") {
                None => None,
                Some(uj) => {
                    if uj.is_null() {
                        None
                    } else {
                        match decode_oa_usage(uj) {
                            Ok(u) => Some(u),
                            Err(_) => {
                                return Err(Error::parse("unexpected schema".to_owned()));
                            },
                        }
                    }
                },
            };
            let finish = if str_eq(status.as_str(), "completed") {
                FinishReason::Stop
            } else if str_eq(status.as_str(), "incomplete") {
                FinishReason::Length
            } else {
                FinishReason::Unknown
            };
            let mut chunk = StreamChunk::empty(ChunkKind::Unknown);
            chunk.usage = usage;
            chunk.finish_reason = Some(finish);
            Ok(Some(chunk))
        } else if str_eq(ty.as_str(), "error") {
            let e = match get_req_obj(&v, "error") {
                Ok(x) => x,
                Err(_) => {
                    return Err(Error::parse("unexpected schema".to_owned()));
                },
            };
            match get_req_str(e, "message") {
                Ok(msg) => Err(Error::Api { status: 0, message: msg.clone() }),
                Err(_) => Err(Error::parse("unexpected schema".to_owned())),
            }
        } else {
            Ok(None)
        }
    }
}

/// The decoded form of one output item: message text and tool calls.
pub open spec fn spec_oa_item(j: JsonV) -> Result<(Seq<char>, Seq<ToolCallV>), ()> {
    match field_req_str(j, "type"@) {
        Err(_) => Err(()),
        Ok(it) => if it == "message"@ {
            match (field_req_str(j, "id"@), field_req_arr(j, "content"@)) {
                (Ok(_), Ok(parts)) => match spec_oa_content_text(parts) {
                    Ok(text) => Ok((text, Seq::empty())),
                    Err(_) => Err(()),
                },
                _ => Err(()),
            }
        } else if it == "function_call"@ {
            match (
                field_req_str(j, "id"@),
                field_req_str(j, "name"@),
                field_req_str(j, "arguments"@),
                field_req_str(j, "call_id"@),
            ) {
                (Ok(_), Ok(name), Ok(args), Ok(call_id)) => Ok(
                    (
                        Seq::empty(),
                        seq![
                            ToolCallV {
                                id: call_id,
                                tool_type: "function"@,
                                function: FunctionCallV { name: name, arguments: args },
                            },
                        ],
                    ),
                ),
                _ => Err(()),
            }
        } else {
            Err(())
        },
    }
}

/// The text of a message item: parts typed `output_text` contribute their
/// text (an absent text field reads as empty), others contribute nothing.
pub open spec fn spec_oa_content_text(parts: Seq<JsonV>) -> Result<Seq<char>, ()>
    decreases parts.len(),
{
    if parts.len() == 0 {
        Ok(Seq::empty())
    } else {
        match (spec_oa_content_text(parts.drop_last()), spec_oa_content_part(parts.last())) {
            (Ok(t), Ok(s)) => Ok(t + s),
            _ => Err(()),
        }
    }
}

pub open spec fn spec_oa_content_part(j: JsonV) -> Result<Seq<char>, ()> {
    match (field_req_str(j, "type"@), field_opt_str(j, "text"@)) {
        (Ok(ct), Ok(text)) => if ct == "output_text"@ {
            Ok(
                match text {
                    Some(t) => t,
                    None => Seq::empty(),
                },
            )
        } else {
            Ok(Seq::empty())
        },
        _ => Err(()),
    }
}

pub open spec fn spec_oa_items(items: Seq<JsonV>) -> Result<(Seq<char>, Seq<ToolCallV>), ()>
    decreases items.len(),
{
    if items.len() == 0 {
        Ok((Seq::empty(), Seq::empty()))
    } else {
        match (spec_oa_items(items.drop_last()), spec_oa_item(items.last())) {
            (Ok((t0, c0)), Ok((t1, c1))) => Ok((t0 + t1, c0 + c1)),
            _ => Err(()),
        }
    }
}

/// The decoded form of a terminal response of this protocol. The finish
/// reason comes from the status, overridden to tool calls when any were
/// returned.
pub open spec fn spec_oa_response(j: JsonV) -> Result<CompletionResultV, ErrorV> {
    let schema_err = ErrorV::Parse("unexpected schema"@);
    match (
        field_req_str(j, "model"@),
        field_req_str(j, "status"@),
        field_req_arr(j, "output"@),
        field_req_obj(j, "usage"@),
    ) {
        (Ok(model), Ok(status), Ok(items), Ok(uj)) => match (
            spec_oa_usage(uj),
            spec_oa_items(items),
        ) {
            (Ok(usage), Ok((text, calls))) => Ok(
                CompletionResultV {
                    content: text,
                    usage: usage,
                    model: model,
                    finish_reason: if calls.len() == 0 {
                        spec_oa_status_finish(status)
                    } else {
                        FinishReason::ToolCalls
                    },
                    tool_calls: calls,
                },
            ),
            _ => Err(schema_err),
        },
        _ => Err(schema_err),
    }
}

proof fn lemma_oa_items_err(items: Seq<JsonV>, k: int)
    requires
        0 <= k < items.len(),
        spec_oa_item(items[k]) is Err,
    ensures
        spec_oa_items(items) is Err,
    decreases items.len(),
{
    if k < items.len() - 1 {
        lemma_oa_items_err(items.drop_last(), k);
    }
}

proof fn lemma_oa_content_err(parts: Seq<JsonV>, k: int)
    requires
        0 <= k < parts.len(),
        spec_oa_content_part(parts[k]) is Err,
    ensures
        spec_oa_content_text(parts) is Err,
    decreases parts.len(),
{
    if k < parts.len() - 1 {
        lemma_oa_content_err(parts.drop_last(), k);
    }
}

#[verifier::loop_isolation(false)]
fn oa_content_text(parts: &Vec<JsonValue>) -> (r: Result<String, ()>)
    ensures
        match r {
            Ok(s) => spec_oa_content_text(items_view(parts@)) == Ok::<Seq<char>, ()>(s@),
            Err(_) => spec_oa_content_text(items_view(parts@)) is Err,
        },
{
    let ghost pv = items_view(parts@);
    let mut out = String::new();
    let mut i: usize = 0;
    proof {
        assert(pv.take(0) =~= Seq::<JsonV>::empty());
    }
    while i < parts.len()
        invariant
            0 <= i <= parts@.len(),
            pv == items_view(parts@),
            spec_oa_content_text(pv.take(i as int)) == Ok::<Seq<char>, ()>(out@),
        decreases parts@.len() - i,
    {
        proof {
            assert(pv.take(i + 1).drop_last() =~= pv.take(i as int));
        }
        let p = &parts[i];
        let ct = match get_req_str(p, "type") {
            Ok(t) => t,
            Err(_) => {
                proof {
                    lemma_oa_content_err(pv, i as int);
                }
                return Err(());
            },
        };
        let text = match get_opt_str(p, "text") {
            Ok(t) => t,
            Err(_) => {
                proof {
                    lemma_oa_content_err(pv, i as int);
                }
                return Err(());
            },
        };
        if str_eq(ct.as_str(), "output_text") {
            if let Some(t) = text {
                out.append(t.as_str());
            }
        }
        proof {
            assert(out@ =~= spec_oa_content_text(pv.take(i + 1))->Ok_0);
        }
        i = i + 1;
    }
    proof {
        assert(pv.take(parts@.len() as int) =~= pv);
    }
    Ok(out)
}

#[verifier::loop_isolation(false)]
#[verifier::rlimit(60)]
fn decode_oa_response(v: &JsonValue) -> (r: Result<CompletionResult, Error>)
    ensures
        match spec_oa_response(v@) {
            Ok(cv) => r matches Ok(c) && c@ == cv,
            Err(ev) => r matches Err(e) && e@ == ev,
        },
{
    let model = match get_req_str(v, "model") {
        Ok(s) => s.clone(),
        Err(_) => {
            return Err(Error::parse("unexpected schema".to_owned()));
        },
    };
    let status = match get_req_str(v, "status") {
        Ok(s) => s.clone(),
        Err(_) => {
            return Err(Error::parse("unexpected schema".to_owned()));
        },
    };
    let items = match get_req_arr(v, "output") {
        Ok(x) => x,
        Err(_) => {
            return Err(Error::parse("unexpected schema".to_owned()));
        },
    };
    let uj = match get_req_obj(v, "usage") {
        Ok(u) => u,
        Err(_) => {
            return Err(Error::parse("unexpected schema".to_owned()));
        },
    };
    let usage = match decode_oa_usage(uj) {
        Ok(u) => u,
        Err(_) => {
            return Err(Error::parse("unexpected schema".to_owned()));
        },
    };
    let ghost iv = items_view(items@);
    let mut content = String::new();
    let mut tool_calls: Vec<ToolCall> = Vec::new();
    proof {
        assert(iv.take(0) =~= Seq::<JsonV>::empty());
        assert(tool_calls_view(tool_calls@) =~= Seq::<ToolCallV>::empty());
    }
    let mut i: usize = 0;
    while i < items.len()
        invariant
            0 <= i <= items@.len(),
            iv == items_view(items@),
            spec_oa_items(iv.take(i as int)) == Ok::<(Seq<char>, Seq<ToolCallV>), ()>(
                (content@, tool_calls_view(tool_calls@)),
            ),
        decreases items@.len() - i,
    {
        proof {
            assert(iv.take(i + 1).drop_last() =~= iv.take(i as int));
        }
        let item = &items[i];
        let it = match get_req_str(item, "type") {
            Ok(t) => t,
            Err(_) => {
                proof {
                    lemma_oa_items_err(iv, i as int);
                }
                return Err(Error::parse("unexpected schema".to_owned()));
            },
        };
        if str_eq(it.as_str(), "message") {
            if get_req_str(item, "id").is_err() {
                proof {
                    lemma_oa_items_err(iv, i as int);
                }
                return Err(Error::parse("unexpected schema".to_owned()));
            }
            let parts = match get_req_arr(item, "content") {
                Ok(p) => p,
                Err(_) => {
                    proof {
                        lemma_oa_items_err(iv, i as int);
                    }
                    return Err(Error::parse("unexpected schema".to_owned()));
                },
            };
            match oa_content_text(parts) {
                Ok(t) => {
                    content.append(t.as_str());
                },
                Err(_) => {
                    proof {
                        lemma_oa_items_err(iv, i as int);
                    }
                    return Err(Error::parse("unexpected schema".to_owned()));
                },
            }
        } else if str_eq(it.as_str(), "function_call") {
            if get_req_str(item, "id").is_err() {
                proof {
                    lemma_oa_items_err(iv, i as int);
                }
                return Err(Error::parse("unexpected schema".to_owned()));
            }
            let name = match get_req_str(item, "name") {
                Ok(s) => s.clone(),
                Err(_) => {
                    proof {
                        lemma_oa_items_err(iv, i as int);
                    }
                    return Err(Error::parse("unexpected schema".to_owned()));
                },
            };
            let args = match get_req_str(item, "arguments") {
                Ok(s) => s.clone(),
                Err(_) => {
                    proof {
                        lemma_oa_items_err(iv, i as int);
                    }
                    return Err(Error::parse("unexpected schema".to_owned()));
                },
            };
            let call_id = match get_req_str(item, "call_id") {
                Ok(s) => s.clone(),
                Err(_) => {
                    proof {
                        lemma_oa_items_err(iv, i as int);
                    }
                    return Err(Error::parse("unexpected schema".to_owned()));
                },
            };
            tool_calls.push(
                ToolCall {
                    id: call_id,
                    tool_type: "function".to_owned(),
                    function: FunctionCall { name, arguments: args },
                },
            );
        } else {
            proof {
                lemma_oa_items_err(iv, i as int);
            }
            return Err(Error::parse("unexpected schema".to_owned()));
        }
        proof {
            assert(spec_oa_items(iv.take(i + 1)) is Ok);
            assert(content@ =~= (spec_oa_items(iv.take(i + 1))->Ok_0).0);
            assert(tool_calls_view(tool_calls@) =~= (spec_oa_items(iv.take(i + 1))->Ok_0).1);
        }
        i = i + 1;
    }
    proof {
        assert(iv.take(items@.len() as int) =~= iv);
    }
    let finish_reason = if tool_calls.len() == 0 {
        if str_eq(status.as_str(), "completed") {
            FinishReason::Stop
        } else if str_eq(status.as_str(), "incomplete") {
            FinishReason::Length
        } else {
            FinishReason::Unknown
        }
    } else {
        FinishReason::ToolCalls
    };
    Ok(CompletionResult { content, usage, model, finish_reason, tool_calls })
}

/// How a parsed terminal response must relate to the body text.
pub open spec fn oa_response_matches(body: Seq<char>, r: Result<CompletionResult, Error>) -> bool {
    match spec_parse_json(body) {
        None => r matches Err(e) && e@ == ErrorV::Parse("invalid JSON"@),
        Some(j) => match spec_oa_response(j) {
            Ok(cv) => r matches Ok(c) && c@ == cv,
            Err(ev) => r matches Err(e) && e@ == ev,
        },
    }
}

} // verus!
