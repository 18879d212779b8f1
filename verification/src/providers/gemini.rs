//! Google Gemini adapter: model-specific endpoints, `contents` with `parts`,
//! usage on every event, and a stream that ends when the connection closes.

use vstd::prelude::*;

use crate::error::{Error, ErrorV};
use crate::json::{JsonValue, JsonV, fields_view, items_view, parse_json, spec_parse_json,
    spec_u64_dec, spec_milli_dec, spec_json_bytes, to_json_string, str_eq, spec_get, spec_obj_set};
use crate::providers::{RequestConfig, RequestConfigV, ToolChoice, ToolChoiceV, fold_obj_set,
    merge_extra, field_req_u32, get_req_u32, field_opt_u32, get_opt_u32, field_req_str,
    get_req_str, field_opt_str, get_opt_str, field_req_arr, get_req_arr, field_opt_arr,
    get_opt_arr, field_req_obj, get_req_obj, stops_view};
use crate::providers::cerebras::{spec_stops_json, fields_header_view};
use crate::providers::anthropic::first_system;
use crate::types::{Message, MessageV, MessageContent, MessageContentV, ContentPart, ContentPartV,
    ImageUrlV, Role, Usage, FinishReason, StreamChunk, ChunkV, spec_empty_chunk, ChunkKind,
    ToolCallDelta, ToolDeltaV, ToolCall, ToolCallV, FunctionCall, FunctionCallV, Tool, ToolV,
    CompletionResult, CompletionResultV, msgs_view, tool_calls_view, parts_view, tools_view,
    opt_str_view};

verus! {

use vstd::string::StrSliceExecFns;
use vstd::string::StringExecFns;
use vstd::utf8::valid_utf8;
use vstd::utf8::decode_utf8;

/// The prefix of inline JPEG data URIs that this protocol's encoder strips.
pub open spec fn jpeg_prefix() -> Seq<char> {
    "data:image/jpeg;base64,"@
}

/// Whether a string starts with the inline JPEG prefix.
pub open spec fn has_jpeg_prefix(s: Seq<char>) -> bool {
    s.len() >= 23 && s.subrange(0, 23) == jpeg_prefix()
}

fn strip_jpeg_prefix(url: &str) -> (r: String)
    ensures
        r@ == (if has_jpeg_prefix(url@) {
            url@.skip(23)
        } else {
            url@
        }),
{
    proof {
        reveal_strlit("data:image/jpeg;base64,");
    }
    let n = url.unicode_len();
    if n >= 23 {
        let head = url.substring_char(0, 23);
        if str_eq(head, "data:image/jpeg;base64,") {
            let rest = url.substring_char(23, n).to_owned();
            proof {
                assert(url@.subrange(0, 23) == jpeg_prefix());
            }
            return rest;
        }
    }
    proof {
        if has_jpeg_prefix(url@) {
            assert(false);
        }
    }
    url.to_owned()
}

/// The Gemini encoding of one content part: text, or inline JPEG data with
/// the data-URI prefix stripped.
pub open spec fn spec_gemini_part(p: ContentPartV) -> JsonV {
    match p {
        ContentPartV::Text { text } => JsonV::Obj(seq![("text"@, JsonV::Str(text))]),
        ContentPartV::ImageUrl { image_url } => JsonV::Obj(
            seq![
                (
                    "inline_data"@,
                    JsonV::Obj(
                        seq![
                            ("mime_type"@, JsonV::Str("image/jpeg"@)),
                            (
                                "data"@,
                                JsonV::Str(
                                    if has_jpeg_prefix(image_url.url) {
                                        image_url.url.skip(23)
                                    } else {
                                        image_url.url
                                    },
                                ),
                            ),
                        ],
                    ),
                ),
            ],
        ),
    }
}

pub open spec fn spec_gemini_parts(parts: Seq<ContentPartV>) -> Seq<JsonV> {
    Seq::new(
        parts.len(),
        |i: int|
            if 0 <= i < parts.len() {
                spec_gemini_part(parts[i])
            } else {
                JsonV::Null
            },
    )
}

/// The wire role: the assistant is `model`, tool results are `function`.
pub open spec fn spec_gemini_role(r: Role) -> Seq<char> {
    match r {
        Role::User => "user"@,
        Role::Assistant => "model"@,
        Role::Tool => "function"@,
        Role::System => "user"@,
    }
}

/// The Gemini encoding of one non-system message: a role and a `parts` list;
/// plain text becomes a single text part.
pub open spec fn spec_gemini_message(m: MessageV) -> JsonV {
    let parts = match m.content {
        MessageContentV::Text(text) => seq![JsonV::Obj(seq![("text"@, JsonV::Str(text))])],
        MessageContentV::Parts(ps) => spec_gemini_parts(ps),
    };
    JsonV::Obj(
        seq![("role"@, JsonV::Str(spec_gemini_role(m.role))), ("parts"@, JsonV::Arr(parts))],
    )
}

/// The non-system messages, encoded in order.
pub open spec fn spec_gemini_messages(msgs: Seq<MessageV>) -> Seq<JsonV>
    decreases msgs.len(),
{
    if msgs.len() == 0 {
        Seq::empty()
    } else {
        spec_gemini_messages(msgs.drop_last()) + (if msgs.last().role == Role::System {
            Seq::empty()
        } else {
            seq![spec_gemini_message(msgs.last())]
        })
    }
}

/// The system instruction: the first system message's plain text, wrapped in
/// a parts object.
pub open spec fn spec_gemini_system(msgs: Seq<MessageV>) -> Option<JsonV> {
    match first_system(msgs) {
        Some(m) => match m.content {
            MessageContentV::Text(s) => Some(
                JsonV::Obj(
                    seq![
                        (
                            "parts"@,
                            JsonV::Arr(seq![JsonV::Obj(seq![("text"@, JsonV::Str(s))])]),
                        ),
                    ],
                ),
            ),
            _ => None,
        },
        None => None,
    }
}

/// A system instruction from explicit text.
pub open spec fn spec_gemini_system_of(s: Seq<char>) -> JsonV {
    JsonV::Obj(
        seq![("parts"@, JsonV::Arr(seq![JsonV::Obj(seq![("text"@, JsonV::Str(s))])]))],
    )
}

/// The Gemini tool list: a single entry holding the function declarations,
/// each with name, description and parameters (absent ones travel as null).
pub open spec fn spec_gemini_decl(t: ToolV) -> JsonV {
    JsonV::Obj(
        seq![
            ("name"@, JsonV::Str(t.function.name)),
            (
                "description"@,
                match t.function.description {
                    Some(d) => JsonV::Str(d),
                    None => JsonV::Null,
                },
            ),
            (
                "parameters"@,
                match t.function.parameters {
                    Some(p) => p,
                    None => JsonV::Null,
                },
            ),
        ],
    )
}

pub open spec fn spec_gemini_decls(tools: Seq<ToolV>) -> Seq<JsonV> {
    Seq::new(
        tools.len(),
        |i: int|
            if 0 <= i < tools.len() {
                spec_gemini_decl(tools[i])
            } else {
                JsonV::Null
            },
    )
}

pub open spec fn spec_gemini_tools(tools: Seq<ToolV>) -> JsonV {
    JsonV::Arr(
        seq![
            JsonV::Obj(seq![("function_declarations"@, JsonV::Arr(spec_gemini_decls(tools)))]),
        ],
    )
}

/// The tool-choice mapping: AUTO, NONE, ANY, or ANY restricted to one name.
pub open spec fn spec_gemini_tool_config(c: ToolChoiceV) -> JsonV {
    match c {
        ToolChoiceV::Auto => JsonV::Obj(
            seq![
                (
                    "function_calling_config"@,
                    JsonV::Obj(seq![("mode"@, JsonV::Str("AUTO"@))]),
                ),
            ],
        ),
        ToolChoiceV::NoTools => JsonV::Obj(
            seq![
                (
                    "function_calling_config"@,
                    JsonV::Obj(seq![("mode"@, JsonV::Str("NONE"@))]),
                ),
            ],
        ),
        ToolChoiceV::Required => JsonV::Obj(
            seq![
                (
                    "function_calling_config"@,
                    JsonV::Obj(seq![("mode"@, JsonV::Str("ANY"@))]),
                ),
            ],
        ),
        ToolChoiceV::Function(name) => JsonV::Obj(
            seq![
                (
                    "function_calling_config"@,
                    JsonV::Obj(
                        seq![
                            ("mode"@, JsonV::Str("ANY"@)),
                            ("allowed_function_names"@, JsonV::Arr(seq![JsonV::Str(name)])),
                        ],
                    ),
                ),
            ],
        ),
    }
}

/// The generation parameters nested under `generationConfig`, present only
/// when at least one is set.
pub open spec fn spec_gen_config(cfg: RequestConfigV) -> Seq<(Seq<char>, JsonV)> {
    (match cfg.max_tokens {
        Some(n) => seq![("maxOutputTokens"@, JsonV::Num(spec_u64_dec(n as nat)))],
        None => Seq::empty(),
    }) + (match cfg.temperature_milli {
        Some(t) => seq![("temperature"@, JsonV::Num(spec_milli_dec(t as nat)))],
        None => Seq::empty(),
    }) + (match cfg.top_p_milli {
        Some(t) => seq![("topP"@, JsonV::Num(spec_milli_dec(t as nat)))],
        None => Seq::empty(),
    }) + (match cfg.stop {
        Some(stop) => seq![("stopSequences"@, JsonV::Arr(spec_stops_json(stop)))],
        None => Seq::empty(),
    })
}

/// The whole request body, shared by streaming and terminal requests.
pub open spec fn spec_gemini_body_fields(msgs: Seq<MessageV>, cfg: RequestConfigV) -> Seq<
    (Seq<char>, JsonV),
> {
    let base = seq![("contents"@, JsonV::Arr(spec_gemini_messages(msgs)))];
    let with_msg_sys = match spec_gemini_system(msgs) {
        Some(s) => spec_obj_set(base, "system_instruction"@, s),
        None => base,
    };
    let with_sys = match cfg.system {
        Some(s) => spec_obj_set(with_msg_sys, "system_instruction"@, spec_gemini_system_of(s)),
        None => with_msg_sys,
    };
    let with_gen = if spec_gen_config(cfg).len() > 0 {
        spec_obj_set(with_sys, "generationConfig"@, JsonV::Obj(spec_gen_config(cfg)))
    } else {
        with_sys
    };
    let with_tools = match cfg.tools {
        Some(tools) => spec_obj_set(with_gen, "tools"@, spec_gemini_tools(tools)),
        None => with_gen,
    };
    match cfg.tool_choice {
        Some(c) => spec_obj_set(with_tools, "tool_config"@, spec_gemini_tool_config(c)),
        None => with_tools,
    }
}

pub open spec fn spec_gemini_body(msgs: Seq<MessageV>, cfg: RequestConfigV) -> JsonV {
    JsonV::Obj(
        match cfg.extra {
            Some(e) => fold_obj_set(spec_gemini_body_fields(msgs, cfg), e),
            None => spec_gemini_body_fields(msgs, cfg),
        },
    )
}

fn gemini_part(p: &ContentPart) -> (r: JsonValue)
    ensures
        r@ == spec_gemini_part(p@),
{
    match p {
        ContentPart::Text { text } => {
            let mut fields: Vec<(String, JsonValue)> = Vec::new();
            fields.push(("text".to_owned(), JsonValue::Str(text.clone())));
            let ghost fv = fields_view(fields@);
            let r = JsonValue::Obj(fields);
            proof {
                broadcast use crate::json::lemma_jv_view_obj;

                assert(fv =~= spec_gemini_part(p@)->Obj_0);
            }
            r
        },
        ContentPart::ImageUrl { image_url } => {
            let mut inner: Vec<(String, JsonValue)> = Vec::new();
            inner.push(("mime_type".to_owned(), JsonValue::string("image/jpeg")));
            inner.push(("data".to_owned(), JsonValue::Str(strip_jpeg_prefix(image_url.url.as_str()))));
            let ghost iv = fields_view(inner@);
            let mut fields: Vec<(String, JsonValue)> = Vec::new();
            fields.push(("inline_data".to_owned(), JsonValue::Obj(inner)));
            let ghost fv = fields_view(fields@);
            let r = JsonValue::Obj(fields);
            proof {
                broadcast use crate::json::lemma_jv_view_obj;

                assert(iv =~= spec_gemini_part(p@)->Obj_0[0].1->Obj_0);
                assert(fv =~= spec_gemini_part(p@)->Obj_0);
            }
            r
        },
    }
}

fn gemini_message(m: &Message) -> (r: JsonValue)
    ensures
        r@ == spec_gemini_message(m@),
{
    let parts: Vec<JsonValue> = match &m.content {
        MessageContent::Text(text) => {
            let mut tf: Vec<(String, JsonValue)> = Vec::new();
            tf.push(("text".to_owned(), JsonValue::Str(text.clone())));
            let ghost tfv = fields_view(tf@);
            let mut out: Vec<JsonValue> = Vec::new();
            out.push(JsonValue::Obj(tf));
            proof {
                broadcast use crate::json::lemma_jv_view_obj;

                assert(tfv =~= seq![("text"@, JsonV::Str(text@))]);
                assert(items_view(out@) =~= seq![
                    JsonV::Obj(seq![("text"@, JsonV::Str(text@))]),
                ]);
            }
            out
        },
        MessageContent::Parts(ps) => {
            let mut out: Vec<JsonValue> = Vec::new();
            let ghost pv = parts_view(ps@);
            let mut i: usize = 0;
            #[verifier::loop_isolation(false)]
            while i < ps.len()
                invariant
                    0 <= i <= ps.len(),
                    pv == parts_view(ps@),
                    items_view(out@) == spec_gemini_parts(pv).take(i as int),
                decreases ps.len() - i,
            {
                out.push(gemini_part(&ps[i]));
                proof {
                    assert(items_view(out@) =~= spec_gemini_parts(pv).take(i + 1));
                }
                i = i + 1;
            }
            proof {
                assert(items_view(out@) =~= spec_gemini_parts(pv));
            }
            out
        },
    };
    let role: &str = match m.role {
        Role::User => "user",
        Role::Assistant => "model",
        Role::Tool => "function",
        Role::System => "user",
    };
    let ghost partsv = items_view(parts@);
    let mut fields: Vec<(String, JsonValue)> = Vec::new();
    fields.push(("role".to_owned(), JsonValue::string(role)));
    fields.push(("parts".to_owned(), JsonValue::Arr(parts)));
    let ghost fv = fields_view(fields@);
    let r = JsonValue::Obj(fields);
    proof {
        broadcast use crate::json::lemma_jv_view_obj;
        broadcast use crate::json::lemma_jv_view_arr;

        assert(fv =~= spec_gemini_message(m@)->Obj_0);
    }
    r
}

/// Gemini API provider.
pub struct GeminiProvider {
    pub base_url: String,
    /// Send the API key as a query parameter instead of a header.
    pub api_key_in_query: bool,
}

impl GeminiProvider {
    /// The provider with its production endpoint and header auth.
    pub fn new() -> (r: Self)
        ensures
            r.base_url@ == "https://generativelanguage.googleapis.com/v1beta"@,
            r.api_key_in_query == false,
    {
        GeminiProvider {
            base_url: "https://generativelanguage.googleapis.com/v1beta".to_owned(),
            api_key_in_query: false,
        }
    }

    /// Switch to query-parameter auth.
    pub fn with_query_auth(self) -> (r: Self)
        ensures
            r.base_url == self.base_url,
            r.api_key_in_query == true,
    {
        GeminiProvider { api_key_in_query: true, ..self }
    }

    /// The provider pointed at another base URL.
    pub fn with_base_url(self, base_url: &str) -> (r: Self)
        ensures
            r.base_url@ == base_url@,
            r.api_key_in_query == self.api_key_in_query,
    {
        GeminiProvider { base_url: base_url.to_owned(), ..self }
    }

    /// The provider's name.
    pub fn name(&self) -> (r: &'static str)
        ensures
            r@ == "gemini"@,
    {
        "gemini"
    }

    /// The base URL requests go to.
    pub fn base_url(&self) -> (r: &str)
        ensures
            r@ == self.base_url@,
    {
        self.base_url.as_str()
    }

    /// Request headers: JSON content type, and the key header unless query
    /// auth was chosen.
    pub fn headers(&self, api_key: &str) -> (r: Vec<(String, String)>)
        ensures
            fields_header_view(r@) == (if self.api_key_in_query {
                seq![("content-type"@, "application/json"@)]
            } else {
                seq![
                    ("content-type"@, "application/json"@),
                    ("x-goog-api-key"@, api_key@),
                ]
            }),
    {
        let mut out: Vec<(String, String)> = Vec::new();
        out.push(("content-type".to_owned(), "application/json".to_owned()));
        if !self.api_key_in_query {
            out.push(("x-goog-api-key".to_owned(), api_key.to_owned()));
            proof {
                assert(fields_header_view(out@) =~= seq![
                    ("content-type"@, "application/json"@),
                    ("x-goog-api-key"@, api_key@),
                ]);
            }
        } else {
            proof {
                assert(fields_header_view(out@) =~= seq![
                    ("content-type"@, "application/json"@),
                ]);
            }
        }
        out
    }

    /// The URL for streaming requests: the model-specific SSE endpoint, with
    /// the key appended when query auth is chosen.
    pub fn stream_url(&self, model: &str, api_key: &str) -> (r: String)
        ensures
            r@ == (if self.api_key_in_query {
                self.base_url@ + "/models/"@ + model@ + ":streamGenerateContent?alt=sse"@ + "&key="@
                    + api_key@
            } else {
                self.base_url@ + "/models/"@ + model@ + ":streamGenerateContent?alt=sse"@
            }),
    {
        let base = self.base_url.clone().concat("/models/").concat(model).concat(
            ":streamGenerateContent?alt=sse",
        );
        if self.api_key_in_query {
            base.concat("&key=").concat(api_key)
        } else {
            base
        }
    }

    /// The URL for terminal requests.
    pub fn complete_url(&self, model: &str, api_key: &str) -> (r: String)
        ensures
            r@ == (if self.api_key_in_query {
                self.base_url@ + "/models/"@ + model@ + ":generateContent"@ + "?key="@ + api_key@
            } else {
                self.base_url@ + "/models/"@ + model@ + ":generateContent"@
            }),
    {
        let base = self.base_url.clone().concat("/models/").concat(model).concat(
            ":generateContent",
        );
        if self.api_key_in_query {
            base.concat("?key=").concat(api_key)
        } else {
            base
        }
    }

    /// Convert the non-system messages, in order.
    #[verifier::loop_isolation(false)]
    pub fn convert_messages(&self, messages: &[Message]) -> (r: Vec<JsonValue>)
        ensures
            items_view(r@) == spec_gemini_messages(msgs_view(messages@)),
    {
        let ghost mv = msgs_view(messages@);
        let mut msgs: Vec<JsonValue> = Vec::new();
        let mut i: usize = 0;
        proof {
            assert(mv.take(0) =~= Seq::<MessageV>::empty());
        }
        while i < messages.len()
            invariant
                0 <= i <= messages@.len(),
                mv == msgs_view(messages@),
                items_view(msgs@) == spec_gemini_messages(mv.take(i as int)),
            decreases messages@.len() - i,
        {
            proof {
                assert(mv.take(i + 1).drop_last() =~= mv.take(i as int));
            }
            if !matches!(messages[i].role, Role::System) {
                msgs.push(gemini_message(&messages[i]));
            }
            proof {
                assert(items_view(msgs@) =~= spec_gemini_messages(mv.take(i + 1)));
            }
            i = i + 1;
        }
        proof {
            assert(mv.take(messages@.len() as int) =~= mv);
        }
        msgs
    }

    /// Extract the system instruction from the first system message.
    #[verifier::loop_isolation(false)]
    pub fn extract_system(&self, messages: &[Message]) -> (r: Option<JsonValue>)
        ensures
            match r {
                Some(v) => spec_gemini_system(msgs_view(messages@)) == Some(v@),
                None => spec_gemini_system(msgs_view(messages@)) is None,
            },
    {
        let ghost mv = msgs_view(messages@);
        let n = messages.len();
        let mut k: usize = 0;
        while k < n && !matches!(messages[k].role, Role::System)
            invariant
                0 <= k <= n,
                n == messages@.len(),
                mv == msgs_view(messages@),
                forall|j: int| 0 <= j < k ==> mv[j].role != Role::System,
            decreases n - k,
        {
            k = k + 1;
        }
        if k < n {
            proof {
                crate::providers::anthropic::lemma_first_system_at(mv, k as int);
            }
            match messages[k].content.as_text() {
                Some(t) => {
                    let mut tf: Vec<(String, JsonValue)> = Vec::new();
                    tf.push(("text".to_owned(), JsonValue::Str(t.clone())));
                    let ghost tfv = fields_view(tf@);
                    let mut arr: Vec<JsonValue> = Vec::new();
                    arr.push(JsonValue::Obj(tf));
                    let ghost av = items_view(arr@);
                    let mut fields: Vec<(String, JsonValue)> = Vec::new();
                    fields.push(("parts".to_owned(), JsonValue::Arr(arr)));
                    let ghost fv = fields_view(fields@);
                    let r = JsonValue::Obj(fields);
                    proof {
                        broadcast use crate::json::lemma_jv_view_obj;
                        broadcast use crate::json::lemma_jv_view_arr;

                        assert(tfv =~= seq![("text"@, JsonV::Str(t@))]);
                        assert(av =~= seq![JsonV::Obj(seq![("text"@, JsonV::Str(t@))])]);
                        assert(fv =~= spec_gemini_system(mv)->0->Obj_0);
                    }
                    Some(r)
                },
                None => None,
            }
        } else {
            proof {
                crate::providers::anthropic::lemma_first_system_none(mv);
            }
            None
        }
    }

    /// Build the whole request body, used for both streaming and terminal
    /// requests.
    #[verifier::loop_isolation(false)]
    #[verifier::rlimit(100)]
    fn build_body(&self, _model: &str, messages: &[Message], config: &RequestConfig) -> (r: Result<
        JsonValue,
        Error,
    >)
        ensures
            r matches Ok(b) && b@ == spec_gemini_body(msgs_view(messages@), config@),
    {
        let ghost mv = msgs_view(messages@);
        let contents = self.convert_messages(messages);
        let mut fields: Vec<(String, JsonValue)> = Vec::new();
        fields.push(("contents".to_owned(), JsonValue::Arr(contents)));
        let ghost g0 = seq![("contents"@, JsonV::Arr(spec_gemini_messages(mv)))];
        proof {
            broadcast use crate::json::lemma_jv_view_arr;

            assert(fields_view(fields@) =~= g0);
        }
        if let Some(sys) = self.extract_system(messages) {
            crate::json::obj_set(&mut fields, "system_instruction".to_owned(), sys);
        }
        let ghost g1 = match spec_gemini_system(mv) {
            Some(s) => spec_obj_set(g0, "system_instruction"@, s),
            None => g0,
        };
        proof {
            assert(fields_view(fields@) == g1);
        }
        if let Some(s) = &config.system {
            let mut tf: Vec<(String, JsonValue)> = Vec::new();
            tf.push(("text".to_owned(), JsonValue::Str(s.clone())));
            let ghost tfv = fields_view(tf@);
            let mut arr: Vec<JsonValue> = Vec::new();
            arr.push(JsonValue::Obj(tf));
            let ghost av = items_view(arr@);
            let mut sysf: Vec<(String, JsonValue)> = Vec::new();
            sysf.push(("parts".to_owned(), JsonValue::Arr(arr)));
            let ghost sfv = fields_view(sysf@);
            let sys = JsonValue::Obj(sysf);
            proof {
                broadcast use crate::json::lemma_jv_view_obj;
                broadcast use crate::json::lemma_jv_view_arr;

                assert(tfv =~= seq![("text"@, JsonV::Str(s@))]);
                assert(av =~= seq![JsonV::Obj(seq![("text"@, JsonV::Str(s@))])]);
                assert(sfv =~= spec_gemini_system_of(s@)->Obj_0);
                assert(sys@ == spec_gemini_system_of(s@));
            }
            crate::json::obj_set(&mut fields, "system_instruction".to_owned(), sys);
        }
        let ghost g2 = match config@.system {
            Some(s) => spec_obj_set(g1, "system_instruction"@, spec_gemini_system_of(s)),
            None => g1,
        };
        proof {
            assert(fields_view(fields@) == g2);
        }
        // generation parameters
        let mut gen: Vec<(String, JsonValue)> = Vec::new();
        if let Some(n) = config.max_tokens {
            gen.push(("maxOutputTokens".to_owned(), JsonValue::from_u64(n as u64)));
        }
        if let Some(t) = config.temperature_milli {
            gen.push(("temperature".to_owned(), JsonValue::from_milli(t)));
        }
        if let Some(t) = config.top_p_milli {
            gen.push(("topP".to_owned(), JsonValue::from_milli(t)));
        }
        if let Some(stop) = &config.stop {
            let mut out: Vec<JsonValue> = Vec::new();
            let ghost sv = stops_view(stop@);
            let mut j: usize = 0;
            while j < stop.len()
                invariant
                    0 <= j <= stop@.len(),
                    sv == stops_view(stop@),
                    items_view(out@) == spec_stops_json(sv).take(j as int),
                decreases stop@.len() - j,
            {
                out.push(JsonValue::Str(stop[j].clone()));
                proof {
                    assert(items_view(out@) =~= spec_stops_json(sv).take(j + 1));
                }
                j = j + 1;
            }
            proof {
                assert(items_view(out@) =~= spec_stops_json(sv));
            }
            gen.push(("stopSequences".to_owned(), JsonValue::Arr(out)));
        }
        proof {
            broadcast use crate::json::lemma_jv_view_arr;

            assert(fields_view(gen@) =~= spec_gen_config(config@));
        }
        if gen.len() > 0 {
            let ghost genv = fields_view(gen@);
            crate::json::obj_set(&mut fields, "generationConfig".to_owned(), JsonValue::Obj(gen));
        }
        let ghost g3 = if spec_gen_config(config@).len() > 0 {
            spec_obj_set(g2, "generationConfig"@, JsonV::Obj(spec_gen_config(config@)))
        } else {
            g2
        };
        proof {
            broadcast use crate::json::lemma_jv_view_obj;

            assert(fields_view(fields@) == g3);
        }
        // tools
        if let Some(tools) = &config.tools {
            let mut decls: Vec<JsonValue> = Vec::new();
            let ghost tv = tools_view(tools@);
            let mut j: usize = 0;
            while j < tools.len()
                invariant
                    0 <= j <= tools@.len(),
                    tv == tools_view(tools@),
                    items_view(decls@) == spec_gemini_decls(tv).take(j as int),
                decreases tools@.len() - j,
            {
                let t = &tools[j];
                let mut tf: Vec<(String, JsonValue)> = Vec::new();
                tf.push(("name".to_owned(), JsonValue::Str(t.function.name.clone())));
                tf.push(
                    (
                        "description".to_owned(),
                        match &t.function.description {
                            Some(d) => JsonValue::Str(d.clone()),
                            None => JsonValue::Null,
                        },
                    ),
                );
                tf.push(
                    (
                        "parameters".to_owned(),
                        match &t.function.parameters {
                            Some(p) => p.clone_value(),
                            None => JsonValue::Null,
                        },
                    ),
                );
                let ghost tfv = fields_view(tf@);
                decls.push(JsonValue::Obj(tf));
                proof {
                    broadcast use crate::json::lemma_jv_view_obj;

                    assert(tfv =~= spec_gemini_decl(tv[j as int])->Obj_0);
                    assert(items_view(decls@) =~= spec_gemini_decls(tv).take(j + 1));
                }
                j = j + 1;
            }
            proof {
                assert(items_view(decls@) =~= spec_gemini_decls(tv));
            }
            let mut entry: Vec<(String, JsonValue)> = Vec::new();
            entry.push(("function_declarations".to_owned(), JsonValue::Arr(decls)));
            let ghost ev = fields_view(entry@);
            let mut arr: Vec<JsonValue> = Vec::new();
            arr.push(JsonValue::Obj(entry));
            let ghost av = items_view(arr@);
            let tools_json = JsonValue::Arr(arr);
            proof {
                broadcast use crate::json::lemma_jv_view_obj;
                broadcast use crate::json::lemma_jv_view_arr;

                assert(ev =~= seq![
                    ("function_declarations"@, JsonV::Arr(spec_gemini_decls(tv))),
                ]);
                assert(av =~= spec_gemini_tools(tv)->Arr_0);
                assert(tools_json@ == spec_gemini_tools(tv));
            }
            crate::json::obj_set(&mut fields, "tools".to_owned(), tools_json);
        }
        let ghost g4 = match config@.tools {
            Some(tools) => spec_obj_set(g3, "tools"@, spec_gemini_tools(tools)),
            None => g3,
        };
        proof {
            assert(fields_view(fields@) == g4);
        }
        // tool choice
        if let Some(choice) = &config.tool_choice {
            let mut inner: Vec<(String, JsonValue)> = Vec::new();
            match choice {
                ToolChoice::Auto => {
                    inner.push(("mode".to_owned(), JsonValue::string("AUTO")));
                },
                ToolChoice::NoTools => {
                    inner.push(("mode".to_owned(), JsonValue::string("NONE")));
                },
                ToolChoice::Required => {
                    inner.push(("mode".to_owned(), JsonValue::string("ANY")));
                },
                ToolChoice::Function(name) => {
                    inner.push(("mode".to_owned(), JsonValue::string("ANY")));
                    let mut names: Vec<JsonValue> = Vec::new();
                    names.push(JsonValue::Str(name.clone()));
                    proof {
                        assert(items_view(names@) =~= seq![JsonV::Str(name@)]);
                    }
                    inner.push(("allowed_function_names".to_owned(), JsonValue::Arr(names)));
                },
            }
            let ghost iv = fields_view(inner@);
            let mut cf: Vec<(String, JsonValue)> = Vec::new();
            cf.push(("function_calling_config".to_owned(), JsonValue::Obj(inner)));
            let ghost cfv = fields_view(cf@);
            let tc = JsonValue::Obj(cf);
            proof {
                broadcast use crate::json::lemma_jv_view_obj;
                broadcast use crate::json::lemma_jv_view_arr;

                assert(iv =~= spec_gemini_tool_config(choice@)->Obj_0[0].1->Obj_0);
                assert(cfv =~= spec_gemini_tool_config(choice@)->Obj_0);
                assert(tc@ == spec_gemini_tool_config(choice@));
            }
            crate::json::obj_set(&mut fields, "tool_config".to_owned(), tc);
        }
        let ghost g5 = match config@.tool_choice {
            Some(c) => spec_obj_set(g4, "tool_config"@, spec_gemini_tool_config(c)),
            None => g4,
        };
        proof {
            assert(fields_view(fields@) == g5);
            assert(g5 == spec_gemini_body_fields(mv, config@));
        }
        merge_extra(&mut fields, &config.extra);
        proof {
            if config.extra is Some {
                let e = config.extra->0;
                assert(config@.extra == Some(fields_view(e@)));
                assert(fields_view(fields@) == fold_obj_set(g5, fields_view(e@)));
            } else {
                assert(config@.extra is None);
                assert(fields_view(fields@) == g5);
            }
        }
        let ghost fv = fields_view(fields@);
        let r = JsonValue::Obj(fields);
        proof {
            broadcast use crate::json::lemma_jv_view_obj;

            assert(r@ == spec_gemini_body(mv, config@));
        }
        Ok(r)
    }

    /// Build the body for a streaming completion.
    pub fn build_stream_body(&self, model: &str, messages: &[Message], config: &RequestConfig) -> (r:
        Result<JsonValue, Error>)
        ensures
            r matches Ok(b) && b@ == spec_gemini_body(msgs_view(messages@), config@),
    {
        self.build_body(model, messages, config)
    }

    /// Build the body for a terminal completion.
    pub fn build_complete_body(&self, model: &str, messages: &[Message], config: &RequestConfig) -> (
        r: Result<JsonValue, Error>)
        ensures
            r matches Ok(b) && b@ == spec_gemini_body(msgs_view(messages@), config@),
    {
        self.build_body(model, messages, config)
    }

    /// Create the event decoder for this provider's stream.
    pub fn create_parser(&self) -> (r: GeminiParser)
        ensures
            r@ is None,
    {
        GeminiParser::new()
    }

    /// Parse a terminal (non-streaming) response body.
    pub fn parse_response(&self, body: &str) -> (r: Result<CompletionResult, Error>)
        ensures
            gemini_response_matches(body@, r),
    {
        let v = match parse_json(body) {
            Some(v) => v,
            None => {
                return Err(Error::parse("invalid JSON".to_owned()));
            },
        };
        decode_gemini_response(&v)
    }
}

/// The usage metadata of this protocol: a required prompt count, optional
/// candidate and cached counts.
pub open spec fn spec_gemini_usage(j: JsonV) -> Result<Usage, ()> {
    match (
        field_req_u32(j, "promptTokenCount"@),
        field_opt_u32(j, "candidatesTokenCount"@),
        field_opt_u32(j, "cachedContentTokenCount"@),
    ) {
        (Ok(p), Ok(c), Ok(cc)) => Ok(
            Usage {
                input_tokens: p,
                output_tokens: match c {
                    Some(n) => n,
                    None => 0,
                },
                cache_read_input_tokens: match cc {
                    Some(n) => n,
                    None => 0,
                },
                cache_creation_input_tokens: 0,
            },
        ),
        _ => Err(()),
    }
}

fn decode_gemini_usage(v: &JsonValue) -> (r: Result<Usage, ()>)
    ensures
        match r {
            Ok(u) => spec_gemini_usage(v@) == Ok::<Usage, ()>(u),
            Err(_) => spec_gemini_usage(v@) is Err,
        },
{
    let p = match get_req_u32(v, "promptTokenCount") {
        Ok(x) => x,
        Err(_) => {
            return Err(());
        },
    };
    let c = match get_opt_u32(v, "candidatesTokenCount") {
        Ok(x) => x,
        Err(_) => {
            return Err(());
        },
    };
    let cc = match get_opt_u32(v, "cachedContentTokenCount") {
        Ok(x) => x,
        Err(_) => {
            return Err(());
        },
    };
    Ok(
        Usage {
            input_tokens: p,
            output_tokens: match c {
                Some(n) => n,
                None => 0,
            },
            cache_read_input_tokens: match cc {
                Some(n) => n,
                None => 0,
            },
            cache_creation_input_tokens: 0,
        },
    )
}

/// The Gemini finish-reason mapping.
pub open spec fn spec_gemini_finish(s: Seq<char>) -> FinishReason {
    if s == "STOP"@ {
        FinishReason::Stop
    } else if s == "MAX_TOKENS"@ {
        FinishReason::Length
    } else if s == "SAFETY"@ {
        FinishReason::ContentFilter
    } else {
        FinishReason::Unknown
    }
}

/// The text of a content object: the concatenation of its parts' `text`
/// fields, in order; parts without text contribute nothing; a text field of
/// the wrong type refuses.
pub open spec fn spec_parts_text(parts: Seq<JsonV>) -> Result<Seq<char>, ()>
    decreases parts.len(),
{
    if parts.len() == 0 {
        Ok(Seq::empty())
    } else {
        match (spec_parts_text(parts.drop_last()), field_opt_str(parts.last(), "text"@)) {
            (Ok(t), Ok(Some(s))) => Ok(t + s),
            (Ok(t), Ok(None)) => Ok(t),
            _ => Err(()),
        }
    }
}

/// The first function call among the parts: its name and the JSON text of
/// its arguments (which must render as UTF-8).
pub open spec fn spec_first_fc(parts: Seq<JsonV>) -> Result<Option<(Seq<char>, Seq<char>)>, ()>
    decreases parts.len(),
{
    if parts.len() == 0 {
        Ok(None)
    } else {
        match spec_get(parts[0], "functionCall"@) {
            Some(fc) => match (field_req_str(fc, "name"@), spec_get(fc, "args"@)) {
                (Ok(name), Some(args)) => if valid_utf8(spec_json_bytes(args)) {
                    Ok(Some((name, decode_utf8(spec_json_bytes(args)))))
                } else {
                    Err(())
                },
                _ => Err(()),
            },
            None => spec_first_fc(parts.skip(1)),
        }
    }
}

fn parts_text(parts: &Vec<JsonValue>) -> (r: Result<String, ()>)
    ensures
        match r {
            Ok(s) => spec_parts_text(items_view(parts@)) == Ok::<Seq<char>, ()>(s@),
            Err(_) => spec_parts_text(items_view(parts@)) is Err,
        },
{
    let ghost pv = items_view(parts@);
    let mut out = String::new();
    let mut i: usize = 0;
    proof {
        assert(pv.take(0) =~= Seq::<JsonV>::empty());
    }
    #[verifier::loop_isolation(false)]
    while i < parts.len()
        invariant
            0 <= i <= parts@.len(),
            pv == items_view(parts@),
            spec_parts_text(pv.take(i as int)) == Ok::<Seq<char>, ()>(out@),
        decreases parts@.len() - i,
    {
        proof {
            assert(pv.take(i + 1).drop_last() =~= pv.take(i as int));
        }
        match get_opt_str(&parts[i], "text") {
            Ok(Some(s)) => {
                out.append(s.as_str());
            },
            Ok(None) => {},
            Err(_) => {
                proof {
                    lemma_parts_text_err(pv, i as int);
                }
                return Err(());
            },
        }
        i = i + 1;
    }
    proof {
        assert(pv.take(parts@.len() as int) =~= pv);
    }
    Ok(out)
}

proof fn lemma_parts_text_err(parts: Seq<JsonV>, k: int)
    requires
        0 <= k < parts.len(),
        field_opt_str(parts[k], "text"@) is Err,
    ensures
        spec_parts_text(parts) is Err,
    decreases parts.len(),
{
    if k < parts.len() - 1 {
        lemma_parts_text_err(parts.drop_last(), k);
    }
}

fn first_fc(parts: &Vec<JsonValue>) -> (r: Result<Option<(String, String)>, ()>)
    ensures
        match r {
            Ok(Some((n, a))) => spec_first_fc(items_view(parts@)) == Ok::<
                Option<(Seq<char>, Seq<char>)>,
                (),
            >(Some((n@, a@))),
            Ok(None) => spec_first_fc(items_view(parts@)) == Ok::<
                Option<(Seq<char>, Seq<char>)>,
                (),
            >(None),
            Err(_) => spec_first_fc(items_view(parts@)) is Err,
        },
{
    let ghost pv = items_view(parts@);
    proof {
        assert(pv.skip(0) =~= pv);
    }
    let mut i: usize = 0;
    #[verifier::loop_isolation(false)]
    while i < parts.len()
        invariant
            0 <= i <= parts@.len(),
            pv == items_view(parts@),
            spec_first_fc(pv) == spec_first_fc(pv.skip(i as int)),
            forall|j: int| 0 <= j < i ==> spec_get(#[trigger] pv[j], "functionCall"@) is None,
        decreases parts@.len() - i,
    {
        match parts[i].get("functionCall") {
            Some(fc) => {
                let name = match get_req_str(fc, "name") {
                    Ok(s) => s.clone(),
                    Err(_) => {
                        proof {
                            assert(pv.skip(i as int)[0] == pv[i as int]);
                        }
                        return Err(());
                    },
                };
                let args = match fc.get("args") {
                    Some(a) => a,
                    None => {
                        proof {
                            assert(pv.skip(i as int)[0] == pv[i as int]);
                        }
                        return Err(());
                    },
                };
                match to_json_string(args) {
                    Some(s) => {
                        proof {
                            assert(pv.skip(i as int)[0] == pv[i as int]);
                        }
                        return Ok(Some((name, s)));
                    },
                    None => {
                        proof {
                            assert(pv.skip(i as int)[0] == pv[i as int]);
                        }
                        return Err(());
                    },
                }
            },
            None => {
                proof {
                    assert(pv.skip(i as int)[0] == pv[i as int]);
                    assert(pv.skip(i as int).skip(1) =~= pv.skip(i + 1));
                }
                i = i + 1;
            },
        }
    }
    proof {
        assert(pv.skip(parts@.len() as int).len() == 0);
    }
    Ok(None)
}

/// Decoder state for this protocol: the last usage metadata seen, attached
/// to every emitted chunk.
pub struct GeminiParser {
    pub last_usage: Option<Usage>,
}

impl View for GeminiParser {
    type V = Option<Usage>;

    open spec fn view(&self) -> Option<Usage> {
        self.last_usage
    }
}

/// One decoding step: the new remembered usage and the outcome. The tool
/// delta's id is random and stands outside this function: the caller's
/// contract quantifies over it.
pub open spec fn spec_gemini_step(st: Option<Usage>, j: JsonV, rand: u32) -> (
    Option<Usage>,
    Result<Option<ChunkV>, ErrorV>,
) {
    let schema_err = ErrorV::Parse("unexpected schema"@);
    let st1 = match spec_get(j, "usageMetadata"@) {
        Some(uj) => match spec_gemini_usage(uj) {
            Ok(u) => Some(u),
            Err(_) => st,
        },
        None => st,
    };
    let usage_bad = match spec_get(j, "usageMetadata"@) {
        Some(uj) => spec_gemini_usage(uj) is Err,
        None => false,
    };
    if usage_bad {
        (st, Err(schema_err))
    } else {
        match field_req_arr(j, "candidates"@) {
            Err(_) => (st1, Err(schema_err)),
            Ok(cands) => if cands.len() == 0 {
                match st1 {
                    Some(u) => (
                        st1,
                        Ok(
                            Some(
                                ChunkV {
                                    usage: Some(u),
                                    ..spec_empty_chunk(ChunkKind::UsageOnly)
                                },
                            ),
                        ),
                    ),
                    None => (st1, Ok(None)),
                }
            } else {
                let cand = cands[0];
                let content = spec_get(cand, "content"@);
                match (content, field_opt_str(cand, "finishReason"@)) {
                    (Some(c), Ok(finish)) => match field_req_arr(c, "parts"@) {
                        Err(_) => (st1, Err(schema_err)),
                        Ok(parts) => match (spec_parts_text(parts), spec_first_fc(parts)) {
                            (Ok(text), Ok(fc)) => (
                                st1,
                                Ok(Some(spec_gemini_chunk(st1, text, fc, finish, rand))),
                            ),
                            _ => (st1, Err(schema_err)),
                        },
                    },
                    (None, Ok(finish)) => (
                        st1,
                        Ok(
                            Some(
                                spec_gemini_chunk(st1, Seq::empty(), None, finish, rand),
                            ),
                        ),
                    ),
                    _ => (st1, Err(schema_err)),
                }
            },
        }
    }
}

/// The chunk one candidate yields: its text when there is any, else a tool
/// delta from the first function call (with a random id), else an unknown
/// chunk; the finish reason mapped and the remembered usage attached.
pub open spec fn spec_gemini_chunk(
    st: Option<Usage>,
    text: Seq<char>,
    fc: Option<(Seq<char>, Seq<char>)>,
    finish: Option<Seq<char>>,
    rand: u32,
) -> ChunkV {
    let base = if text.len() > 0 {
        ChunkV { kind: ChunkKind::Text, text: text, ..spec_empty_chunk(ChunkKind::Text) }
    } else {
        match fc {
            Some((name, args)) => (ChunkV {
                kind: ChunkKind::ToolDelta,
                tool_call_delta: Some(
                    ToolDeltaV {
                        index: 0,
                        id: Some("call_"@ + spec_u64_dec(rand as nat)),
                        function_name: Some(name),
                        function_arguments: Some(args),
                    },
                ),
                ..spec_empty_chunk(ChunkKind::ToolDelta)
            }),
            None => spec_empty_chunk(ChunkKind::Unknown),
        }
    };
    ChunkV {
        finish_reason: match finish {
            Some(s) => Some(spec_gemini_finish(s)),
            None => None,
        },
        usage: st,
        ..base
    }
}

/// Relies on `fastrand::u32`: some pseudo-random number; nothing is promised
/// of its value.
#[verifier::external_body]
fn random_u32() -> (r: u32) {
    fastrand::u32(..)
}

/// How one decoded event must relate to the payload text and the states, for
/// some value of the random tool-call id.
pub open spec fn gemini_chunk_matches(
    data: Seq<char>,
    st0: Option<Usage>,
    st1: Option<Usage>,
    r: Result<Option<StreamChunk>, Error>,
    rand: u32,
) -> bool {
    match spec_parse_json(data) {
        None => st1 == st0 && (r matches Err(e) && e@ == ErrorV::Parse("invalid JSON"@)),
        Some(j) => {
            let (st2, out) = spec_gemini_step(st0, j, rand);
            st1 == st2 && (match out {
                Ok(None) => r matches Ok(None),
                Ok(Some(cv)) => r matches Ok(Some(ch)) && ch@ == cv,
                Err(ev) => r matches Err(e) && e@ == ev,
            })
        },
    }
}

impl GeminiParser {
    /// Create a decoder with no usage seen yet.
    pub fn new() -> (r: Self)
        ensures
            r@ is None,
    {
        GeminiParser { last_usage: None }
    }

    /// The Gemini stream has no sentinel; it ends when the connection does.
    pub fn is_end_of_stream(&self, _data: &str) -> (r: bool)
        ensures
            r == false,
    {
        false
    }

    /// Decode one SSE data payload into at most one chunk, keeping the last
    /// usage metadata seen.
    #[verifier::rlimit(30)]
    pub fn parse_chunk(&mut self, data: &str) -> (r: Result<Option<StreamChunk>, Error>)
        ensures
            exists|rand: u32| gemini_chunk_matches(data@, old(self)@, final(self)@, r, rand),
    {
        let ghost st0 = self@;
        let v = match parse_json(data) {
            Some(v) => v,
            None => {
                let r: Result<Option<StreamChunk>, Error> = Err(
                    Error::parse("invalid JSON".to_owned()),
                );
                proof {
                    assert(gemini_chunk_matches(data@, st0, self@, r, 0u32));
                }
                return r;
            },
        };
        let mut usage_bad = false;
        match v.get("usageMetadata") {
            Some(uj) => match decode_gemini_usage(uj) {
                Ok(u) => {
                    self.last_usage = Some(u);
                },
                Err(_) => {
                    usage_bad = true;
                },
            },
            None => {},
        }
        if usage_bad {
            let r: Result<Option<StreamChunk>, Error> = Err(
                Error::parse("unexpected schema".to_owned()),
            );
            proof {
                assert(gemini_chunk_matches(data@, st0, self@, r, 0u32));
            }
            return r;
        }
        let cands = match get_req_arr(&v, "candidates") {
            Ok(c) => c,
            Err(_) => {
                let r: Result<Option<StreamChunk>, Error> = Err(
                    Error::parse("unexpected schema".to_owned()),
                );
                proof {
                    assert(gemini_chunk_matches(data@, st0, self@, r, 0u32));
                }
                return r;
            },
        };
        if cands.len() == 0 {
            match self.last_usage {
                Some(u) => {
                    let r: Result<Option<StreamChunk>, Error> = Ok(Some(StreamChunk::usage(u)));
                    proof {
                        assert(gemini_chunk_matches(data@, st0, self@, r, 0u32));
                    }
                    return r;
                },
                None => {
                    let r: Result<Option<StreamChunk>, Error> = Ok(None);
                    proof {
                        assert(gemini_chunk_matches(data@, st0, self@, r, 0u32));
                    }
                    return r;
                },
            }
        }
        let cand = &cands[0];
        let finish = match get_opt_str(cand, "finishReason") {
            Ok(f) => f,
            Err(_) => {
                let r: Result<Option<StreamChunk>, Error> = Err(
                    Error::parse("unexpected schema".to_owned()),
                );
                proof {
                    assert(gemini_chunk_matches(data@, st0, self@, r, 0u32));
                }
                return r;
            },
        };
        let content = cand.get("content");
        let mut text = String::new();
        let mut fc: Option<(String, String)> = None;
        match content {
            Some(c) => {
                let parts = match get_req_arr(c, "parts") {
                    Ok(p) => p,
                    Err(_) => {
                        let r: Result<Option<StreamChunk>, Error> = Err(
                            Error::parse("unexpected schema".to_owned()),
                        );
                        proof {
                            assert(gemini_chunk_matches(data@, st0, self@, r, 0u32));
                        }
                        return r;
                    },
                };
                text = match parts_text(parts) {
                    Ok(t) => t,
                    Err(_) => {
                        let r: Result<Option<StreamChunk>, Error> = Err(
                            Error::parse("unexpected schema".to_owned()),
                        );
                        proof {
                            assert(gemini_chunk_matches(data@, st0, self@, r, 0u32));
                        }
                        return r;
                    },
                };
                fc = match first_fc(parts) {
                    Ok(f) => f,
                    Err(_) => {
                        let r: Result<Option<StreamChunk>, Error> = Err(
                            Error::parse("unexpected schema".to_owned()),
                        );
                        proof {
                            assert(gemini_chunk_matches(data@, st0, self@, r, 0u32));
                        }
                        return r;
                    },
                };
            },
            None => {},
        }
        let rand = random_u32();
        let mut chunk: StreamChunk = if !text.as_str().is_empty() {
            StreamChunk::text_owned(text)
        } else {
            match fc {
                Some((name, args)) => {
                    let mut c = StreamChunk::empty(ChunkKind::ToolDelta);
                    let id = "call_".to_owned().concat(crate::json::u64_to_dec(
                        rand as u64,
                    ).as_str());
                    c.tool_call_delta = Some(
                        ToolCallDelta {
                            index: 0,
                            id: Some(id),
                            function_name: Some(name),
                            function_arguments: Some(args),
                        },
                    );
                    c
                },
                None => StreamChunk::empty(ChunkKind::Unknown),
            }
        };
        match finish {
            Some(f) => {
                let fr = if str_eq(f.as_str(), "STOP") {
                    FinishReason::Stop
                } else if str_eq(f.as_str(), "MAX_TOKENS") {
                    FinishReason::Length
                } else if str_eq(f.as_str(), "SAFETY") {
                    FinishReason::ContentFilter
                } else {
                    FinishReason::Unknown
                };
                chunk.finish_reason = Some(fr);
            },
            None => {},
        }
        chunk.usage = self.last_usage;
        let r: Result<Option<StreamChunk>, Error> = Ok(Some(chunk));
        proof {
            assert(gemini_chunk_matches(data@, st0, self@, r, rand));
        }
        r
    }
}

/// The decoded form of a terminal response of this protocol.
pub open spec fn spec_gemini_response(j: JsonV) -> Result<CompletionResultV, ErrorV> {
    let schema_err = ErrorV::Parse("unexpected schema"@);
    match field_req_arr(j, "candidates"@) {
        Err(_) => Err(schema_err),
        Ok(cands) => if cands.len() == 0 {
            Err(ErrorV::Parse("no candidates"@))
        } else {
            let cand = cands[0];
            match (field_req_obj(cand, "content"@), field_opt_str(cand, "finishReason"@)) {
                (Ok(c), Ok(finish)) => match field_req_arr(c, "parts"@) {
                    Err(_) => Err(schema_err),
                    Ok(parts) => match (
                        spec_parts_text(parts),
                        spec_all_fcs(parts),
                        spec_opt_usage(j),
                        field_opt_str(j, "modelVersion"@),
                    ) {
                        (Ok(text), Ok(calls), Ok(usage), Ok(model)) => Ok(
                            CompletionResultV {
                                content: text,
                                usage: usage,
                                model: match model {
                                    Some(m) => m,
                                    None => Seq::empty(),
                                },
                                finish_reason: match finish {
                                    Some(f) => spec_gemini_finish_full(f),
                                    None => FinishReason::Unknown,
                                },
                                tool_calls: calls,
                            },
                        ),
                        _ => Err(schema_err),
                    },
                },
                _ => Err(schema_err),
            }
        },
    }
}

/// The terminal finish mapping also recognizes an explicit tool-calls code.
pub open spec fn spec_gemini_finish_full(s: Seq<char>) -> FinishReason {
    if s == "STOP"@ {
        FinishReason::Stop
    } else if s == "MAX_TOKENS"@ {
        FinishReason::Length
    } else if s == "TOOL_CALLS"@ {
        FinishReason::ToolCalls
    } else if s == "SAFETY"@ {
        FinishReason::ContentFilter
    } else {
        FinishReason::Unknown
    }
}

/// The optional usage metadata of a terminal response; absence reads as all
/// zeroes.
pub open spec fn spec_opt_usage(j: JsonV) -> Result<Usage, ()> {
    match spec_get(j, "usageMetadata"@) {
        Some(uj) => spec_gemini_usage(uj),
        None => Ok(crate::types::zero_usage()),
    }
}

/// All function-call parts in order, numbered `call_0`, `call_1` and so on.
pub open spec fn spec_all_fcs(parts: Seq<JsonV>) -> Result<Seq<ToolCallV>, ()>
    decreases parts.len(),
{
    if parts.len() == 0 {
        Ok(Seq::empty())
    } else {
        match spec_all_fcs(parts.drop_last()) {
            Err(_) => Err(()),
            Ok(init) => match spec_get(parts.last(), "functionCall"@) {
                None => Ok(init),
                Some(fc) => match (field_req_str(fc, "name"@), spec_get(fc, "args"@)) {
                    (Ok(name), Some(args)) => if valid_utf8(spec_json_bytes(args)) {
                        Ok(
                            init.push(
                                ToolCallV {
                                    id: "call_"@ + spec_u64_dec(init.len() as nat),
                                    tool_type: "function"@,
                                    function: FunctionCallV {
                                        name: name,
                                        arguments: decode_utf8(spec_json_bytes(args)),
                                    },
                                },
                            ),
                        )
                    } else {
                        Err(())
                    },
                    _ => Err(()),
                },
            },
        }
    }
}

proof fn lemma_all_fcs_err(parts: Seq<JsonV>, k: int)
    requires
        0 <= k < parts.len(),
        spec_get(parts[k], "functionCall"@) matches Some(fc) && (!(field_req_str(fc, "name"@)
            is Ok) || spec_get(fc, "args"@) is None || (field_req_str(fc, "name"@) is Ok
            && spec_get(fc, "args"@) is Some && !valid_utf8(
            spec_json_bytes(spec_get(fc, "args"@)->0),
        ))),
    ensures
        spec_all_fcs(parts) is Err,
    decreases parts.len(),
{
    if k < parts.len() - 1 {
        lemma_all_fcs_err(parts.drop_last(), k);
    }
}

#[verifier::loop_isolation(false)]
#[verifier::rlimit(60)]
fn all_fcs(parts: &Vec<JsonValue>) -> (r: Result<Vec<ToolCall>, ()>)
    ensures
        match r {
            Ok(cs) => spec_all_fcs(items_view(parts@)) == Ok::<Seq<ToolCallV>, ()>(
                tool_calls_view(cs@),
            ),
            Err(_) => spec_all_fcs(items_view(parts@)) is Err,
        },
{
    let ghost pv = items_view(parts@);
    let mut out: Vec<ToolCall> = Vec::new();
    proof {
        assert(pv.take(0) =~= Seq::<JsonV>::empty());
        assert(tool_calls_view(out@) =~= Seq::<ToolCallV>::empty());
    }
    let mut i: usize = 0;
    while i < parts.len()
        invariant
            0 <= i <= parts@.len(),
            pv == items_view(parts@),
            out@.len() <= i,
            spec_all_fcs(pv.take(i as int)) == Ok::<Seq<ToolCallV>, ()>(tool_calls_view(out@)),
        decreases parts@.len() - i,
    {
        proof {
            assert(pv.take(i + 1).drop_last() =~= pv.take(i as int));
        }
        match parts[i].get("functionCall") {
            None => {},
            Some(fc) => {
                let name = match get_req_str(fc, "name") {
                    Ok(s) => s.clone(),
                    Err(_) => {
                        proof {
                            lemma_all_fcs_err(pv, i as int);
                        }
                        return Err(());
                    },
                };
                let args = match fc.get("args") {
                    Some(a) => a,
                    None => {
                        proof {
                            lemma_all_fcs_err(pv, i as int);
                        }
                        return Err(());
                    },
                };
                let args_text = match to_json_string(args) {
                    Some(s) => s,
                    None => {
                        proof {
                            lemma_all_fcs_err(pv, i as int);
                        }
                        return Err(());
                    },
                };
                let id = "call_".to_owned().concat(crate::json::u64_to_dec(out.len() as u64).as_str());
                out.push(
                    ToolCall {
                        id,
                        tool_type: "function".to_owned(),
                        function: FunctionCall { name, arguments: args_text },
                    },
                );
            },
        }
        proof {
            assert(tool_calls_view(out@) =~= spec_all_fcs(pv.take(i + 1))->Ok_0);
        }
        i = i + 1;
    }
    proof {
        assert(pv.take(parts@.len() as int) =~= pv);
    }
    Ok(out)
}

#[verifier::rlimit(30)]
fn decode_gemini_response(v: &JsonValue) -> (r: Result<CompletionResult, Error>)
    ensures
        match spec_gemini_response(v@) {
            Ok(cv) => r matches Ok(c) && c@ == cv,
            Err(ev) => r matches Err(e) && e@ == ev,
        },
{
    let cands = match get_req_arr(v, "candidates") {
        Ok(c) => c,
        Err(_) => {
            return Err(Error::parse("unexpected schema".to_owned()));
        },
    };
    if cands.len() == 0 {
        return Err(Error::parse("no candidates".to_owned()));
    }
    let cand = &cands[0];
    let c = match get_req_obj(cand, "content") {
        Ok(x) => x,
        Err(_) => {
            return Err(Error::parse("unexpected schema".to_owned()));
        },
    };
    let finish = match get_opt_str(cand, "finishReason") {
        Ok(f) => f,
        Err(_) => {
            return Err(Error::parse("unexpected schema".to_owned()));
        },
    };
    let parts = match get_req_arr(c, "parts") {
        Ok(p) => p,
        Err(_) => {
            return Err(Error::parse("unexpected schema".to_owned()));
        },
    };
    let text = match parts_text(parts) {
        Ok(t) => t,
        Err(_) => {
            return Err(Error::parse("unexpected schema".to_owned()));
        },
    };
    let calls = match all_fcs(parts) {
        Ok(cs) => cs,
        Err(_) => {
            return Err(Error::parse("unexpected schema".to_owned()));
        },
    };
    let usage: Usage = match v.get("usageMetadata") {
        Some(uj) => match decode_gemini_usage(uj) {
            Ok(u) => u,
            Err(_) => {
                return Err(Error::parse("unexpected schema".to_owned()));
            },
        },
        None => Usage::new(),
    };
    let model: String = match get_opt_str(v, "modelVersion") {
        Ok(Some(m)) => m.clone(),
        Ok(None) => String::new(),
        Err(_) => {
            return Err(Error::parse("unexpected schema".to_owned()));
        },
    };
    let finish_reason: FinishReason = match &finish {
        Some(f) => {
            if str_eq(f.as_str(), "STOP") {
                FinishReason::Stop
            } else if str_eq(f.as_str(), "MAX_TOKENS") {
                FinishReason::Length
            } else if str_eq(f.as_str(), "TOOL_CALLS") {
                FinishReason::ToolCalls
            } else if str_eq(f.as_str(), "SAFETY") {
                FinishReason::ContentFilter
            } else {
                FinishReason::Unknown
            }
        },
        None => FinishReason::Unknown,
    };
    Ok(CompletionResult { content: text, usage, model, finish_reason, tool_calls: calls })
}

/// How a parsed terminal response must relate to the body text.
pub open spec fn gemini_response_matches(
    body: Seq<char>,
    r: Result<CompletionResult, Error>,
) -> bool {
    match spec_parse_json(body) {
        None => r matches Err(e) && e@ == ErrorV::Parse("invalid JSON"@),
        Some(j) => match spec_gemini_response(j) {
            Ok(cv) => r matches Ok(c) && c@ == cv,
            Err(ev) => r matches Err(e) && e@ == ev,
        },
    }
}

} // verus!
