//! Anthropic Messages API adapter: `x-api-key` auth, a pinned API version
//! header, named SSE events, and content blocks for text and tool use.

use vstd::prelude::*;

use crate::error::{Error, ErrorV};
use crate::json::{JsonValue, JsonV, fields_view, items_view, parse_json, spec_parse_json,
    spec_u64_dec, spec_milli_dec, spec_json_bytes, to_json_string, str_eq, spec_get};
use crate::providers::{RequestConfig, RequestConfigV, ToolChoice, ToolChoiceV, fold_obj_set,
    merge_extra, field_req_u32, get_req_u32, field_opt_u32, get_opt_u32, field_req_str,
    get_req_str, field_opt_str, get_opt_str, field_req_arr, get_req_arr, field_opt_arr,
    get_opt_arr, field_req_obj, get_req_obj, stops_view};
use crate::providers::cerebras::{spec_stops_json, fields_header_view};
use crate::types::{Message, MessageV, MessageContent, MessageContentV, ContentPart, ContentPartV,
    ImageUrlV, Role, Usage, FinishReason, StreamChunk, ChunkV, spec_empty_chunk, ChunkKind,
    ToolCallDelta, ToolDeltaV, ToolCall, ToolCallV, FunctionCall, FunctionCallV, Tool, ToolV,
    CompletionResult, CompletionResultV, msgs_view, tool_calls_view, parts_view, tools_view,
    opt_str_view};

verus! {

use vstd::string::StrSliceExecFns;
use vstd::string::StringExecFns;
use vstd::utf8::valid_utf8;
use vstd::utf8::decode_utf8;

/// The pinned API version sent with every request.
pub open spec fn spec_anthropic_version() -> Seq<char> {
    "2023-06-01"@
}

/// The separator between media type and payload in a base64 `data:` URI.
pub open spec fn b64_sep() -> Seq<char> {
    seq![';', 'b', 'a', 's', 'e', '6', '4', ',']
}

/// Position of the first `;base64,` in a string, if any.
pub open spec fn find_b64_sep(s: Seq<char>) -> Option<int>
    decreases s.len(),
{
    if s.len() < 8 {
        None
    } else if s.subrange(0, 8) == b64_sep() {
        Some(0)
    } else {
        match find_b64_sep(s.skip(1)) {
            None => None,
            Some(i) => Some(i + 1),
        }
    }
}

/// The separator occurs at position `j` of `s`.
pub open spec fn sep_at(s: Seq<char>, j: int) -> bool {
    0 <= j && j + 8 <= s.len() && s.subrange(j, j + 8) == b64_sep()
}

proof fn lemma_find_b64_sep_at(s: Seq<char>, k: int)
    requires
        sep_at(s, k),
        forall|j: int| 0 <= j < k ==> !#[trigger] sep_at(s, j),
    ensures
        find_b64_sep(s) == Some(k),
    decreases k,
{
    if k == 0 {
        assert(s.subrange(0, 8) == b64_sep());
    } else {
        assert(!sep_at(s, 0));
        assert(s.subrange(0, 8) != b64_sep());
        assert forall|j: int| 0 <= j < k - 1 implies !#[trigger] sep_at(s.skip(1), j) by {
            assert(!sep_at(s, j + 1));
            if 0 <= j && j + 8 <= s.skip(1).len() {
                assert(s.skip(1).subrange(j, j + 8) =~= s.subrange(j + 1, j + 9));
            }
        }
        assert(s.skip(1).subrange(k - 1, k - 1 + 8) =~= s.subrange(k, k + 8));
        assert(sep_at(s.skip(1), k - 1));
        lemma_find_b64_sep_at(s.skip(1), k - 1);
    }
}

proof fn lemma_find_b64_sep_none(s: Seq<char>)
    requires
        forall|j: int| !#[trigger] sep_at(s, j),
    ensures
        find_b64_sep(s) is None,
    decreases s.len(),
{
    if s.len() >= 8 {
        assert(!sep_at(s, 0));
        assert(s.subrange(0, 8) != b64_sep());
        assert forall|j: int| !#[trigger] sep_at(s.skip(1), j) by {
            assert(!sep_at(s, j + 1));
            if 0 <= j && j + 8 <= s.skip(1).len() {
                assert(s.skip(1).subrange(j, j + 8) =~= s.subrange(j + 1, j + 9));
            }
        }
        lemma_find_b64_sep_none(s.skip(1));
    }
}

/// A found separator is in range.
proof fn lemma_find_b64_sep_props(s: Seq<char>)
    requires
        find_b64_sep(s) is Some,
    ensures
        sep_at(s, find_b64_sep(s)->0),
    decreases s.len(),
{
    if s.len() >= 8 && s.subrange(0, 8) != b64_sep() {
        lemma_find_b64_sep_props(s.skip(1));
        let i = find_b64_sep(s)->0;
        assert(s.skip(1).subrange(i - 1, i - 1 + 8) =~= s.subrange(i, i + 8));
    }
}

/// Check whether eight characters of `s` starting at `k` are `;base64,`.
fn window_is_sep(s: &str, k: usize, n: usize) -> (r: bool)
    requires
        n == s@.len(),
        k + 8 <= n,
    ensures
        r == sep_at(s@, k as int),
{
    let r = s.get_char(k) == ';' && s.get_char(k + 1) == 'b' && s.get_char(k + 2) == 'a'
        && s.get_char(k + 3) == 's' && s.get_char(k + 4) == 'e' && s.get_char(k + 5) == '6'
        && s.get_char(k + 6) == '4' && s.get_char(k + 7) == ',';
    proof {
        if r {
            assert(s@.subrange(k as int, k as int + 8) =~= b64_sep());
        } else {
            assert(s@.subrange(k as int, k as int + 8) != b64_sep()) by {
                if s@.subrange(k as int, k as int + 8) == b64_sep() {
                    assert(s@.subrange(k as int, k as int + 8)[0] == ';');
                    assert(s@.subrange(k as int, k as int + 8)[1] == 'b');
                    assert(s@.subrange(k as int, k as int + 8)[2] == 'a');
                    assert(s@.subrange(k as int, k as int + 8)[3] == 's');
                    assert(s@.subrange(k as int, k as int + 8)[4] == 'e');
                    assert(s@.subrange(k as int, k as int + 8)[5] == '6');
                    assert(s@.subrange(k as int, k as int + 8)[6] == '4');
                    assert(s@.subrange(k as int, k as int + 8)[7] == ',');
                }
            }
        }
    }
    r
}

/// Find the first `;base64,` in a string.
#[verifier::loop_isolation(false)]
fn find_sep(s: &str) -> (r: Option<usize>)
    ensures
        match r {
            Some(i) => find_b64_sep(s@) == Some(i as int) && sep_at(s@, i as int),
            None => find_b64_sep(s@) is None,
        },
{
    let n = s.unicode_len();
    if n < 8 {
        proof {
            assert forall|j: int| !#[trigger] sep_at(s@, j) by {}
            lemma_find_b64_sep_none(s@);
        }
        return None;
    }
    let mut k: usize = 0;
    while k <= n - 8
        invariant
            0 <= k <= n - 8 + 1,
            n == s@.len(),
            n >= 8,
            forall|j: int| 0 <= j < k ==> !#[trigger] sep_at(s@, j),
        decreases n - k,
    {
        if window_is_sep(s, k, n) {
            proof {
                lemma_find_b64_sep_at(s@, k as int);
            }
            return Some(k);
        }
        k = k + 1;
    }
    proof {
        assert forall|j: int| !#[trigger] sep_at(s@, j) by {
            if 0 <= j && j + 8 <= s@.len() {
                assert(j < k);
            }
        }
        lemma_find_b64_sep_none(s@);
    }
    None
}

/// Whether a string starts with `data:`.
pub open spec fn starts_with_data(s: Seq<char>) -> bool {
    s.len() >= 5 && s.subrange(0, 5) == seq!['d', 'a', 't', 'a', ':']
}

fn is_data_uri(s: &str) -> (r: bool)
    ensures
        r == starts_with_data(s@),
{
    let n = s.unicode_len();
    if n < 5 {
        return false;
    }
    let r = s.get_char(0) == 'd' && s.get_char(1) == 'a' && s.get_char(2) == 't' && s.get_char(3)
        == 'a' && s.get_char(4) == ':';
    proof {
        if r {
            assert(s@.subrange(0, 5) =~= seq!['d', 'a', 't', 'a', ':']);
        } else {
            assert(s@.subrange(0, 5) != seq!['d', 'a', 't', 'a', ':']) by {
                if s@.subrange(0, 5) == seq!['d', 'a', 't', 'a', ':'] {
                    assert(s@.subrange(0, 5)[0] == 'd');
                    assert(s@.subrange(0, 5)[1] == 'a');
                    assert(s@.subrange(0, 5)[2] == 't');
                    assert(s@.subrange(0, 5)[3] == 'a');
                    assert(s@.subrange(0, 5)[4] == ':');
                }
            }
        }
    }
    r
}

/// The image source block for an image reference: an inline base64 `data:`
/// URI is split into media type and payload; anything else is passed as a
/// URL source.
pub open spec fn spec_image_block(u: ImageUrlV) -> JsonV {
    if starts_with_data(u.url) && find_b64_sep(u.url.skip(5)) is Some {
        let p = find_b64_sep(u.url.skip(5))->0;
        JsonV::Obj(
            seq![
                ("type"@, JsonV::Str("image"@)),
                (
                    "source"@,
                    JsonV::Obj(
                        seq![
                            ("type"@, JsonV::Str("base64"@)),
                            ("media_type"@, JsonV::Str(u.url.subrange(5, 5 + p))),
                            (
                                "data"@,
                                JsonV::Str(u.url.subrange(5 + p + 8, u.url.len() as int)),
                            ),
                        ],
                    ),
                ),
            ],
        )
    } else {
        JsonV::Obj(
            seq![
                ("type"@, JsonV::Str("image"@)),
                (
                    "source"@,
                    JsonV::Obj(
                        seq![("type"@, JsonV::Str("url"@)), ("url"@, JsonV::Str(u.url))],
                    ),
                ),
            ],
        )
    }
}

/// The Anthropic encoding of one content part.
pub open spec fn spec_anthropic_part(p: ContentPartV) -> JsonV {
    match p {
        ContentPartV::Text { text } => JsonV::Obj(
            seq![("type"@, JsonV::Str("text"@)), ("text"@, JsonV::Str(text))],
        ),
        ContentPartV::ImageUrl { image_url } => spec_image_block(image_url),
    }
}

pub open spec fn spec_anthropic_parts(parts: Seq<ContentPartV>) -> Seq<JsonV> {
    Seq::new(
        parts.len(),
        |i: int|
            if 0 <= i < parts.len() {
                spec_anthropic_part(parts[i])
            } else {
                JsonV::Null
            },
    )
}

/// The wire role of a message: tool results travel as user messages.
pub open spec fn spec_anthropic_role(r: Role) -> Seq<char> {
    match r {
        Role::Assistant => "assistant"@,
        _ => "user"@,
    }
}

/// The Anthropic encoding of one non-system message. Text content of a
/// tool-role message becomes a `tool_result` block; other text is sent as a
/// bare string; parts become blocks.
pub open spec fn spec_anthropic_message(m: MessageV) -> JsonV {
    let content = match m.content {
        MessageContentV::Text(text) => if m.role == Role::Tool {
            JsonV::Arr(
                seq![
                    JsonV::Obj(
                        seq![
                            ("type"@, JsonV::Str("tool_result"@)),
                            (
                                "tool_use_id"@,
                                JsonV::Str(
                                    match m.tool_call_id {
                                        Some(t) => t,
                                        None => Seq::empty(),
                                    },
                                ),
                            ),
                            ("content"@, JsonV::Str(text)),
                        ],
                    ),
                ],
            )
        } else {
            JsonV::Str(text)
        },
        MessageContentV::Parts(parts) => JsonV::Arr(spec_anthropic_parts(parts)),
    };
    JsonV::Obj(
        seq![("role"@, JsonV::Str(spec_anthropic_role(m.role))), ("content"@, content)],
    )
}

/// The non-system messages, encoded in order.
pub open spec fn spec_anthropic_messages(msgs: Seq<MessageV>) -> Seq<JsonV>
    decreases msgs.len(),
{
    if msgs.len() == 0 {
        Seq::empty()
    } else {
        spec_anthropic_messages(msgs.drop_last()) + (if msgs.last().role == Role::System {
            Seq::empty()
        } else {
            seq![spec_anthropic_message(msgs.last())]
        })
    }
}

/// The system text: the first system message's plain text when it has any,
/// else the configured system prompt.
pub open spec fn first_system(msgs: Seq<MessageV>) -> Option<MessageV>
    decreases msgs.len(),
{
    if msgs.len() == 0 {
        None
    } else if msgs[0].role == Role::System {
        Some(msgs[0])
    } else {
        first_system(msgs.skip(1))
    }
}

pub open spec fn spec_system_text(msgs: Seq<MessageV>, cfg: RequestConfigV) -> Option<Seq<char>> {
    match first_system(msgs) {
        Some(m) => match m.content {
            MessageContentV::Text(s) => Some(s),
            _ => cfg.system,
        },
        None => cfg.system,
    }
}

pub proof fn lemma_first_system_at(msgs: Seq<MessageV>, k: int)
    requires
        0 <= k < msgs.len(),
        msgs[k].role == Role::System,
        forall|j: int| 0 <= j < k ==> msgs[j].role != Role::System,
    ensures
        first_system(msgs) == Some(msgs[k]),
    decreases k,
{
    if k > 0 {
        lemma_first_system_at(msgs.skip(1), k - 1);
    }
}

pub proof fn lemma_first_system_none(msgs: Seq<MessageV>)
    requires
        forall|j: int| 0 <= j < msgs.len() ==> msgs[j].role != Role::System,
    ensures
        first_system(msgs) is None,
    decreases msgs.len(),
{
    if msgs.len() > 0 {
        lemma_first_system_none(msgs.skip(1));
    }
}

/// Build the content block for an image reference.
pub fn image_block(u: &crate::types::ImageUrl) -> (r: JsonValue)
    ensures
        r@ == spec_image_block(u@),
{
    let n = u.url.as_str().unicode_len();
    if is_data_uri(u.url.as_str()) {
        let rest = u.url.as_str().substring_char(5, n);
        proof {
            assert(rest@ =~= u.url@.skip(5));
        }
        if let Some(p) = find_sep(rest) {
            let media = rest.substring_char(0, p).to_owned();
            let data = rest.substring_char(p + 8, n - 5).to_owned();
            proof {
                assert(media@ =~= u.url@.subrange(5, 5 + p));
                assert(data@ =~= u.url@.subrange(5 + p + 8, u.url@.len() as int));
            }
            let mut source: Vec<(String, JsonValue)> = Vec::new();
            source.push(("type".to_owned(), JsonValue::string("base64")));
            source.push(("media_type".to_owned(), JsonValue::Str(media)));
            source.push(("data".to_owned(), JsonValue::Str(data)));
            let ghost sv = fields_view(source@);
            let mut fields: Vec<(String, JsonValue)> = Vec::new();
            fields.push(("type".to_owned(), JsonValue::string("image")));
            fields.push(("source".to_owned(), JsonValue::Obj(source)));
            let ghost fv = fields_view(fields@);
            let r = JsonValue::Obj(fields);
            proof {
                broadcast use crate::json::lemma_jv_view_obj;

                assert(sv =~= spec_image_block(u@)->Obj_0[1].1->Obj_0);
                assert(fv =~= spec_image_block(u@)->Obj_0);
            }
            return r;
        }
    }
    let mut source: Vec<(String, JsonValue)> = Vec::new();
    source.push(("type".to_owned(), JsonValue::string("url")));
    source.push(("url".to_owned(), JsonValue::Str(u.url.clone())));
    let ghost sv = fields_view(source@);
    let mut fields: Vec<(String, JsonValue)> = Vec::new();
    fields.push(("type".to_owned(), JsonValue::string("image")));
    fields.push(("source".to_owned(), JsonValue::Obj(source)));
    let ghost fv = fields_view(fields@);
    let r = JsonValue::Obj(fields);
    proof {
        broadcast use crate::json::lemma_jv_view_obj;

        if starts_with_data(u.url@) && find_b64_sep(u.url@.skip(5)) is Some {
            assert(false);
        }
        assert(sv =~= spec_image_block(u@)->Obj_0[1].1->Obj_0);
        assert(fv =~= spec_image_block(u@)->Obj_0);
    }
    r
}

fn anthropic_part(p: &ContentPart) -> (r: JsonValue)
    ensures
        r@ == spec_anthropic_part(p@),
{
    match p {
        ContentPart::Text { text } => {
            let mut fields: Vec<(String, JsonValue)> = Vec::new();
            fields.push(("type".to_owned(), JsonValue::string("text")));
            fields.push(("text".to_owned(), JsonValue::Str(text.clone())));
            let ghost fv = fields_view(fields@);
            let r = JsonValue::Obj(fields);
            proof {
                broadcast use crate::json::lemma_jv_view_obj;

                assert(fv =~= spec_anthropic_part(p@)->Obj_0);
            }
            r
        },
        ContentPart::ImageUrl { image_url } => image_block(image_url),
    }
}

/// Convert one non-system message to the Anthropic shape.
#[verifier::loop_isolation(false)]
pub fn convert_message(m: &Message) -> (r: JsonValue)
    ensures
        r@ == spec_anthropic_message(m@),
{
    let role: &str = match m.role {
        Role::Assistant => "assistant",
        _ => "user",
    };
    let content: JsonValue = match &m.content {
        MessageContent::Text(text) => {
            if matches!(m.role, Role::Tool) {
                let mut block: Vec<(String, JsonValue)> = Vec::new();
                block.push(("type".to_owned(), JsonValue::string("tool_result")));
                block.push(
                    (
                        "tool_use_id".to_owned(),
                        JsonValue::Str(
                            match &m.tool_call_id {
                                Some(t) => t.clone(),
                                None => String::new(),
                            },
                        ),
                    ),
                );
                block.push(("content".to_owned(), JsonValue::Str(text.clone())));
                let ghost bv = fields_view(block@);
                let mut arr: Vec<JsonValue> = Vec::new();
                arr.push(JsonValue::Obj(block));
                let ghost av = items_view(arr@);
                let c = JsonValue::Arr(arr);
                proof {
                    broadcast use crate::json::lemma_jv_view_obj;
                    broadcast use crate::json::lemma_jv_view_arr;

                    assert(bv =~= spec_anthropic_message(m@)->Obj_0[1].1->Arr_0[0]->Obj_0);
                    assert(av =~= spec_anthropic_message(m@)->Obj_0[1].1->Arr_0);
                }
                c
            } else {
                JsonValue::Str(text.clone())
            }
        },
        MessageContent::Parts(parts) => {
            let mut out: Vec<JsonValue> = Vec::new();
            let ghost pv = parts_view(parts@);
            let mut i: usize = 0;
            while i < parts.len()
                invariant
                    0 <= i <= parts.len(),
                    pv == parts_view(parts@),
                    items_view(out@) == spec_anthropic_parts(pv).take(i as int),
                decreases parts.len() - i,
            {
                out.push(anthropic_part(&parts[i]));
                proof {
                    assert(items_view(out@) =~= spec_anthropic_parts(pv).take(i + 1));
                }
                i = i + 1;
            }
            let ghost ov = items_view(out@);
            let c = JsonValue::Arr(out);
            proof {
                broadcast use crate::json::lemma_jv_view_arr;

                assert(ov =~= spec_anthropic_parts(pv));
            }
            c
        },
    };
    let mut fields: Vec<(String, JsonValue)> = Vec::new();
    fields.push(("role".to_owned(), JsonValue::string(role)));
    fields.push(("content".to_owned(), content));
    let ghost fv = fields_view(fields@);
    let r = JsonValue::Obj(fields);
    proof {
        broadcast use crate::json::lemma_jv_view_obj;

        assert(fv =~= spec_anthropic_message(m@)->Obj_0);
    }
    r
}

/// The Anthropic encoding of one tool definition: an absent description or
/// schema travels as `null`.
pub open spec fn spec_anthropic_tool(t: ToolV) -> JsonV {
    JsonV::Obj(
        seq![
            ("name"@, JsonV::Str(t.function.name)),
            (
                "description"@,
                match t.function.description {
                    Some(d) => JsonV::Str(d),
                    None => JsonV::Null,
                },
            ),
            (
                "input_schema"@,
                match t.function.parameters {
                    Some(p) => p,
                    None => JsonV::Null,
                },
            ),
        ],
    )
}

pub open spec fn spec_anthropic_tools(tools: Seq<ToolV>) -> Seq<JsonV> {
    Seq::new(
        tools.len(),
        |i: int|
            if 0 <= i < tools.len() {
                spec_anthropic_tool(tools[i])
            } else {
                JsonV::Null
            },
    )
}

/// The Anthropic tool-choice encoding: `auto`, `none`, `any` for required,
/// or a named tool.
pub open spec fn spec_anthropic_tool_choice(c: ToolChoiceV) -> JsonV {
    match c {
        ToolChoiceV::Auto => JsonV::Obj(seq![("type"@, JsonV::Str("auto"@))]),
        ToolChoiceV::NoTools => JsonV::Obj(seq![("type"@, JsonV::Str("none"@))]),
        ToolChoiceV::Required => JsonV::Obj(seq![("type"@, JsonV::Str("any"@))]),
        ToolChoiceV::Function(name) => JsonV::Obj(
            seq![("type"@, JsonV::Str("tool"@)), ("name"@, JsonV::Str(name))],
        ),
    }
}

fn anthropic_tool_choice(c: &ToolChoice) -> (r: JsonValue)
    ensures
        r@ == spec_anthropic_tool_choice(c@),
{
    let mut fields: Vec<(String, JsonValue)> = Vec::new();
    match c {
        ToolChoice::Auto => {
            fields.push(("type".to_owned(), JsonValue::string("auto")));
        },
        ToolChoice::NoTools => {
            fields.push(("type".to_owned(), JsonValue::string("none")));
        },
        ToolChoice::Required => {
            fields.push(("type".to_owned(), JsonValue::string("any")));
        },
        ToolChoice::Function(name) => {
            fields.push(("type".to_owned(), JsonValue::string("tool")));
            fields.push(("name".to_owned(), JsonValue::Str(name.clone())));
        },
    }
    let ghost fv = fields_view(fields@);
    let r = JsonValue::Obj(fields);
    proof {
        broadcast use crate::json::lemma_jv_view_obj;

        assert(fv =~= spec_anthropic_tool_choice(c@)->Obj_0);
    }
    r
}

/// The base body: model, the converted non-system messages, a required
/// `max_tokens` defaulting to 4096, then the system text and each configured
/// option, then the extra fields merged in.
pub open spec fn spec_anthropic_base_fields(
    model: Seq<char>,
    msgs: Seq<MessageV>,
    cfg: RequestConfigV,
) -> Seq<(Seq<char>, JsonV)> {
    seq![
        ("model"@, JsonV::Str(model)),
        ("messages"@, JsonV::Arr(spec_anthropic_messages(msgs))),
        (
            "max_tokens"@,
            JsonV::Num(
                spec_u64_dec(
                    (match cfg.max_tokens {
                        Some(n) => n,
                        None => 4096u32,
                    }) as nat,
                ),
            ),
        ),
    ] + (match spec_system_text(msgs, cfg) {
        Some(s) => seq![("system"@, JsonV::Str(s))],
        None => Seq::empty(),
    }) + (match cfg.temperature_milli {
        Some(t) => seq![("temperature"@, JsonV::Num(spec_milli_dec(t as nat)))],
        None => Seq::empty(),
    }) + (match cfg.top_p_milli {
        Some(t) => seq![("top_p"@, JsonV::Num(spec_milli_dec(t as nat)))],
        None => Seq::empty(),
    }) + (match cfg.stop {
        Some(stop) => seq![("stop_sequences"@, JsonV::Arr(spec_stops_json(stop)))],
        None => Seq::empty(),
    }) + (match cfg.tools {
        Some(tools) => seq![("tools"@, JsonV::Arr(spec_anthropic_tools(tools)))],
        None => Seq::empty(),
    }) + (match cfg.tool_choice {
        Some(c) => seq![("tool_choice"@, spec_anthropic_tool_choice(c))],
        None => Seq::empty(),
    })
}

pub open spec fn spec_anthropic_base(
    model: Seq<char>,
    msgs: Seq<MessageV>,
    cfg: RequestConfigV,
) -> Seq<(Seq<char>, JsonV)> {
    match cfg.extra {
        Some(e) => fold_obj_set(spec_anthropic_base_fields(model, msgs, cfg), e),
        None => spec_anthropic_base_fields(model, msgs, cfg),
    }
}

pub open spec fn spec_anthropic_stream_body(
    model: Seq<char>,
    msgs: Seq<MessageV>,
    cfg: RequestConfigV,
) -> JsonV {
    JsonV::Obj(
        crate::json::spec_obj_set(spec_anthropic_base(model, msgs, cfg), "stream"@, JsonV::Bool(true)),
    )
}

pub open spec fn spec_anthropic_complete_body(
    model: Seq<char>,
    msgs: Seq<MessageV>,
    cfg: RequestConfigV,
) -> JsonV {
    JsonV::Obj(
        crate::json::spec_obj_set(
            spec_anthropic_base(model, msgs, cfg),
            "stream"@,
            JsonV::Bool(false),
        ),
    )
}


fn is_system(m: &Message) -> (r: bool)
    ensures
        r == (m.role == Role::System),
{
    matches!(m.role, Role::System)
}

/// The system text for a request: the first system message's plain text when
/// there is one, else the configured system prompt.
#[verifier::loop_isolation(false)]
fn system_text_of(messages: &[Message], config: &RequestConfig) -> (r: Option<String>)
    ensures
        opt_str_view(r) == spec_system_text(msgs_view(messages@), config@),
{
    let ghost mv = msgs_view(messages@);
    let n = messages.len();
    let mut k: usize = 0;
    while k < n && !is_system(&messages[k])
        invariant
            0 <= k <= n,
            n == messages@.len(),
            mv == msgs_view(messages@),
            forall|j: int| 0 <= j < k ==> mv[j].role != Role::System,
        decreases n - k,
    {
        k = k + 1;
    }
    let mut system_text: Option<String> = None;
    if k < n {
        proof {
            lemma_first_system_at(mv, k as int);
        }
        match messages[k].content.as_text() {
            Some(t) => {
                system_text = Some(t.clone());
            },
            None => {
                system_text = None;
            },
        }
    } else {
        proof {
            lemma_first_system_none(mv);
        }
    }
    if system_text.is_none() {
        if let Some(s) = &config.system {
            system_text = Some(s.clone());
        }
    }
    system_text
}

/// Convert the non-system messages, in order.
#[verifier::loop_isolation(false)]
pub fn convert_messages(messages: &[Message]) -> (r: Vec<JsonValue>)
    ensures
        items_view(r@) == spec_anthropic_messages(msgs_view(messages@)),
{
    let ghost mv = msgs_view(messages@);
    let mut msgs: Vec<JsonValue> = Vec::new();
    let mut i: usize = 0;
    proof {
        assert(mv.take(0) =~= Seq::<MessageV>::empty());
    }
    while i < messages.len()
        invariant
            0 <= i <= messages@.len(),
            mv == msgs_view(messages@),
            items_view(msgs@) == spec_anthropic_messages(mv.take(i as int)),
        decreases messages@.len() - i,
    {
        proof {
            assert(mv.take(i + 1).drop_last() =~= mv.take(i as int));
        }
        if !is_system(&messages[i]) {
            msgs.push(convert_message(&messages[i]));
        }
        proof {
            assert(items_view(msgs@) =~= spec_anthropic_messages(mv.take(i + 1)));
        }
        i = i + 1;
    }
    proof {
        assert(mv.take(messages@.len() as int) =~= mv);
    }
    msgs
}

/// Build the JSON array of tool definitions, in the Anthropic shape.
#[verifier::loop_isolation(false)]
fn anthropic_tools_json(tools: &Vec<Tool>) -> (r: Vec<JsonValue>)
    ensures
        items_view(r@) == spec_anthropic_tools(tools_view(tools@)),
{
    let mut out: Vec<JsonValue> = Vec::new();
    let ghost tv = tools_view(tools@);
    let mut j: usize = 0;
    while j < tools.len()
        invariant
            0 <= j <= tools@.len(),
            tv == tools_view(tools@),
            items_view(out@) == spec_anthropic_tools(tv).take(j as int),
        decreases tools@.len() - j,
    {
        let t = &tools[j];
        let mut tf: Vec<(String, JsonValue)> = Vec::new();
        tf.push(("name".to_owned(), JsonValue::Str(t.function.name.clone())));
        tf.push(
            (
                "description".to_owned(),
                match &t.function.description {
                    Some(d) => JsonValue::Str(d.clone()),
                    None => JsonValue::Null,
                },
            ),
        );
        tf.push(
            (
                "input_schema".to_owned(),
                match &t.function.parameters {
                    Some(p) => p.clone_value(),
                    None => JsonValue::Null,
                },
            ),
        );
        let ghost tfv = fields_view(tf@);
        out.push(JsonValue::Obj(tf));
        proof {
            broadcast use crate::json::lemma_jv_view_obj;

            assert(tfv =~= spec_anthropic_tool(tv[j as int])->Obj_0);
            assert(items_view(out@) =~= spec_anthropic_tools(tv).take(j + 1));
        }
        j = j + 1;
    }
    proof {
        assert(items_view(out@) =~= spec_anthropic_tools(tv));
    }
    out
}

/// Build the JSON array of stop sequences.
#[verifier::loop_isolation(false)]
fn stops_json(stop: &Vec<String>) -> (r: Vec<JsonValue>)
    ensures
        items_view(r@) == spec_stops_json(stops_view(stop@)),
{
    let mut out: Vec<JsonValue> = Vec::new();
    let ghost sv = stops_view(stop@);
    let mut j: usize = 0;
    while j < stop.len()
        invariant
            0 <= j <= stop@.len(),
            sv == stops_view(stop@),
            items_view(out@) == spec_stops_json(sv).take(j as int),
        decreases stop@.len() - j,
    {
        out.push(JsonValue::Str(stop[j].clone()));
        proof {
            assert(items_view(out@) =~= spec_stops_json(sv).take(j + 1));
        }
        j = j + 1;
    }
    proof {
        assert(items_view(out@) =~= spec_stops_json(sv));
    }
    out
}

/// Anthropic API provider.
pub struct AnthropicProvider {
    pub base_url: String,
}

impl AnthropicProvider {
    /// The provider with its production endpoint.
    pub fn new() -> (r: Self)
        ensures
            r.base_url@ == "https://api.anthropic.com"@,
    {
        AnthropicProvider { base_url: "https://api.anthropic.com".to_owned() }
    }

    /// The provider pointed at another base URL.
    pub fn with_base_url(base_url: &str) -> (r: Self)
        ensures
            r.base_url@ == base_url@,
    {
        AnthropicProvider { base_url: base_url.to_owned() }
    }

    /// The provider's name.
    pub fn name(&self) -> (r: &'static str)
        ensures
            r@ == "anthropic"@,
    {
        "anthropic"
    }

    /// The base URL requests go to.
    pub fn base_url(&self) -> (r: &str)
        ensures
            r@ == self.base_url@,
    {
        self.base_url.as_str()
    }

    /// The path under the base URL.
    pub fn chat_endpoint(&self) -> (r: &'static str)
        ensures
            r@ == "/v1/messages"@,
    {
        "/v1/messages"
    }

    /// Request headers: JSON content type, the pinned API version, and the
    /// key under `x-api-key` rather than a bearer token.
    pub fn headers(&self, api_key: &str) -> (r: Vec<(String, String)>)
        ensures
            fields_header_view(r@) == seq![
                ("content-type"@, "application/json"@),
                ("anthropic-version"@, spec_anthropic_version()),
                ("x-api-key"@, api_key@),
            ],
    {
        let mut out: Vec<(String, String)> = Vec::new();
        out.push(("content-type".to_owned(), "application/json".to_owned()));
        out.push(("anthropic-version".to_owned(), "2023-06-01".to_owned()));
        out.push(("x-api-key".to_owned(), api_key.to_owned()));
        proof {
            assert(fields_header_view(out@) =~= seq![
                ("content-type"@, "application/json"@),
                ("anthropic-version"@, spec_anthropic_version()),
                ("x-api-key"@, api_key@),
            ]);
        }
        out
    }

    /// The URL for streaming requests.
    pub fn stream_url(&self, _model: &str, _api_key: &str) -> (r: String)
        ensures
            r@ == self.base_url@ + "/v1/messages"@,
    {
        self.base_url.clone().concat("/v1/messages")
    }

    /// The URL for terminal requests.
    pub fn complete_url(&self, _model: &str, _api_key: &str) -> (r: String)
        ensures
            r@ == self.base_url@ + "/v1/messages"@,
    {
        self.base_url.clone().concat("/v1/messages")
    }

    /// Build the base body fields.
    #[verifier::loop_isolation(false)]
    #[verifier::rlimit(100)]
    #[verifier::spinoff_prover]
    fn base_fields(&self, model: &str, messages: &[Message], config: &RequestConfig) -> (r: Vec<
        (String, JsonValue),
    >)
        ensures
            fields_view(r@) == spec_anthropic_base_fields(model@, msgs_view(messages@), config@),
    {
        let ghost mv = msgs_view(messages@);
        let system_text = system_text_of(messages, config);
        let ghost stv = opt_str_view(system_text);
        let msgs = convert_messages(messages);
        let mut fields: Vec<(String, JsonValue)> = Vec::new();
        fields.push(("model".to_owned(), JsonValue::string(model)));
        fields.push(("messages".to_owned(), JsonValue::Arr(msgs)));
        let max_tokens: u32 = match config.max_tokens {
            Some(n) => n,
            None => 4096,
        };
        fields.push(("max_tokens".to_owned(), JsonValue::from_u64(max_tokens as u64)));
        let ghost g0 = seq![
            ("model"@, JsonV::Str(model@)),
            ("messages"@, JsonV::Arr(spec_anthropic_messages(mv))),
            (
                "max_tokens"@,
                JsonV::Num(
                    spec_u64_dec(
                        (match config@.max_tokens {
                            Some(n) => n,
                            None => 4096u32,
                        }) as nat,
                    ),
                ),
            ),
        ];
        proof {
            broadcast use crate::json::lemma_jv_view_arr;

            assert(fields_view(fields@) =~= g0);
        }
        if let Some(sx) = system_text {
            fields.push(("system".to_owned(), JsonValue::Str(sx)));
        }
        let ghost g1 = g0 + (match spec_system_text(mv, config@) {
            Some(sx) => seq![("system"@, JsonV::Str(sx))],
            None => Seq::<(Seq<char>, JsonV)>::empty(),
        });
        proof {
            assert(fields_view(fields@) =~= g1);
        }
        if let Some(t) = config.temperature_milli {
            fields.push(("temperature".to_owned(), JsonValue::from_milli(t)));
        }
        let ghost g2 = g1 + (match config@.temperature_milli {
            Some(t) => seq![("temperature"@, JsonV::Num(spec_milli_dec(t as nat)))],
            None => Seq::<(Seq<char>, JsonV)>::empty(),
        });
        proof {
            assert(fields_view(fields@) =~= g2);
        }
        if let Some(t) = config.top_p_milli {
            fields.push(("top_p".to_owned(), JsonValue::from_milli(t)));
        }
        let ghost g3 = g2 + (match config@.top_p_milli {
            Some(t) => seq![("top_p"@, JsonV::Num(spec_milli_dec(t as nat)))],
            None => Seq::<(Seq<char>, JsonV)>::empty(),
        });
        proof {
            assert(fields_view(fields@) =~= g3);
        }
        if let Some(stop) = &config.stop {
            fields.push(("stop_sequences".to_owned(), JsonValue::Arr(stops_json(stop))));
        }
        let ghost g4 = g3 + (match config@.stop {
            Some(stop) => seq![("stop_sequences"@, JsonV::Arr(spec_stops_json(stop)))],
            None => Seq::<(Seq<char>, JsonV)>::empty(),
        });
        proof {
            broadcast use crate::json::lemma_jv_view_arr;

            assert(fields_view(fields@) =~= g4);
        }
        if let Some(tools) = &config.tools {
            fields.push(("tools".to_owned(), JsonValue::Arr(anthropic_tools_json(tools))));
        }
        let ghost g5 = g4 + (match config@.tools {
            Some(tools) => seq![("tools"@, JsonV::Arr(spec_anthropic_tools(tools)))],
            None => Seq::<(Seq<char>, JsonV)>::empty(),
        });
        proof {
            broadcast use crate::json::lemma_jv_view_arr;

            assert(fields_view(fields@) =~= g5);
        }
        if let Some(choice) = &config.tool_choice {
            fields.push(("tool_choice".to_owned(), anthropic_tool_choice(choice)));
        }
        let ghost g6 = g5 + (match config@.tool_choice {
            Some(c) => seq![("tool_choice"@, spec_anthropic_tool_choice(c))],
            None => Seq::<(Seq<char>, JsonV)>::empty(),
        });
        proof {
            assert(fields_view(fields@) =~= g6);
            assert(g6 == spec_anthropic_base_fields(model@, mv, config@));
        }
        fields
    }

    /// Build the base body fields with the extra fields merged in.
    fn merged_fields(&self, model: &str, messages: &[Message], config: &RequestConfig) -> (r: Vec<
        (String, JsonValue),
    >)
        ensures
            fields_view(r@) == spec_anthropic_base(model@, msgs_view(messages@), config@),
    {
        let ghost mv = msgs_view(messages@);
        let mut fields = self.base_fields(model, messages, config);
        let ghost g = fields_view(fields@);
        merge_extra(&mut fields, &config.extra);
        proof {
            if config.extra is Some {
                let e = config.extra->0;
                assert(config@.extra == Some(fields_view(e@)));
                assert(fields_view(fields@) == fold_obj_set(g, fields_view(e@)));
            } else {
                assert(config@.extra is None);
                assert(fields_view(fields@) == g);
            }
        }
        fields
    }

    /// Build the body for a streaming completion.
    pub fn build_stream_body(&self, model: &str, messages: &[Message], config: &RequestConfig) -> (r:
        Result<JsonValue, Error>)
        ensures
            r matches Ok(b) && b@ == spec_anthropic_stream_body(model@, msgs_view(messages@), config@),
    {
        let mut fields = self.merged_fields(model, messages, config);
        crate::json::obj_set(&mut fields, "stream".to_owned(), JsonValue::Bool(true));
        let ghost fv = fields_view(fields@);
        let r = JsonValue::Obj(fields);
        proof {
            broadcast use crate::json::lemma_jv_view_obj;

        }
        Ok(r)
    }

    /// Build the body for a terminal completion.
    pub fn build_complete_body(&self, model: &str, messages: &[Message], config: &RequestConfig) -> (
        r: Result<JsonValue, Error>)
        ensures
            r matches Ok(b) && b@ == spec_anthropic_complete_body(
                model@,
                msgs_view(messages@),
                config@,
            ),
    {
        let mut fields = self.merged_fields(model, messages, config);
        crate::json::obj_set(&mut fields, "stream".to_owned(), JsonValue::Bool(false));
        let ghost fv = fields_view(fields@);
        let r = JsonValue::Obj(fields);
        proof {
            broadcast use crate::json::lemma_jv_view_obj;

        }
        Ok(r)
    }

    /// Create the event decoder for this provider's stream.
    pub fn create_parser(&self) -> (r: AnthropicParser)
        ensures
            r@ == initial_anthropic_state(),
    {
        AnthropicParser::new()
    }

    /// Parse a terminal (non-streaming) response body.
    pub fn parse_response(&self, body: &str) -> (r: Result<CompletionResult, Error>)
        ensures
            anthropic_response_matches(body@, r),
    {
        let v = match parse_json(body) {
            Some(v) => v,
            None => {
                return Err(Error::parse("invalid JSON".to_owned()));
            },
        };
        decode_anthropic_response(&v)
    }
}

/// The Anthropic stop-reason mapping for terminal responses: anything
/// unknown, absence included, is `Unknown`.
pub open spec fn spec_anthropic_finish(reason: Option<Seq<char>>) -> FinishReason {
    match reason {
        Some(s) => if s == "end_turn"@ || s == "stop_sequence"@ {
            FinishReason::Stop
        } else if s == "max_tokens"@ {
            FinishReason::Length
        } else if s == "tool_use"@ {
            FinishReason::ToolCalls
        } else {
            FinishReason::Unknown
        },
        None => FinishReason::Unknown,
    }
}

/// The usage object of this protocol: required input and output token
/// counts, optional cache counters.
pub open spec fn spec_anthropic_usage(j: JsonV) -> Result<Usage, ()> {
    match (
        field_req_u32(j, "input_tokens"@),
        field_req_u32(j, "output_tokens"@),
        field_opt_u32(j, "cache_read_input_tokens"@),
        field_opt_u32(j, "cache_creation_input_tokens"@),
    ) {
        (Ok(i), Ok(o), Ok(cr), Ok(cc)) => Ok(
            Usage {
                input_tokens: i,
                output_tokens: o,
                cache_read_input_tokens: match cr {
                    Some(n) => n,
                    None => 0,
                },
                cache_creation_input_tokens: match cc {
                    Some(n) => n,
                    None => 0,
                },
            },
        ),
        _ => Err(()),
    }
}

fn decode_anthropic_usage(v: &JsonValue) -> (r: Result<Usage, ()>)
    ensures
        match r {
            Ok(u) => spec_anthropic_usage(v@) == Ok::<Usage, ()>(u),
            Err(_) => spec_anthropic_usage(v@) is Err,
        },
{
    let i = match get_req_u32(v, "input_tokens") {
        Ok(x) => x,
        Err(_) => {
            return Err(());
        },
    };
    let o = match get_req_u32(v, "output_tokens") {
        Ok(x) => x,
        Err(_) => {
            return Err(());
        },
    };
    let cr = match get_opt_u32(v, "cache_read_input_tokens") {
        Ok(x) => x,
        Err(_) => {
            return Err(());
        },
    };
    let cc = match get_opt_u32(v, "cache_creation_input_tokens") {
        Ok(x) => x,
        Err(_) => {
            return Err(());
        },
    };
    Ok(
        Usage {
            input_tokens: i,
            output_tokens: o,
            cache_read_input_tokens: match cr {
                Some(n) => n,
                None => 0,
            },
            cache_creation_input_tokens: match cc {
                Some(n) => n,
                None => 0,
            },
        },
    )
}

/// Kind of the content block currently open in a stream.
pub enum BlockKind {
    TextBlock,
    ToolUseBlock,
    ThinkingBlock,
}

/// Decoder state between events.
pub struct AnthropicStateV {
    pub usage: Option<Usage>,
    pub block: Option<BlockKind>,
    pub tool_id: Option<Seq<char>>,
    pub tool_name: Option<Seq<char>>,
    pub tool_index: int,
}

pub open spec fn initial_anthropic_state() -> AnthropicStateV {
    AnthropicStateV { usage: None, block: None, tool_id: None, tool_name: None, tool_index: 0 }
}

/// Streaming event decoder for the Anthropic protocol. It tracks the usage
/// reported at `message_start`, the currently open content block, and a
/// running tool index advanced at each closed `tool_use` block.
pub struct AnthropicParser {
    pub current_usage: Option<Usage>,
    pub current_block: Option<BlockKind>,
    pub current_tool_id: Option<String>,
    pub current_tool_name: Option<String>,
    pub tool_index: usize,
}

impl View for AnthropicParser {
    type V = AnthropicStateV;

    open spec fn view(&self) -> AnthropicStateV {
        AnthropicStateV {
            usage: self.current_usage,
            block: match self.current_block {
                Some(BlockKind::TextBlock) => Some(BlockKind::TextBlock),
                Some(BlockKind::ToolUseBlock) => Some(BlockKind::ToolUseBlock),
                Some(BlockKind::ThinkingBlock) => Some(BlockKind::ThinkingBlock),
                None => None,
            },
            tool_id: opt_str_view(self.current_tool_id),
            tool_name: opt_str_view(self.current_tool_name),
            tool_index: self.tool_index as int,
        }
    }
}

/// One decoding step: the new state and the outcome.
pub open spec fn spec_anthropic_step(st: AnthropicStateV, j: JsonV) -> (
    AnthropicStateV,
    Result<Option<ChunkV>, ErrorV>,
) {
    let schema_err = ErrorV::Parse("unexpected schema"@);
    match field_req_str(j, "type"@) {
        Err(_) => (st, Err(schema_err)),
        Ok(ty) => if ty == "message_start"@ {
            match field_req_obj(j, "message"@) {
                Err(_) => (st, Err(schema_err)),
                Ok(msg) => match field_req_obj(msg, "usage"@) {
                    Err(_) => (st, Err(schema_err)),
                    Ok(uj) => match spec_anthropic_usage(uj) {
                        Err(_) => (st, Err(schema_err)),
                        Ok(u) => ((AnthropicStateV { usage: Some(u), ..st }), Ok(None)),
                    },
                },
            }
        } else if ty == "content_block_start"@ {
            match field_req_obj(j, "content_block"@) {
                Err(_) => (st, Err(schema_err)),
                Ok(cb) => match field_req_str(cb, "type"@) {
                    Err(_) => (st, Err(schema_err)),
                    Ok(bt) => if bt == "text"@ {
                        match field_req_str(cb, "text"@) {
                            Err(_) => (st, Err(schema_err)),
                            Ok(_) => (
                                (AnthropicStateV { block: Some(BlockKind::TextBlock), ..st }),
                                Ok(None),
                            ),
                        }
                    } else if bt == "tool_use"@ {
                        match (field_req_str(cb, "id"@), field_req_str(cb, "name"@)) {
                            (Ok(id), Ok(name)) => (
                                (AnthropicStateV {
                                    block: Some(BlockKind::ToolUseBlock),
                                    tool_id: Some(id),
                                    tool_name: Some(name),
                                    ..st
                                }),
                                Ok(None),
                            ),
                            _ => (st, Err(schema_err)),
                        }
                    } else if bt == "thinking"@ {
                        (
                            (AnthropicStateV { block: Some(BlockKind::ThinkingBlock), ..st }),
                            Ok(None),
                        )
                    } else {
                        (st, Err(schema_err))
                    },
                },
            }
        } else if ty == "content_block_delta"@ {
            match field_req_obj(j, "delta"@) {
                Err(_) => (st, Err(schema_err)),
                Ok(d) => match field_req_str(d, "type"@) {
                    Err(_) => (st, Err(schema_err)),
                    Ok(dt) => if dt == "text_delta"@ {
                        match field_req_str(d, "text"@) {
                            Err(_) => (st, Err(schema_err)),
                            Ok(text) => (
                                st,
                                Ok(
                                    Some(
                                        ChunkV {
                                            kind: ChunkKind::Text,
                                            text: text,
                                            ..spec_empty_chunk(ChunkKind::Text)
                                        },
                                    ),
                                ),
                            ),
                        }
                    } else if dt == "input_json_delta"@ {
                        match field_req_str(d, "partial_json"@) {
                            Err(_) => (st, Err(schema_err)),
                            Ok(pj) => (
                                st,
                                Ok(
                                    Some(
                                        ChunkV {
                                            kind: ChunkKind::ToolDelta,
                                            tool_call_delta: Some(
                                                ToolDeltaV {
                                                    index: st.tool_index,
                                                    id: st.tool_id,
                                                    function_name: st.tool_name,
                                                    function_arguments: Some(pj),
                                                },
                                            ),
                                            ..spec_empty_chunk(ChunkKind::ToolDelta)
                                        },
                                    ),
                                ),
                            ),
                        }
                    } else if dt == "thinking_delta"@ || dt == "signature_delta"@ {
                        (st, Ok(None))
                    } else {
                        (st, Err(schema_err))
                    },
                },
            }
        } else if ty == "content_block_stop"@ {
            let idx = if st.block == Some(BlockKind::ToolUseBlock) && st.tool_index
                < usize::MAX as int {
                st.tool_index + 1
            } else {
                st.tool_index
            };
            (
                (AnthropicStateV {
                    block: None,
                    tool_id: None,
                    tool_name: None,
                    tool_index: idx,
                    ..st
                }),
                Ok(None),
            )
        } else if ty == "message_delta"@ {
            match (field_req_obj(j, "delta"@), field_req_obj(j, "usage"@)) {
                (Ok(d), Ok(uj)) => match (
                    field_opt_str(d, "stop_reason"@),
                    field_req_u32(uj, "output_tokens"@),
                ) {
                    (Ok(stop_reason), Ok(out_tokens)) => {
                        let finish = match stop_reason {
                            Some(s) => if s == "end_turn"@ || s == "stop_sequence"@ {
                                Some(FinishReason::Stop)
                            } else if s == "max_tokens"@ {
                                Some(FinishReason::Length)
                            } else if s == "tool_use"@ {
                                Some(FinishReason::ToolCalls)
                            } else {
                                None
                            },
                            None => None,
                        };
                        let new_usage = match st.usage {
                            Some(u) => Some(Usage { output_tokens: out_tokens, ..u }),
                            None => None,
                        };
                        (
                            (AnthropicStateV { usage: new_usage, ..st }),
                            Ok(
                                Some(
                                    ChunkV {
                                        usage: new_usage,
                                        finish_reason: finish,
                                        ..spec_empty_chunk(ChunkKind::Unknown)
                                    },
                                ),
                            ),
                        )
                    },
                    _ => (st, Err(schema_err)),
                },
                _ => (st, Err(schema_err)),
            }
        } else if ty == "message_stop"@ || ty == "ping"@ {
            (st, Ok(None))
        } else if ty == "error"@ {
            match field_req_obj(j, "error"@) {
                Err(_) => (st, Err(schema_err)),
                Ok(e) => match field_req_str(e, "message"@) {
                    Err(_) => (st, Err(schema_err)),
                    Ok(msg) => (st, Err(ErrorV::Api { status: 0, message: msg })),
                },
            }
        } else {
            (st, Err(schema_err))
        },
    }
}

/// How one decoded event must relate to the payload text and the states.
pub open spec fn anthropic_chunk_matches(
    data: Seq<char>,
    st0: AnthropicStateV,
    st1: AnthropicStateV,
    r: Result<Option<StreamChunk>, Error>,
) -> bool {
    match spec_parse_json(data) {
        None => st1 == st0 && (r matches Err(e) && e@ == ErrorV::Parse("invalid JSON"@)),
        Some(j) => {
            let (st2, out) = spec_anthropic_step(st0, j);
            st1 == st2 && (match out {
                Ok(None) => r matches Ok(None),
                Ok(Some(cv)) => r matches Ok(Some(ch)) && ch@ == cv,
                Err(ev) => r matches Err(e) && e@ == ev,
            })
        },
    }
}

impl AnthropicParser {
    /// Create a decoder in its initial state.
    pub fn new() -> (r: Self)
        ensures
            r@ == initial_anthropic_state(),
    {
        AnthropicParser {
            current_usage: None,
            current_block: None,
            current_tool_id: None,
            current_tool_name: None,
            tool_index: 0,
        }
    }

    /// The Anthropic stream has no data sentinel; the end comes from
    /// `message_stop` or the connection closing.
    pub fn is_end_of_stream(&self, _data: &str) -> (r: bool)
        ensures
            r == false,
    {
        false
    }

    /// Decode one SSE data payload into at most one chunk, updating the
    /// decoder state.
    pub fn parse_chunk(&mut self, data: &str) -> (r: Result<Option<StreamChunk>, Error>)
        ensures
            anthropic_chunk_matches(data@, old(self)@, final(self)@, r),
    {
        let v = match parse_json(data) {
            Some(v) => v,
            None => {
                return Err(Error::parse("invalid JSON".to_owned()));
            },
        };
        let ty = match get_req_str(&v, "type") {
            Ok(t) => t,
            Err(_) => {
                return Err(Error::parse("unexpected schema".to_owned()));
            },
        };
        if str_eq(ty.as_str(), "message_start") {
            let msg = match get_req_obj(&v, "message") {
                Ok(m) => m,
                Err(_) => {
                    return Err(Error::parse("unexpected schema".to_owned()));
                },
            };
            let uj = match get_req_obj(msg, "usage") {
                Ok(u) => u,
                Err(_) => {
                    return Err(Error::parse("unexpected schema".to_owned()));
                },
            };
            match decode_anthropic_usage(uj) {
                Ok(u) => {
                    self.current_usage = Some(u);
                    Ok(None)
                },
                Err(_) => Err(Error::parse("unexpected schema".to_owned())),
            }
        } else if str_eq(ty.as_str(), "content_block_start") {
            let cb = match get_req_obj(&v, "content_block") {
                Ok(c) => c,
                Err(_) => {
                    return Err(Error::parse("unexpected schema".to_owned()));
                },
            };
            let bt = match get_req_str(cb, "type") {
                Ok(t) => t,
                Err(_) => {
                    return Err(Error::parse("unexpected schema".to_owned()));
                },
            };
            if str_eq(bt.as_str(), "text") {
                match get_req_str(cb, "text") {
                    Ok(_) => {
                        self.current_block = Some(BlockKind::TextBlock);
                        Ok(None)
                    },
                    Err(_) => Err(Error::parse("unexpected schema".to_owned())),
                }
            } else if str_eq(bt.as_str(), "tool_use") {
                let id = match get_req_str(cb, "id") {
                    Ok(s) => s.clone(),
                    Err(_) => {
                        return Err(Error::parse("unexpected schema".to_owned()));
                    },
                };
                let name = match get_req_str(cb, "name") {
                    Ok(s) => s.clone(),
                    Err(_) => {
                        return Err(Error::parse("unexpected schema".to_owned()));
                    },
                };
                self.current_block = Some(BlockKind::ToolUseBlock);
                self.current_tool_id = Some(id);
                self.current_tool_name = Some(name);
                Ok(None)
            } else if str_eq(bt.as_str(), "thinking") {
                self.current_block = Some(BlockKind::ThinkingBlock);
                Ok(None)
            } else {
                Err(Error::parse("unexpected schema".to_owned()))
            }
        } else if str_eq(ty.as_str(), "content_block_delta") {
            let d = match get_req_obj(&v, "delta") {
                Ok(x) => x,
                Err(_) => {
                    return Err(Error::parse("unexpected schema".to_owned()));
                },
            };
            let dt = match get_req_str(d, "type") {
                Ok(t) => t,
                Err(_) => {
                    return Err(Error::parse("unexpected schema".to_owned()));
                },
            };
            if str_eq(dt.as_str(), "text_delta") {
                match get_req_str(d, "text") {
                    Ok(text) => Ok(Some(StreamChunk::text_owned(text.clone()))),
                    Err(_) => Err(Error::parse("unexpected schema".to_owned())),
                }
            } else if str_eq(dt.as_str(), "input_json_delta") {
                match get_req_str(d, "partial_json") {
                    Ok(pj) => {
                        let mut chunk = StreamChunk::empty(ChunkKind::ToolDelta);
                        chunk.tool_call_delta = Some(
                            ToolCallDelta {
                                index: self.tool_index,
                                id: match &self.current_tool_id {
                                    Some(s) => Some(s.clone()),
                                    None => None,
                                },
                                function_name: match &self.current_tool_name {
                                    Some(s) => Some(s.clone()),
                                    None => None,
                                },
                                function_arguments: Some(pj.clone()),
                            },
                        );
                        Ok(Some(chunk))
                    },
                    Err(_) => Err(Error::parse("unexpected schema".to_owned())),
                }
            } else if str_eq(dt.as_str(), "thinking_delta") || str_eq(dt.as_str(), "signature_delta")
             {
                Ok(None)
            } else {
                Err(Error::parse("unexpected schema".to_owned()))
            }
        } else if str_eq(ty.as_str(), "content_block_stop") {
            if matches!(self.current_block, Some(BlockKind::ToolUseBlock)) && self.tool_index
                < usize::MAX {
                self.tool_index = self.tool_index + 1;
            }
            self.current_block = None;
            self.current_tool_id = None;
            self.current_tool_name = None;
            Ok(None)
        } else if str_eq(ty.as_str(), "message_delta") {
            let d = match get_req_obj(&v, "delta") {
                Ok(x) => x,
                Err(_) => {
                    return Err(Error::parse("unexpected schema".to_owned()));
                },
            };
            let uj = match get_req_obj(&v, "usage") {
                Ok(u) => u,
                Err(_) => {
                    return Err(Error::parse("unexpected schema".to_owned()));
                },
            };
            let stop_reason = match get_opt_str(d, "stop_reason") {
                Ok(s) => s,
                Err(_) => {
                    return Err(Error::parse("unexpected schema".to_owned()));
                },
            };
            let out_tokens = match get_req_u32(uj, "output_tokens") {
                Ok(n) => n,
                Err(_) => {
                    return Err(Error::parse("unexpected schema".to_owned()));
                },
            };
            let finish: Option<FinishReason> = match stop_reason {
                Some(s) => {
                    if str_eq(s.as_str(), "end_turn") || str_eq(s.as_str(), "stop_sequence") {
                        Some(FinishReason::Stop)
                    } else if str_eq(s.as_str(), "max_tokens") {
                        Some(FinishReason::Length)
                    } else if str_eq(s.as_str(), "tool_use") {
                        Some(FinishReason::ToolCalls)
                    } else {
                        None
                    }
                },
                None => None,
            };
            if let Some(u) = &self.current_usage {
                self.current_usage = Some(
                    Usage {
                        input_tokens: u.input_tokens,
                        output_tokens: out_tokens,
                        cache_read_input_tokens: u.cache_read_input_tokens,
                        cache_creation_input_tokens: u.cache_creation_input_tokens,
                    },
                );
            }
            let mut chunk = StreamChunk::empty(ChunkKind::Unknown);
            chunk.usage = self.current_usage;
            chunk.finish_reason = finish;
            Ok(Some(chunk))
        } else if str_eq(ty.as_str(), "message_stop") || str_eq(ty.as_str(), "ping") {
            Ok(None)
        } else if str_eq(ty.as_str(), "error") {
            let e = match get_req_obj(&v, "error") {
                Ok(x) => x,
                Err(_) => {
                    return Err(Error::parse("unexpected schema".to_owned()));
                },
            };
            match get_req_str(e, "message") {
                Ok(msg) => Err(Error::Api { status: 0, message: msg.clone() }),
                Err(_) => Err(Error::parse("unexpected schema".to_owned())),
            }
        } else {
            Err(Error::parse("unexpected schema".to_owned()))
        }
    }
}

/// The decoded form of a terminal response: text blocks concatenate, tool
/// blocks become calls whose arguments are the JSON text of their input, a
/// thinking block contributes nothing.
pub open spec fn spec_anthropic_block(j: JsonV) -> Result<(Seq<char>, Seq<ToolCallV>), ErrorV> {
    let schema_err = ErrorV::Parse("unexpected schema"@);
    match field_req_str(j, "type"@) {
        Err(_) => Err(schema_err),
        Ok(bt) => if bt == "text"@ {
            match field_req_str(j, "text"@) {
                Err(_) => Err(schema_err),
                Ok(text) => Ok((text, Seq::empty())),
            }
        } else if bt == "tool_use"@ {
            match (field_req_str(j, "id"@), field_req_str(j, "name"@), spec_get(j, "input"@)) {
                (Ok(id), Ok(name), Some(input)) => if valid_utf8(spec_json_bytes(input)) {
                    Ok(
                        (
                            Seq::empty(),
                            seq![
                                ToolCallV {
                                    id: id,
                                    tool_type: "function"@,
                                    function: FunctionCallV {
                                        name: name,
                                        arguments: decode_utf8(spec_json_bytes(input)),
                                    },
                                },
                            ],
                        ),
                    )
                } else {
                    Err(schema_err)
                },
                _ => Err(schema_err),
            }
        } else if bt == "thinking"@ {
            match (field_req_str(j, "thinking"@), field_req_str(j, "signature"@)) {
                (Ok(_), Ok(_)) => Ok((Seq::empty(), Seq::empty())),
                _ => Err(schema_err),
            }
        } else {
            Err(schema_err)
        },
    }
}

pub open spec fn spec_anthropic_blocks(items: Seq<JsonV>) -> Result<(Seq<char>, Seq<ToolCallV>), ErrorV>
    decreases items.len(),
{
    if items.len() == 0 {
        Ok((Seq::empty(), Seq::empty()))
    } else {
        match (spec_anthropic_blocks(items.drop_last()), spec_anthropic_block(items.last())) {
            (Ok((t0, c0)), Ok((t1, c1))) => Ok((t0 + t1, c0 + c1)),
            (Err(e), _) => Err(e),
            (_, Err(e)) => Err(e),
        }
    }
}

/// The decoded form of a terminal response of this protocol.
pub open spec fn spec_anthropic_response(j: JsonV) -> Result<CompletionResultV, ErrorV> {
    let schema_err = ErrorV::Parse("unexpected schema"@);
    match (
        field_req_str(j, "model"@),
        field_req_arr(j, "content"@),
        field_opt_str(j, "stop_reason"@),
        field_req_obj(j, "usage"@),
    ) {
        (Ok(model), Ok(blocks), Ok(stop_reason), Ok(uj)) => match (
            spec_anthropic_usage(uj),
            spec_anthropic_blocks(blocks),
        ) {
            (Ok(usage), Ok((content, calls))) => Ok(
                CompletionResultV {
                    content: content,
                    usage: usage,
                    model: model,
                    finish_reason: spec_anthropic_finish(stop_reason),
                    tool_calls: calls,
                },
            ),
            (Err(_), _) => Err(schema_err),
            (_, Err(e)) => Err(e),
        },
        _ => Err(schema_err),
    }
}

proof fn lemma_anthropic_block_err_val(j: JsonV)
    ensures
        spec_anthropic_block(j) is Err ==> spec_anthropic_block(j) == Err::<
            (Seq<char>, Seq<ToolCallV>),
            ErrorV,
        >(ErrorV::Parse("unexpected schema"@)),
{
}

proof fn lemma_anthropic_blocks_err(items: Seq<JsonV>, k: int)
    requires
        0 <= k < items.len(),
        spec_anthropic_block(items[k]) is Err,
    ensures
        spec_anthropic_blocks(items) == Err::<(Seq<char>, Seq<ToolCallV>), ErrorV>(
            ErrorV::Parse("unexpected schema"@),
        ),
    decreases items.len(),
{
    lemma_anthropic_blocks_err_any(items);
    if k < items.len() - 1 {
        lemma_anthropic_blocks_err(items.drop_last(), k);
    } else {
        lemma_anthropic_block_err_val(items[k]);
    }
}

/// Any failure of the block fold carries the schema error.
proof fn lemma_anthropic_blocks_err_any(items: Seq<JsonV>)
    ensures
        spec_anthropic_blocks(items) is Err ==> spec_anthropic_blocks(items) == Err::<
            (Seq<char>, Seq<ToolCallV>),
            ErrorV,
        >(ErrorV::Parse("unexpected schema"@)),
    decreases items.len(),
{
    if items.len() > 0 {
        lemma_anthropic_blocks_err_any(items.drop_last());
        lemma_anthropic_block_err_val(items.last());
    }
}

#[verifier::loop_isolation(false)]
#[verifier::rlimit(60)]
fn decode_anthropic_response(v: &JsonValue) -> (r: Result<CompletionResult, Error>)
    ensures
        match spec_anthropic_response(v@) {
            Ok(cv) => r matches Ok(c) && c@ == cv,
            Err(ev) => r matches Err(e) && e@ == ev,
        },
{
    let model = match get_req_str(v, "model") {
        Ok(s) => s.clone(),
        Err(_) => {
            return Err(Error::parse("unexpected schema".to_owned()));
        },
    };
    let blocks = match get_req_arr(v, "content") {
        Ok(b) => b,
        Err(_) => {
            return Err(Error::parse("unexpected schema".to_owned()));
        },
    };
    let stop_reason = match get_opt_str(v, "stop_reason") {
        Ok(s) => s,
        Err(_) => {
            return Err(Error::parse("unexpected schema".to_owned()));
        },
    };
    let uj = match get_req_obj(v, "usage") {
        Ok(u) => u,
        Err(_) => {
            return Err(Error::parse("unexpected schema".to_owned()));
        },
    };
    let usage = match decode_anthropic_usage(uj) {
        Ok(u) => u,
        Err(_) => {
            return Err(Error::parse("unexpected schema".to_owned()));
        },
    };
    let finish_reason: FinishReason = match &stop_reason {
        Some(s) => {
            if str_eq(s.as_str(), "end_turn") || str_eq(s.as_str(), "stop_sequence") {
                FinishReason::Stop
            } else if str_eq(s.as_str(), "max_tokens") {
                FinishReason::Length
            } else if str_eq(s.as_str(), "tool_use") {
                FinishReason::ToolCalls
            } else {
                FinishReason::Unknown
            }
        },
        None => FinishReason::Unknown,
    };
    let ghost bv = items_view(blocks@);
    let mut content = String::new();
    let mut tool_calls: Vec<ToolCall> = Vec::new();
    proof {
        assert(bv.take(0) =~= Seq::<JsonV>::empty());
        assert(tool_calls_view(tool_calls@) =~= Seq::<ToolCallV>::empty());
    }
    let mut i: usize = 0;
    while i < blocks.len()
        invariant
            0 <= i <= blocks@.len(),
            bv == items_view(blocks@),
            spec_anthropic_blocks(bv.take(i as int)) == Ok::<(Seq<char>, Seq<ToolCallV>), ErrorV>(
                (content@, tool_calls_view(tool_calls@)),
            ),
        decreases blocks@.len() - i,
    {
        proof {
            assert(bv.take(i + 1).drop_last() =~= bv.take(i as int));
        }
        let b = &blocks[i];
        let bt = match get_req_str(b, "type") {
            Ok(t) => t,
            Err(_) => {
                proof {
                    lemma_anthropic_blocks_err(bv, i as int);
                }
                return Err(Error::parse("unexpected schema".to_owned()));
            },
        };
        if str_eq(bt.as_str(), "text") {
            match get_req_str(b, "text") {
                Ok(text) => {
                    content.append(text.as_str());
                },
                Err(_) => {
                    proof {
                        lemma_anthropic_blocks_err(bv, i as int);
                    }
                    return Err(Error::parse("unexpected schema".to_owned()));
                },
            }
        } else if str_eq(bt.as_str(), "tool_use") {
            let id = match get_req_str(b, "id") {
                Ok(s) => s.clone(),
                Err(_) => {
                    proof {
                        lemma_anthropic_blocks_err(bv, i as int);
                    }
                    return Err(Error::parse("unexpected schema".to_owned()));
                },
            };
            let name = match get_req_str(b, "name") {
                Ok(s) => s.clone(),
                Err(_) => {
                    proof {
                        lemma_anthropic_blocks_err(bv, i as int);
                    }
                    return Err(Error::parse("unexpected schema".to_owned()));
                },
            };
            let input = match b.get("input") {
                Some(x) => x,
                None => {
                    proof {
                        lemma_anthropic_blocks_err(bv, i as int);
                    }
                    return Err(Error::parse("unexpected schema".to_owned()));
                },
            };
            let args = match to_json_string(input) {
                Some(s) => s,
                None => {
                    proof {
                        lemma_anthropic_blocks_err(bv, i as int);
                    }
                    return Err(Error::parse("unexpected schema".to_owned()));
                },
            };
            tool_calls.push(
                ToolCall {
                    id,
                    tool_type: "function".to_owned(),
                    function: FunctionCall { name, arguments: args },
                },
            );
        } else if str_eq(bt.as_str(), "thinking") {
            match (get_req_str(b, "thinking"), get_req_str(b, "signature")) {
                (Ok(_), Ok(_)) => {},
                _ => {
                    proof {
                        lemma_anthropic_blocks_err(bv, i as int);
                    }
                    return Err(Error::parse("unexpected schema".to_owned()));
                },
            }
        } else {
            proof {
                lemma_anthropic_blocks_err(bv, i as int);
            }
            return Err(Error::parse("unexpected schema".to_owned()));
        }
        proof {
            assert(spec_anthropic_blocks(bv.take(i + 1)) is Ok);
            assert(content@ =~= (spec_anthropic_blocks(bv.take(i + 1))->Ok_0).0);
            assert(tool_calls_view(tool_calls@) =~= (spec_anthropic_blocks(bv.take(i + 1))->Ok_0).1);
        }
        i = i + 1;
    }
    proof {
        assert(bv.take(blocks@.len() as int) =~= bv);
    }
    Ok(CompletionResult { content, usage, model, finish_reason, tool_calls })
}

/// How a parsed terminal response must relate to the body text.
pub open spec fn anthropic_response_matches(
    body: Seq<char>,
    r: Result<CompletionResult, Error>,
) -> bool {
    match spec_parse_json(body) {
        None => r matches Err(e) && e@ == ErrorV::Parse("invalid JSON"@),
        Some(j) => match spec_anthropic_response(j) {
            Ok(cv) => r matches Ok(c) && c@ == cv,
            Err(ev) => r matches Err(e) && e@ == ev,
        },
    }
}

} // verus!
