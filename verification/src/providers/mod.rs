//! Provider adapters for the supported wire protocols.

pub mod cerebras;
pub mod anthropic;
pub mod gemini;
pub mod openai;

use vstd::prelude::*;

use crate::json::{JsonValue, JsonV, spec_get, spec_obj_set, spec_parse_u64, fields_view,
    items_view, obj_set};
use crate::types::{Tool, ToolV, tools_view};

verus! {

use vstd::string::StringExecFns;

/// Tool choice configuration.
pub enum ToolChoice {
    Auto,
    NoTools,
    Required,
    Function(String),
}

pub enum ToolChoiceV {
    Auto,
    NoTools,
    Required,
    Function(Seq<char>),
}

impl View for ToolChoice {
    type V = ToolChoiceV;

    open spec fn view(&self) -> ToolChoiceV {
        match self {
            ToolChoice::Auto => ToolChoiceV::Auto,
            ToolChoice::NoTools => ToolChoiceV::NoTools,
            ToolChoice::Required => ToolChoiceV::Required,
            ToolChoice::Function(name) => ToolChoiceV::Function(name@),
        }
    }
}

/// The OpenAI-style encoding of a tool choice: a bare mode string, or a
/// function selector object.
pub open spec fn spec_tool_choice_value(c: ToolChoiceV) -> JsonV {
    match c {
        ToolChoiceV::Auto => JsonV::Str("auto"@),
        ToolChoiceV::NoTools => JsonV::Str("none"@),
        ToolChoiceV::Required => JsonV::Str("required"@),
        ToolChoiceV::Function(name) => JsonV::Obj(
            seq![
                ("type"@, JsonV::Str("function"@)),
                ("function"@, JsonV::Obj(seq![("name"@, JsonV::Str(name))])),
            ],
        ),
    }
}

impl ToolChoice {
    /// Encode in the OpenAI chat-completions shape.
    pub fn to_value(&self) -> (r: JsonValue)
        ensures
            r@ == spec_tool_choice_value(self@),
    {
        match self {
            ToolChoice::Auto => JsonValue::string("auto"),
            ToolChoice::NoTools => JsonValue::string("none"),
            ToolChoice::Required => JsonValue::string("required"),
            ToolChoice::Function(name) => {
                let mut inner: Vec<(String, JsonValue)> = Vec::new();
                inner.push(("name".to_owned(), JsonValue::Str(name.clone())));
                let ghost iv = fields_view(inner@);
                let mut fields: Vec<(String, JsonValue)> = Vec::new();
                fields.push(("type".to_owned(), JsonValue::string("function")));
                fields.push(("function".to_owned(), JsonValue::Obj(inner)));
                let ghost fv = fields_view(fields@);
                let r = JsonValue::Obj(fields);
                proof {
                    broadcast use crate::json::lemma_jv_view_obj;

                    assert(iv =~= seq![("name"@, JsonV::Str(name@))]);
                    assert(fv =~= seq![
                        ("type"@, JsonV::Str("function"@)),
                        ("function"@, JsonV::Obj(iv)),
                    ]);
                    assert(r@ == JsonV::Obj(fv));
                }
                r
            },
        }
    }
}

/// Request configuration shared across providers. Sampling parameters are
/// carried in thousandths (a temperature of `700` reads as 0.7).
pub struct RequestConfig {
    pub max_tokens: Option<u32>,
    pub temperature_milli: Option<u32>,
    pub top_p_milli: Option<u32>,
    pub stop: Option<Vec<String>>,
    pub tools: Option<Vec<Tool>>,
    pub tool_choice: Option<ToolChoice>,
    pub system: Option<String>,
    /// Extra provider-specific fields, shallow-merged into the request body.
    pub extra: Option<Vec<(String, JsonValue)>>,
}

pub struct RequestConfigV {
    pub max_tokens: Option<u32>,
    pub temperature_milli: Option<u32>,
    pub top_p_milli: Option<u32>,
    pub stop: Option<Seq<Seq<char>>>,
    pub tools: Option<Seq<ToolV>>,
    pub tool_choice: Option<ToolChoiceV>,
    pub system: Option<Seq<char>>,
    pub extra: Option<Seq<(Seq<char>, JsonV)>>,
}

/// View of a list of stop sequences.
pub open spec fn stops_view(stop: Seq<String>) -> Seq<Seq<char>> {
    Seq::new(
        stop.len(),
        |i: int|
            if 0 <= i < stop.len() {
                stop[i]@
            } else {
                Seq::empty()
            },
    )
}

impl View for RequestConfig {
    type V = RequestConfigV;

    open spec fn view(&self) -> RequestConfigV {
        RequestConfigV {
            max_tokens: self.max_tokens,
            temperature_milli: self.temperature_milli,
            top_p_milli: self.top_p_milli,
            stop: match self.stop {
                Some(s) => Some(stops_view(s@)),
                None => None,
            },
            tools: match self.tools {
                Some(t) => Some(tools_view(t@)),
                None => None,
            },
            tool_choice: match self.tool_choice {
                Some(c) => Some(c@),
                None => None,
            },
            system: match self.system {
                Some(s) => Some(s@),
                None => None,
            },
            extra: match self.extra {
                Some(e) => Some(fields_view(e@)),
                None => None,
            },
        }
    }
}

/// The configuration with nothing set.
pub open spec fn empty_config() -> RequestConfigV {
    RequestConfigV {
        max_tokens: None,
        temperature_milli: None,
        top_p_milli: None,
        stop: None,
        tools: None,
        tool_choice: None,
        system: None,
        extra: None,
    }
}

impl RequestConfig {
    /// The configuration with nothing set.
    pub fn new() -> (r: RequestConfig)
        ensures
            r@ == empty_config(),
    {
        RequestConfig {
            max_tokens: None,
            temperature_milli: None,
            top_p_milli: None,
            stop: None,
            tools: None,
            tool_choice: None,
            system: None,
            extra: None,
        }
    }
}

impl Default for RequestConfig {
    /// The configuration with nothing set.
    fn default() -> (r: RequestConfig)
        ensures
            r@ == empty_config(),
    {
        RequestConfig::new()
    }
}

/// Shallow merge of extra fields into a body's field list, replacing fields
/// that are already there.
pub open spec fn fold_obj_set(
    fields: Seq<(Seq<char>, JsonV)>,
    extra: Seq<(Seq<char>, JsonV)>,
) -> Seq<(Seq<char>, JsonV)>
    decreases extra.len(),
{
    if extra.len() == 0 {
        fields
    } else {
        spec_obj_set(fold_obj_set(fields, extra.drop_last()), extra.last().0, extra.last().1)
    }
}

/// Merge the configuration's extra fields into a body under construction.
#[verifier::loop_isolation(false)]
pub fn merge_extra(fields: &mut Vec<(String, JsonValue)>, extra: &Option<Vec<(String, JsonValue)>>)
    ensures
        fields_view(final(fields)@) == (match extra {
            Some(e) => fold_obj_set(fields_view(old(fields)@), fields_view(e@)),
            None => fields_view(old(fields)@),
        }),
{
    match extra {
        None => {},
        Some(e) => {
            let ghost ev = fields_view(e@);
            let mut i: usize = 0;
            while i < e.len()
                invariant
                    0 <= i <= e.len(),
                    ev == fields_view(e@),
                    fields_view(fields@) == fold_obj_set(fields_view(old(fields)@), ev.take(
                        i as int,
                    )),
                decreases e.len() - i,
            {
                proof {
                    assert(ev.take(i + 1).drop_last() =~= ev.take(i as int));
                }
                obj_set(fields, e[i].0.clone(), e[i].1.clone_value());
                i = i + 1;
            }
            proof {
                assert(ev.take(e@.len() as int) =~= ev);
            }
        },
    }
}

/// A field read that tolerates absence: absent and `null` read as `None`, a
/// string reads as itself, anything else refuses.
pub open spec fn field_opt_str(j: JsonV, key: Seq<char>) -> Result<Option<Seq<char>>, ()> {
    match spec_get(j, key) {
        None => Ok(None),
        Some(JsonV::Null) => Ok(None),
        Some(JsonV::Str(s)) => Ok(Some(s)),
        Some(_) => Err(()),
    }
}

pub fn get_opt_str<'a>(v: &'a JsonValue, key: &str) -> (r: Result<Option<&'a String>, ()>)
    ensures
        match r {
            Ok(Some(s)) => field_opt_str(v@, key@) == Ok::<Option<Seq<char>>, ()>(Some(s@)),
            Ok(None) => field_opt_str(v@, key@) == Ok::<Option<Seq<char>>, ()>(None),
            Err(_) => field_opt_str(v@, key@) is Err,
        },
{
    match v.get(key) {
        None => Ok(None),
        Some(x) => match x {
            JsonValue::Null => Ok(None),
            JsonValue::Str(s) => Ok(Some(s)),
            _ => Err(()),
        },
    }
}

/// A required string field.
pub open spec fn field_req_str(j: JsonV, key: Seq<char>) -> Result<Seq<char>, ()> {
    match spec_get(j, key) {
        Some(JsonV::Str(s)) => Ok(s),
        _ => Err(()),
    }
}

pub fn get_req_str<'a>(v: &'a JsonValue, key: &str) -> (r: Result<&'a String, ()>)
    ensures
        match r {
            Ok(s) => field_req_str(v@, key@) == Ok::<Seq<char>, ()>(s@),
            Err(_) => field_req_str(v@, key@) is Err,
        },
{
    match v.get(key) {
        Some(JsonValue::Str(s)) => Ok(s),
        _ => Err(()),
    }
}

/// An optional unsigned 32-bit field: absent and `null` read as `None`.
pub open spec fn field_opt_u32(j: JsonV, key: Seq<char>) -> Result<Option<u32>, ()> {
    match spec_get(j, key) {
        None => Ok(None),
        Some(JsonV::Null) => Ok(None),
        Some(JsonV::Num(s)) => match spec_parse_u64(s) {
            Some(n) => if n <= u32::MAX {
                Ok(Some(n as u32))
            } else {
                Err(())
            },
            None => Err(()),
        },
        Some(_) => Err(()),
    }
}

pub fn get_opt_u32(v: &JsonValue, key: &str) -> (r: Result<Option<u32>, ()>)
    ensures
        match r {
            Ok(o) => field_opt_u32(v@, key@) == Ok::<Option<u32>, ()>(o),
            Err(_) => field_opt_u32(v@, key@) is Err,
        },
{
    match v.get(key) {
        None => Ok(None),
        Some(x) => match x {
            JsonValue::Null => Ok(None),
            JsonValue::Num(_) => match x.as_u32() {
                Some(n) => Ok(Some(n)),
                None => Err(()),
            },
            _ => Err(()),
        },
    }
}

/// A required unsigned 32-bit field.
pub open spec fn field_req_u32(j: JsonV, key: Seq<char>) -> Result<u32, ()> {
    match field_opt_u32(j, key) {
        Ok(Some(n)) => Ok(n),
        _ => Err(()),
    }
}

pub fn get_req_u32(v: &JsonValue, key: &str) -> (r: Result<u32, ()>)
    ensures
        match r {
            Ok(n) => field_req_u32(v@, key@) == Ok::<u32, ()>(n),
            Err(_) => field_req_u32(v@, key@) is Err,
        },
{
    match get_opt_u32(v, key) {
        Ok(Some(n)) => Ok(n),
        _ => Err(()),
    }
}

/// A required array field; the items come back for further decoding.
pub open spec fn field_req_arr(j: JsonV, key: Seq<char>) -> Result<Seq<JsonV>, ()> {
    match spec_get(j, key) {
        Some(JsonV::Arr(items)) => Ok(items),
        _ => Err(()),
    }
}

pub fn get_req_arr<'a>(v: &'a JsonValue, key: &str) -> (r: Result<&'a Vec<JsonValue>, ()>)
    ensures
        match r {
            Ok(items) => field_req_arr(v@, key@) == Ok::<Seq<JsonV>, ()>(items_view(items@)),
            Err(_) => field_req_arr(v@, key@) is Err,
        },
{
    match v.get(key) {
        Some(x) => match x.as_array() {
            Some(items) => Ok(items),
            None => Err(()),
        },
        None => Err(()),
    }
}

/// An optional array field: absent and `null` read as `None`.
pub open spec fn field_opt_arr(j: JsonV, key: Seq<char>) -> Result<Option<Seq<JsonV>>, ()> {
    match spec_get(j, key) {
        None => Ok(None),
        Some(JsonV::Null) => Ok(None),
        Some(JsonV::Arr(items)) => Ok(Some(items)),
        Some(_) => Err(()),
    }
}

pub fn get_opt_arr<'a>(v: &'a JsonValue, key: &str) -> (r: Result<Option<&'a Vec<JsonValue>>, ()>)
    ensures
        match r {
            Ok(Some(items)) => field_opt_arr(v@, key@) == Ok::<Option<Seq<JsonV>>, ()>(
                Some(items_view(items@)),
            ),
            Ok(None) => field_opt_arr(v@, key@) == Ok::<Option<Seq<JsonV>>, ()>(None),
            Err(_) => field_opt_arr(v@, key@) is Err,
        },
{
    match v.get(key) {
        None => Ok(None),
        Some(x) => match x {
            JsonValue::Null => Ok(None),
            JsonValue::Arr(_) => match x.as_array() {
                Some(items) => Ok(Some(items)),
                None => Err(()),
            },
            _ => Err(()),
        },
    }
}

/// A required object field; the value comes back for further decoding.
pub open spec fn field_req_obj(j: JsonV, key: Seq<char>) -> Result<JsonV, ()> {
    match spec_get(j, key) {
        Some(JsonV::Obj(fs)) => Ok(JsonV::Obj(fs)),
        _ => Err(()),
    }
}

pub fn get_req_obj<'a>(v: &'a JsonValue, key: &str) -> (r: Result<&'a JsonValue, ()>)
    ensures
        match r {
            Ok(x) => field_req_obj(v@, key@) == Ok::<JsonV, ()>(x@),
            Err(_) => field_req_obj(v@, key@) is Err,
        },
{
    match v.get(key) {
        Some(x) => if x.as_object().is_some() {
            Ok(x)
        } else {
            Err(())
        },
        None => Err(()),
    }
}

/// One of the supported providers, dispatched in one place.
pub enum AnyProvider {
    Cerebras(cerebras::CerebrasProvider),
    Anthropic(anthropic::AnthropicProvider),
    Gemini(gemini::GeminiProvider),
    OpenAI(openai::OpenAIProvider),
}

/// The streaming event decoder of one of the supported providers.
pub enum EventDecoder {
    Cerebras(cerebras::CerebrasParser),
    Anthropic(anthropic::AnthropicParser),
    Gemini(gemini::GeminiParser),
    OpenAI(openai::OpenAIParser),
}

/// Model of a decoder: which protocol it speaks and its state.
pub enum DecoderV {
    Cerebras,
    Anthropic(anthropic::AnthropicStateV),
    Gemini(Option<crate::types::Usage>),
    OpenAI(openai::OaStateV),
}

impl View for EventDecoder {
    type V = DecoderV;

    open spec fn view(&self) -> DecoderV {
        match self {
            EventDecoder::Cerebras(_) => DecoderV::Cerebras,
            EventDecoder::Anthropic(p) => DecoderV::Anthropic(p@),
            EventDecoder::Gemini(p) => DecoderV::Gemini(p@),
            EventDecoder::OpenAI(p) => DecoderV::OpenAI(p@),
        }
    }
}

/// How one decoded event must relate to the payload and the decoder states,
/// whichever protocol the decoder speaks.
pub open spec fn decoder_chunk_matches(
    d0: DecoderV,
    d1: DecoderV,
    data: Seq<char>,
    r: Result<Option<crate::types::StreamChunk>, crate::error::Error>,
) -> bool {
    match (d0, d1) {
        (DecoderV::Cerebras, DecoderV::Cerebras) => cerebras::cerebras_chunk_matches(data, r),
        (DecoderV::Anthropic(s0), DecoderV::Anthropic(s1)) => anthropic::anthropic_chunk_matches(
            data,
            s0,
            s1,
            r,
        ),
        (DecoderV::Gemini(s0), DecoderV::Gemini(s1)) => exists|rand: u32|
            gemini::gemini_chunk_matches(data, s0, s1, r, rand),
        (DecoderV::OpenAI(s0), DecoderV::OpenAI(s1)) => openai::oa_chunk_matches(data, s0, s1, r),
        _ => false,
    }
}

impl EventDecoder {
    /// Whether a data payload ends the stream: only the OpenAI-compatible
    /// protocol has a sentinel, the exact payload `[DONE]`.
    pub fn is_end_of_stream(&self, data: &str) -> (r: bool)
        ensures
            r == (self@ is Cerebras && data@ == "[DONE]"@),
    {
        match self {
            EventDecoder::Cerebras(p) => p.is_end_of_stream(data),
            EventDecoder::Anthropic(p) => p.is_end_of_stream(data),
            EventDecoder::Gemini(p) => p.is_end_of_stream(data),
            EventDecoder::OpenAI(p) => p.is_end_of_stream(data),
        }
    }

    /// Decode one SSE data payload into at most one chunk.
    pub fn parse_chunk(&mut self, data: &str) -> (r: Result<
        Option<crate::types::StreamChunk>,
        crate::error::Error,
    >)
        ensures
            decoder_chunk_matches(old(self)@, final(self)@, data@, r),
    {
        match self {
            EventDecoder::Cerebras(p) => p.parse_chunk(data),
            EventDecoder::Anthropic(p) => p.parse_chunk(data),
            EventDecoder::Gemini(p) => p.parse_chunk(data),
            EventDecoder::OpenAI(p) => p.parse_chunk(data),
        }
    }
}

/// The body a provider builds for a streaming request.
pub open spec fn spec_any_stream_body(
    p: AnyProvider,
    model: Seq<char>,
    msgs: Seq<crate::types::MessageV>,
    cfg: RequestConfigV,
) -> JsonV {
    match p {
        AnyProvider::Cerebras(_) => cerebras::spec_stream_body(model, msgs, cfg),
        AnyProvider::Anthropic(_) => anthropic::spec_anthropic_stream_body(model, msgs, cfg),
        AnyProvider::Gemini(_) => gemini::spec_gemini_body(msgs, cfg),
        AnyProvider::OpenAI(_) => openai::spec_oa_stream_body(model, msgs, cfg),
    }
}

/// The body a provider builds for a terminal request.
pub open spec fn spec_any_complete_body(
    p: AnyProvider,
    model: Seq<char>,
    msgs: Seq<crate::types::MessageV>,
    cfg: RequestConfigV,
) -> JsonV {
    match p {
        AnyProvider::Cerebras(_) => cerebras::spec_complete_body(model, msgs, cfg),
        AnyProvider::Anthropic(_) => anthropic::spec_anthropic_complete_body(model, msgs, cfg),
        AnyProvider::Gemini(_) => gemini::spec_gemini_body(msgs, cfg),
        AnyProvider::OpenAI(_) => openai::spec_oa_complete_body(model, msgs, cfg),
    }
}

/// The headers a provider sends.
pub open spec fn spec_any_headers(p: AnyProvider, key: Seq<char>) -> Seq<(Seq<char>, Seq<char>)> {
    match p {
        AnyProvider::Cerebras(_) => seq![
            ("content-type"@, "application/json"@),
            ("authorization"@, "Bearer "@ + key),
        ],
        AnyProvider::Anthropic(_) => seq![
            ("content-type"@, "application/json"@),
            ("anthropic-version"@, anthropic::spec_anthropic_version()),
            ("x-api-key"@, key),
        ],
        AnyProvider::Gemini(g) => if g.api_key_in_query {
            seq![("content-type"@, "application/json"@)]
        } else {
            seq![("content-type"@, "application/json"@), ("x-goog-api-key"@, key)]
        },
        AnyProvider::OpenAI(_) => seq![
            ("content-type"@, "application/json"@),
            ("authorization"@, "Bearer "@ + key),
        ],
    }
}

/// The URL a provider's streaming request goes to.
pub open spec fn spec_any_stream_url(p: AnyProvider, model: Seq<char>, key: Seq<char>) -> Seq<
    char,
> {
    match p {
        AnyProvider::Cerebras(c) => c.base_url@ + "/chat/completions"@,
        AnyProvider::Anthropic(c) => c.base_url@ + "/v1/messages"@,
        AnyProvider::Gemini(g) => if g.api_key_in_query {
            g.base_url@ + "/models/"@ + model + ":streamGenerateContent?alt=sse"@ + "&key="@ + key
        } else {
            g.base_url@ + "/models/"@ + model + ":streamGenerateContent?alt=sse"@
        },
        AnyProvider::OpenAI(c) => c.base_url@ + "/v1/responses"@,
    }
}

/// The URL a provider's terminal request goes to.
pub open spec fn spec_any_complete_url(p: AnyProvider, model: Seq<char>, key: Seq<char>) -> Seq<
    char,
> {
    match p {
        AnyProvider::Cerebras(c) => c.base_url@ + "/chat/completions"@,
        AnyProvider::Anthropic(c) => c.base_url@ + "/v1/messages"@,
        AnyProvider::Gemini(g) => if g.api_key_in_query {
            g.base_url@ + "/models/"@ + model + ":generateContent"@ + "?key="@ + key
        } else {
            g.base_url@ + "/models/"@ + model + ":generateContent"@
        },
        AnyProvider::OpenAI(c) => c.base_url@ + "/v1/responses"@,
    }
}

/// How a provider's parsed terminal response must relate to the body text.
pub open spec fn any_response_matches(
    p: AnyProvider,
    body: Seq<char>,
    r: Result<crate::types::CompletionResult, crate::error::Error>,
) -> bool {
    match p {
        AnyProvider::Cerebras(_) => cerebras::cerebras_response_matches(body, r),
        AnyProvider::Anthropic(_) => anthropic::anthropic_response_matches(body, r),
        AnyProvider::Gemini(_) => gemini::gemini_response_matches(body, r),
        AnyProvider::OpenAI(_) => openai::oa_response_matches(body, r),
    }
}

/// The initial decoder state of a provider.
pub open spec fn spec_initial_decoder(p: AnyProvider) -> DecoderV {
    match p {
        AnyProvider::Cerebras(_) => DecoderV::Cerebras,
        AnyProvider::Anthropic(_) => DecoderV::Anthropic(anthropic::initial_anthropic_state()),
        AnyProvider::Gemini(_) => DecoderV::Gemini(None),
        AnyProvider::OpenAI(_) => DecoderV::OpenAI(openai::initial_oa_state()),
    }
}

impl AnyProvider {
    /// The provider's name.
    pub fn name(&self) -> (r: &'static str)
        ensures
            r@ == (match self {
                AnyProvider::Cerebras(_) => "cerebras"@,
                AnyProvider::Anthropic(_) => "anthropic"@,
                AnyProvider::Gemini(_) => "gemini"@,
                AnyProvider::OpenAI(_) => "openai"@,
            }),
    {
        match self {
            AnyProvider::Cerebras(p) => p.name(),
            AnyProvider::Anthropic(p) => p.name(),
            AnyProvider::Gemini(p) => p.name(),
            AnyProvider::OpenAI(p) => p.name(),
        }
    }

    /// Request headers including auth.
    pub fn headers(&self, api_key: &str) -> (r: Vec<(String, String)>)
        ensures
            cerebras::fields_header_view(r@) == spec_any_headers(*self, api_key@),
    {
        match self {
            AnyProvider::Cerebras(p) => p.headers(api_key),
            AnyProvider::Anthropic(p) => p.headers(api_key),
            AnyProvider::Gemini(p) => p.headers(api_key),
            AnyProvider::OpenAI(p) => p.headers(api_key),
        }
    }

    /// The URL for streaming requests.
    pub fn stream_url(&self, model: &str, api_key: &str) -> (r: String)
        ensures
            r@ == spec_any_stream_url(*self, model@, api_key@),
    {
        match self {
            AnyProvider::Cerebras(p) => p.stream_url(model, api_key),
            AnyProvider::Anthropic(p) => p.stream_url(model, api_key),
            AnyProvider::Gemini(p) => p.stream_url(model, api_key),
            AnyProvider::OpenAI(p) => p.stream_url(model, api_key),
        }
    }

    /// The URL for terminal requests.
    pub fn complete_url(&self, model: &str, api_key: &str) -> (r: String)
        ensures
            r@ == spec_any_complete_url(*self, model@, api_key@),
    {
        match self {
            AnyProvider::Cerebras(p) => p.complete_url(model, api_key),
            AnyProvider::Anthropic(p) => p.complete_url(model, api_key),
            AnyProvider::Gemini(p) => p.complete_url(model, api_key),
            AnyProvider::OpenAI(p) => p.complete_url(model, api_key),
        }
    }

    /// Build the body for a streaming completion.
    pub fn build_stream_body(
        &self,
        model: &str,
        messages: &[crate::types::Message],
        config: &RequestConfig,
    ) -> (r: Result<JsonValue, crate::error::Error>)
        ensures
            r matches Ok(b) && b@ == spec_any_stream_body(
                *self,
                model@,
                crate::types::msgs_view(messages@),
                config@,
            ),
    {
        match self {
            AnyProvider::Cerebras(p) => p.build_stream_body(model, messages, config),
            AnyProvider::Anthropic(p) => p.build_stream_body(model, messages, config),
            AnyProvider::Gemini(p) => p.build_stream_body(model, messages, config),
            AnyProvider::OpenAI(p) => p.build_stream_body(model, messages, config),
        }
    }

    /// Build the body for a terminal completion.
    pub fn build_complete_body(
        &self,
        model: &str,
        messages: &[crate::types::Message],
        config: &RequestConfig,
    ) -> (r: Result<JsonValue, crate::error::Error>)
        ensures
            r matches Ok(b) && b@ == spec_any_complete_body(
                *self,
                model@,
                crate::types::msgs_view(messages@),
                config@,
            ),
    {
        match self {
            AnyProvider::Cerebras(p) => p.build_complete_body(model, messages, config),
            AnyProvider::Anthropic(p) => p.build_complete_body(model, messages, config),
            AnyProvider::Gemini(p) => p.build_complete_body(model, messages, config),
            AnyProvider::OpenAI(p) => p.build_complete_body(model, messages, config),
        }
    }

    /// Create the event decoder for this provider's stream.
    pub fn create_parser(&self) -> (r: EventDecoder)
        ensures
            r@ == spec_initial_decoder(*self),
    {
        match self {
            AnyProvider::Cerebras(p) => EventDecoder::Cerebras(p.create_parser()),
            AnyProvider::Anthropic(p) => EventDecoder::Anthropic(p.create_parser()),
            AnyProvider::Gemini(p) => EventDecoder::Gemini(p.create_parser()),
            AnyProvider::OpenAI(p) => EventDecoder::OpenAI(p.create_parser()),
        }
    }

    /// Parse a terminal (non-streaming) response body.
    pub fn parse_response(&self, body: &str) -> (r: Result<
        crate::types::CompletionResult,
        crate::error::Error,
    >)
        ensures
            any_response_matches(*self, body@, r),
    {
        match self {
            AnyProvider::Cerebras(p) => p.parse_response(body),
            AnyProvider::Anthropic(p) => p.parse_response(body),
            AnyProvider::Gemini(p) => p.parse_response(body),
            AnyProvider::OpenAI(p) => p.parse_response(body),
        }
    }
}

/// Which provider a name selects and how its base URL is set.
pub open spec fn spec_provider_for(
    name: Seq<char>,
    base_url: Option<Seq<char>>,
    r: Option<AnyProvider>,
) -> bool {
    if name == "cerebras"@ {
        r matches Some(AnyProvider::Cerebras(p)) && p.base_url@ == (match base_url {
            Some(u) => u,
            None => "https://api.cerebras.ai/v1"@,
        })
    } else if name == "anthropic"@ {
        r matches Some(AnyProvider::Anthropic(p)) && p.base_url@ == (match base_url {
            Some(u) => u,
            None => "https://api.anthropic.com"@,
        })
    } else if name == "gemini"@ {
        r matches Some(AnyProvider::Gemini(p)) && p.base_url@ == (match base_url {
            Some(u) => u,
            None => "https://generativelanguage.googleapis.com/v1beta"@,
        }) && p.api_key_in_query == false
    } else if name == "openai"@ {
        r matches Some(AnyProvider::OpenAI(p)) && p.base_url@ == (match base_url {
            Some(u) => u,
            None => "https://api.openai.com"@,
        })
    } else {
        r is None
    }
}

/// Get a provider by name.
pub fn get_provider(name: &str) -> (r: Option<AnyProvider>)
    ensures
        spec_provider_for(name@, None, r),
{
    get_provider_with_base_url(name, None)
}

/// Get a provider by name, overriding its base URL.
pub fn get_provider_with_base_url(name: &str, base_url: Option<&str>) -> (r: Option<AnyProvider>)
    ensures
        spec_provider_for(
            name@,
            match base_url {
                Some(u) => Some(u@),
                None => None,
            },
            r,
        ),
{
    if crate::json::str_eq(name, "cerebras") {
        Some(
            AnyProvider::Cerebras(
                match base_url {
                    Some(u) => cerebras::CerebrasProvider::with_base_url(u),
                    None => cerebras::CerebrasProvider::new(),
                },
            ),
        )
    } else if crate::json::str_eq(name, "anthropic") {
        Some(
            AnyProvider::Anthropic(
                match base_url {
                    Some(u) => anthropic::AnthropicProvider::with_base_url(u),
                    None => anthropic::AnthropicProvider::new(),
                },
            ),
        )
    } else if crate::json::str_eq(name, "gemini") {
        Some(
            AnyProvider::Gemini(
                match base_url {
                    Some(u) => gemini::GeminiProvider::new().with_base_url(u),
                    None => gemini::GeminiProvider::new(),
                },
            ),
        )
    } else if crate::json::str_eq(name, "openai") {
        Some(
            AnyProvider::OpenAI(
                match base_url {
                    Some(u) => openai::OpenAIProvider::with_base_url(u),
                    None => openai::OpenAIProvider::new(),
                },
            ),
        )
    } else {
        None
    }
}

} // verus!
