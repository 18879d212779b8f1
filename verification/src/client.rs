//! Request execution core: response classification, the retry decision
//! engine with exponential backoff and jitter, and request preparation from
//! a model identifier, key table and configuration.

use vstd::prelude::*;

use crate::error::{Error, ErrorV};
use crate::json::{JsonValue, JsonV, parse_json, spec_parse_json, spec_get, parse_u64_dec,
    spec_parse_u64, str_eq, to_json_bytes, spec_json_bytes, fields_view, items_view};
use crate::providers::{AnyProvider, RequestConfig, get_provider_with_base_url, spec_provider_for,
    spec_any_stream_body, spec_any_complete_body, spec_any_headers, spec_any_stream_url,
    spec_any_complete_url};
use crate::providers::cerebras::fields_header_view;
use crate::types::{Message, MessageV, msgs_view, ModelId, first_slash, valid_model_id};

verus! {

use vstd::string::StrSliceExecFns;
use vstd::string::StringExecFns;

/// The retry policy: attempt ceiling and backoff schedule, in integer
/// milliseconds with the multiplier in percent.
#[derive(Clone, Copy, Debug, PartialEq, Eq, Structural)]
pub struct RetryPolicy {
    pub max_retries: u32,
    pub initial_backoff_ms: u64,
    pub backoff_multiplier_pct: u32,
    pub max_backoff_ms: u64,
}

/// The default policy: three attempts, half a second of initial backoff,
/// doubling, capped at thirty seconds.
pub open spec fn spec_default_policy() -> RetryPolicy {
    RetryPolicy {
        max_retries: 3,
        initial_backoff_ms: 500,
        backoff_multiplier_pct: 200,
        max_backoff_ms: 30000,
    }
}

impl RetryPolicy {
    /// The default policy.
    pub fn new() -> (r: RetryPolicy)
        ensures
            r == spec_default_policy(),
    {
        RetryPolicy {
            max_retries: 3,
            initial_backoff_ms: 500,
            backoff_multiplier_pct: 200,
            max_backoff_ms: 30000,
        }
    }
}

impl Default for RetryPolicy {
    /// The default policy.
    fn default() -> (r: RetryPolicy)
        ensures
            r == spec_default_policy(),
    {
        RetryPolicy::new()
    }
}

/// The executor's state across attempts of one logical send.
#[derive(Clone, Copy, Debug, PartialEq, Eq, Structural)]
pub struct RetryState {
    /// Requests issued so far.
    pub attempt: u32,
    /// The backoff the next sleep would start from, in milliseconds.
    pub backoff_ms: u64,
}

/// The initial executor state for a policy.
pub open spec fn spec_initial_state(policy: RetryPolicy) -> RetryState {
    RetryState { attempt: 0, backoff_ms: policy.initial_backoff_ms }
}

pub fn initial_state(policy: &RetryPolicy) -> (r: RetryState)
    ensures
        r == spec_initial_state(*policy),
{
    RetryState { attempt: 0, backoff_ms: policy.initial_backoff_ms }
}

/// What one HTTP attempt came back with, as plain values: a status with the
/// parsed `Retry-After` seconds and the body, or one of the transport-level
/// failures.
pub enum HttpOutcome {
    Status { status: u16, retry_after_secs: Option<u64>, body: String },
    TimedOut,
    ConnectFailed(String),
    NetFailed(String),
}

pub enum HttpOutcomeV {
    Status { status: u16, retry_after_secs: Option<u64>, body: Seq<char> },
    TimedOut,
    ConnectFailed(Seq<char>),
    NetFailed(Seq<char>),
}

impl View for HttpOutcome {
    type V = HttpOutcomeV;

    open spec fn view(&self) -> HttpOutcomeV {
        match self {
            HttpOutcome::Status { status, retry_after_secs, body } => (HttpOutcomeV::Status {
                status: *status,
                retry_after_secs: *retry_after_secs,
                body: body@,
            }),
            HttpOutcome::TimedOut => HttpOutcomeV::TimedOut,
            HttpOutcome::ConnectFailed(m) => HttpOutcomeV::ConnectFailed(m@),
            HttpOutcome::NetFailed(m) => HttpOutcomeV::NetFailed(m@),
        }
    }
}

/// What the executor decides after one attempt.
pub enum RetryAction {
    /// The attempt succeeded (a 2xx status): hand the response over.
    Proceed,
    /// The attempt failed for good: surface this error.
    Fail(Error),
    /// The attempt failed retryably: sleep this many milliseconds and send
    /// again.
    Sleep(u64),
}

pub enum RetryActionV {
    Proceed,
    Fail(ErrorV),
    Sleep(u64),
}

impl View for RetryAction {
    type V = RetryActionV;

    open spec fn view(&self) -> RetryActionV {
        match self {
            RetryAction::Proceed => RetryActionV::Proceed,
            RetryAction::Fail(e) => RetryActionV::Fail(e@),
            RetryAction::Sleep(ms) => RetryActionV::Sleep(*ms),
        }
    }
}

/// The error message of a non-2xx body: `error.message` when the body is
/// JSON of that shape, else the raw body.
pub open spec fn spec_error_message(body: Seq<char>) -> Seq<char> {
    match spec_parse_json(body) {
        Some(j) => match spec_get(j, "error"@) {
            Some(e) => match spec_get(e, "message"@) {
                Some(JsonV::Str(m)) => m,
                _ => body,
            },
            _ => body,
        },
        None => body,
    }
}

/// The error a non-2xx response classifies to: unauthorized for 401,
/// rate-limited for 429 with any suggested wait, a server error for 5xx, and
/// a generic API error with the extracted message otherwise.
pub open spec fn spec_classify(
    status: u16,
    retry_after_secs: Option<u64>,
    body: Seq<char>,
) -> ErrorV {
    if status == 401 {
        ErrorV::Unauthorized
    } else if status == 429 {
        ErrorV::RateLimited { retry_after_secs }
    } else if 500 <= status <= 599 {
        ErrorV::Server(status)
    } else {
        ErrorV::Api { status, message: spec_error_message(body) }
    }
}

/// Classify a non-2xx response.
pub fn classify_response(status: u16, retry_after_secs: Option<u64>, body: &str) -> (r: Error)
    ensures
        r@ == spec_classify(status, retry_after_secs, body@),
{
    if status == 401 {
        Error::Unauthorized
    } else if status == 429 {
        Error::RateLimited { retry_after_secs }
    } else if 500 <= status && status <= 599 {
        Error::Server(status)
    } else {
        let message: String = match parse_json(body) {
            Some(v) => match v.get("error") {
                Some(e) => match e.get("message") {
                    Some(m) => match m.as_str() {
                        Some(s) => s.clone(),
                        None => body.to_owned(),
                    },
                    None => body.to_owned(),
                },
                None => body.to_owned(),
            },
            None => body.to_owned(),
        };
        Error::Api { status, message }
    }
}

/// Parse a `Retry-After` header value: only the integer-seconds form is
/// recognized.
pub fn parse_retry_after(value: &str) -> (r: Option<u64>)
    ensures
        r == spec_parse_u64(value@),
{
    parse_u64_dec(value)
}

/// The error one outcome stands for, and whether it may be retried.
pub open spec fn spec_outcome_error(o: HttpOutcomeV) -> Option<(ErrorV, bool)> {
    match o {
        HttpOutcomeV::Status { status, retry_after_secs, body } => if 200 <= status <= 299 {
            None
        } else {
            let e = spec_classify(status, retry_after_secs, body);
            Some((e, e.spec_is_retryable()))
        },
        HttpOutcomeV::TimedOut => Some((ErrorV::Timeout, true)),
        HttpOutcomeV::ConnectFailed(m) => Some((ErrorV::Transport(m), true)),
        HttpOutcomeV::NetFailed(m) => Some((ErrorV::Transport(m), false)),
    }
}

/// Saturating `a * b / c` on 64-bit values, computed in 128 bits by the
/// caller's arithmetic.
pub open spec fn spec_scaled(a: u64, b: u64, c: u64) -> u64
    recommends
        c > 0,
{
    if (a as int) * (b as int) / (c as int) > u64::MAX as int {
        u64::MAX
    } else {
        ((a as int) * (b as int) / (c as int)) as u64
    }
}

/// One executor decision, after the `attempt+1`-th request came back with
/// `outcome`. A 2xx proceeds; a terminal error or an exhausted attempt
/// budget fails with the classified error; otherwise the executor sleeps the
/// current backoff (or the server-suggested wait) scaled by the jitter in
/// per-mille, and the backoff grows by the multiplier up to the cap.
pub open spec fn spec_executor_step(
    policy: RetryPolicy,
    st: RetryState,
    o: HttpOutcomeV,
    jitter_permille: u32,
) -> (RetryState, RetryActionV) {
    let attempt1 = (st.attempt + 1) as u32;
    match spec_outcome_error(o) {
        None => ((RetryState { attempt: attempt1, ..st }), RetryActionV::Proceed),
        Some((e, retryable)) => if !retryable || attempt1 >= policy.max_retries {
            ((RetryState { attempt: attempt1, ..st }), RetryActionV::Fail(e))
        } else {
            let base = match e {
                ErrorV::RateLimited { retry_after_secs: Some(secs) } => if (secs as int) * 1000
                    > u64::MAX as int {
                    u64::MAX
                } else {
                    ((secs as int) * 1000) as u64
                },
                _ => st.backoff_ms,
            };
            let sleep = spec_scaled(base, jitter_permille as u64, 1000);
            let grown = spec_scaled(base, policy.backoff_multiplier_pct as u64, 100);
            let next = if grown > policy.max_backoff_ms {
                policy.max_backoff_ms
            } else {
                grown
            };
            (
                (RetryState { attempt: attempt1, backoff_ms: next }),
                RetryActionV::Sleep(sleep),
            )
        },
    }
}

fn scaled(a: u64, b: u64, c: u64) -> (r: u64)
    requires
        c > 0,
    ensures
        r == spec_scaled(a, b, c),
{
    proof {
        assert((a as int) * (b as int) <= u64::MAX as int * u64::MAX as int) by (nonlinear_arith)
            requires
                a <= u64::MAX as int,
                b <= u64::MAX as int,
        ;
    }
    let wide = (a as u128) * (b as u128) / (c as u128);
    if wide > u64::MAX as u128 {
        u64::MAX
    } else {
        wide as u64
    }
}

/// Decide what to do after one attempt's outcome, advancing the state.
pub fn executor_step(
    policy: &RetryPolicy,
    st: &mut RetryState,
    outcome: &HttpOutcome,
    jitter_permille: u32,
) -> (r: RetryAction)
    requires
        old(st).attempt < u32::MAX,
    ensures
        ({
            let (st2, a) = spec_executor_step(*policy, *old(st), outcome@, jitter_permille);
            *final(st) == st2 && r@ == a
        }),
{
    st.attempt = st.attempt + 1;
    let err: Error = match outcome {
        HttpOutcome::Status { status, retry_after_secs, body } => {
            if 200 <= *status && *status <= 299 {
                return RetryAction::Proceed;
            }
            classify_response(*status, *retry_after_secs, body.as_str())
        },
        HttpOutcome::TimedOut => Error::Timeout,
        HttpOutcome::ConnectFailed(m) => Error::Transport(m.clone()),
        HttpOutcome::NetFailed(m) => Error::Transport(m.clone()),
    };
    let retryable = match outcome {
        HttpOutcome::NetFailed(_) => false,
        HttpOutcome::ConnectFailed(_) => true,
        _ => err.is_retryable(),
    };
    if !retryable || st.attempt >= policy.max_retries {
        return RetryAction::Fail(err);
    }
    let base: u64 = match &err {
        Error::RateLimited { retry_after_secs: Some(secs) } => {
            if *secs > u64::MAX / 1000 {
                u64::MAX
            } else {
                *secs * 1000
            }
        },
        _ => st.backoff_ms,
    };
    proof {
        let e = (spec_outcome_error(outcome@)->0).0;
        if e is RateLimited && e->RateLimited_retry_after_secs is Some {
            let secs = e->RateLimited_retry_after_secs->0;
            if secs > u64::MAX / 1000 {
                assert(secs * 1000 > u64::MAX) by (nonlinear_arith)
                    requires
                        secs > u64::MAX / 1000,
                ;
            } else {
                assert(secs * 1000 <= u64::MAX) by (nonlinear_arith)
                    requires
                        secs <= u64::MAX / 1000,
                ;
            }
        }
    }
    let sleep = scaled(base, jitter_permille as u64, 1000);
    let grown = scaled(base, policy.backoff_multiplier_pct as u64, 100);
    st.backoff_ms = if grown > policy.max_backoff_ms {
        policy.max_backoff_ms
    } else {
        grown
    };
    RetryAction::Sleep(sleep)
}

/// The number of requests a run of the executor issues, driven by a sequence
/// of outcomes and jitters: one per step, stopping at the first decision
/// that is not a retry.
pub open spec fn spec_run_sends(
    policy: RetryPolicy,
    st: RetryState,
    outcomes: Seq<HttpOutcomeV>,
    jitters: Seq<u32>,
) -> nat
    decreases outcomes.len(),
{
    if outcomes.len() == 0 || jitters.len() == 0 || st.attempt >= u32::MAX {
        0
    } else {
        let (st2, a) = spec_executor_step(policy, st, outcomes[0], jitters[0]);
        match a {
            RetryActionV::Sleep(_) => 1 + spec_run_sends(
                policy,
                st2,
                outcomes.skip(1),
                jitters.skip(1),
            ),
            _ => 1,
        }
    }
}

proof fn lemma_run_bound(
    policy: RetryPolicy,
    st: RetryState,
    outcomes: Seq<HttpOutcomeV>,
    jitters: Seq<u32>,
)
    ensures
        spec_run_sends(policy, st, outcomes, jitters) <= (if st.attempt + 1
            < policy.max_retries {
            policy.max_retries - st.attempt
        } else {
            1
        }),
    decreases outcomes.len(),
{
    if outcomes.len() > 0 && jitters.len() > 0 && st.attempt < u32::MAX {
        let (st2, a) = spec_executor_step(policy, st, outcomes[0], jitters[0]);
        if a is Sleep {
            lemma_run_bound(policy, st2, outcomes.skip(1), jitters.skip(1));
        }
    }
}

/// Retry bound: however the attempts turn out and whatever jitters are
/// drawn, the executor issues at most `max_retries` requests for one logical
/// send (and at least one attempt is always made, even with a zero ceiling).
pub proof fn lemma_retry_bound(
    policy: RetryPolicy,
    outcomes: Seq<HttpOutcomeV>,
    jitters: Seq<u32>,
)
    ensures
        spec_run_sends(policy, spec_initial_state(policy), outcomes, jitters) <= (
        if policy.max_retries > 1 {
            policy.max_retries
        } else {
            1
        }),
{
    lemma_run_bound(policy, spec_initial_state(policy), outcomes, jitters);
}

/// Client-level configuration: timeout and retry schedule, in integer
/// milliseconds.
#[derive(Clone, Copy, Debug, PartialEq, Eq, Structural)]
pub struct ClientConfig {
    pub timeout_ms: u64,
    pub retry: RetryPolicy,
}

/// The defaults: two minutes of timeout and the default retry policy.
pub open spec fn spec_default_client_config() -> ClientConfig {
    ClientConfig { timeout_ms: 120000, retry: spec_default_policy() }
}

impl ClientConfig {
    pub fn new() -> (r: ClientConfig)
        ensures
            r == spec_default_client_config(),
    {
        ClientConfig { timeout_ms: 120000, retry: RetryPolicy::new() }
    }
}

impl Default for ClientConfig {
    fn default() -> (r: ClientConfig)
        ensures
            r == spec_default_client_config(),
    {
        ClientConfig::new()
    }
}

/// Lookup of the first value under a key in an association list.
pub open spec fn spec_lookup(table: Seq<(Seq<char>, Seq<char>)>, key: Seq<char>) -> Option<
    Seq<char>,
>
    decreases table.len(),
{
    if table.len() == 0 {
        None
    } else if table[0].0 == key {
        Some(table[0].1)
    } else {
        spec_lookup(table.skip(1), key)
    }
}

proof fn lemma_lookup_at(table: Seq<(Seq<char>, Seq<char>)>, key: Seq<char>, k: int)
    requires
        0 <= k < table.len(),
        table[k].0 == key,
        forall|j: int| 0 <= j < k ==> table[j].0 != key,
    ensures
        spec_lookup(table, key) == Some(table[k].1),
    decreases k,
{
    if k > 0 {
        lemma_lookup_at(table.skip(1), key, k - 1);
    }
}

proof fn lemma_lookup_none(table: Seq<(Seq<char>, Seq<char>)>, key: Seq<char>)
    requires
        forall|j: int| 0 <= j < table.len() ==> table[j].0 != key,
    ensures
        spec_lookup(table, key) is None,
    decreases table.len(),
{
    if table.len() > 0 {
        lemma_lookup_none(table.skip(1), key);
    }
}

/// Find the first value under a key in an association list.
#[verifier::loop_isolation(false)]
pub fn lookup<'a>(table: &'a Vec<(String, String)>, key: &str) -> (r: Option<&'a String>)
    ensures
        match r {
            Some(v) => spec_lookup(fields_header_view(table@), key@) == Some(v@),
            None => spec_lookup(fields_header_view(table@), key@) is None,
        },
{
    let ghost tv = fields_header_view(table@);
    let mut i: usize = 0;
    while i < table.len()
        invariant
            0 <= i <= table@.len(),
            tv == fields_header_view(table@),
            forall|j: int| 0 <= j < i ==> tv[j].0 != key@,
        decreases table@.len() - i,
    {
        if str_eq(table[i].0.as_str(), key) {
            proof {
                lemma_lookup_at(tv, key@, i as int);
            }
            return Some(&table[i].1);
        }
        i = i + 1;
    }
    proof {
        lemma_lookup_none(tv, key@);
    }
    None
}

/// Everything an HTTP layer needs to perform one prepared request.
pub struct PreparedRequest {
    /// The provider the model selected.
    pub provider: AnyProvider,
    /// The full URL to POST to.
    pub url: String,
    /// The headers to send.
    pub headers: Vec<(String, String)>,
    /// The JSON body, rendered to bytes.
    pub body: Vec<u8>,
    /// The bare model name, without the provider prefix.
    pub model: String,
}

/// The verified core of a client: API keys and base-URL overrides as
/// association lists, and the configuration.
pub struct ClientCore {
    pub api_keys: Vec<(String, String)>,
    pub base_urls: Vec<(String, String)>,
    pub config: ClientConfig,
}

/// How a prepared request relates to the inputs: the model identifier is
/// parsed and must be well formed, its provider segment must name a known
/// provider (with any configured base-URL override applied) and have a key
/// registered, and then the URL, headers and rendered body are exactly the
/// provider's.
pub open spec fn prepared_matches(
    core: ClientCore,
    model: Seq<char>,
    msgs: Seq<MessageV>,
    cfg: crate::providers::RequestConfigV,
    streaming: bool,
    r: Result<PreparedRequest, Error>,
) -> bool {
    if !valid_model_id(model) {
        r matches Err(e) && e@ == ErrorV::InvalidModel(model)
    } else {
        let provider_name = model.subrange(0, first_slash(model)->0);
        let bare_model = model.subrange(first_slash(model)->0 + 1, model.len() as int);
        let is_known = provider_name == "cerebras"@ || provider_name == "anthropic"@ || provider_name
            == "gemini"@ || provider_name == "openai"@;
        if !is_known {
            r matches Err(e) && e@ == ErrorV::InvalidModel("unknown provider: "@ + provider_name)
        } else {
            match spec_lookup(fields_header_view(core.api_keys@), provider_name) {
                None => r matches Err(e) && e@ == ErrorV::MissingApiKey(provider_name),
                Some(key) => r matches Ok(p) && {
                    &&& spec_provider_for(
                        provider_name,
                        spec_lookup(fields_header_view(core.base_urls@), provider_name),
                        Some(p.provider),
                    )
                    &&& p.model@ == bare_model
                    &&& p.url@ == (if streaming {
                        spec_any_stream_url(p.provider, bare_model, key)
                    } else {
                        spec_any_complete_url(p.provider, bare_model, key)
                    })
                    &&& fields_header_view(p.headers@) == spec_any_headers(p.provider, key)
                    &&& p.body@ == spec_json_bytes(
                        if streaming {
                            spec_any_stream_body(p.provider, bare_model, msgs, cfg)
                        } else {
                            spec_any_complete_body(p.provider, bare_model, msgs, cfg)
                        },
                    )
                },
            }
        }
    }
}

impl ClientCore {
    /// A client core with no keys, no overrides and the default
    /// configuration.
    pub fn new() -> (r: ClientCore)
        ensures
            r.api_keys@.len() == 0,
            r.base_urls@.len() == 0,
            r.config == spec_default_client_config(),
    {
        ClientCore { api_keys: Vec::new(), base_urls: Vec::new(), config: ClientConfig::new() }
    }

    fn prepare(
        &self,
        model: &str,
        messages: &[Message],
        config: &RequestConfig,
        streaming: bool,
    ) -> (r: Result<PreparedRequest, Error>)
        ensures
            prepared_matches(*self, model@, msgs_view(messages@), config@, streaming, r),
    {
        let id = match ModelId::parse(model) {
            Ok(id) => id,
            Err(e) => {
                return Err(e);
            },
        };
        let base_url = lookup(&self.base_urls, id.provider.as_str());
        let provider = match get_provider_with_base_url(
            id.provider.as_str(),
            match base_url {
                Some(u) => Some(u.as_str()),
                None => None,
            },
        ) {
            Some(p) => p,
            None => {
                return Err(
                    Error::InvalidModel("unknown provider: ".to_owned().concat(id.provider.as_str())),
                );
            },
        };
        let api_key = match lookup(&self.api_keys, id.provider.as_str()) {
            Some(k) => k.clone(),
            None => {
                return Err(Error::MissingApiKey(id.provider));
            },
        };
        let body_json = if streaming {
            match provider.build_stream_body(id.model.as_str(), messages, config) {
                Ok(b) => b,
                Err(e) => {
                    return Err(e);
                },
            }
        } else {
            match provider.build_complete_body(id.model.as_str(), messages, config) {
                Ok(b) => b,
                Err(e) => {
                    return Err(e);
                },
            }
        };
        let url = if streaming {
            provider.stream_url(id.model.as_str(), api_key.as_str())
        } else {
            provider.complete_url(id.model.as_str(), api_key.as_str())
        };
        let headers = provider.headers(api_key.as_str());
        let body = to_json_bytes(&body_json);
        Ok(PreparedRequest { provider, url, headers, body, model: id.model })
    }

    /// Prepare a streaming request: select the provider from the model
    /// identifier, look up its key, and build URL, headers and body.
    pub fn prepare_stream_request(
        &self,
        model: &str,
        messages: &[Message],
        config: &RequestConfig,
    ) -> (r: Result<PreparedRequest, Error>)
        ensures
            prepared_matches(*self, model@, msgs_view(messages@), config@, true, r),
    {
        self.prepare(model, messages, config, true)
    }

    /// Prepare a terminal request.
    pub fn prepare_complete_request(
        &self,
        model: &str,
        messages: &[Message],
        config: &RequestConfig,
    ) -> (r: Result<PreparedRequest, Error>)
        ensures
            prepared_matches(*self, model@, msgs_view(messages@), config@, false, r),
    {
        self.prepare(model, messages, config, false)
    }
}

} // verus!
