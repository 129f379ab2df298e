//! A builder for requests to the sequencer gateway.
//!
//! The builder is staged: each stage offers only the operations that are in
//! order at that point, and each operation consumes the stage it is called on.
//!
//!   1. [`Init`](stage::Init) provides the entry point, [`Request::builder`].
//!   2. [`Method`](stage::Method) is where the gateway's method is selected.
//!   3. [`Params`](stage::Params) takes parameters, and then the retry behaviour.
//!   4. [`Final`](stage::Final) is where the operation is chosen.
//!
//! A function that edits the URL requires that the URL takes the edit:
//! that it has room for it, and that what comes out is a URL that can be
//! edited again. [`Request::takes_method`] and [`Request::takes_param`] tell
//! whether it does, by trying; [`Request::select`] and the functions whose
//! names begin with `try_` try before they edit, and hand the request back
//! as it is where the edit cannot be made.
//!
//! The operation is not carried out here. What comes out is a [`Call`], which
//! describes each attempt and decides what follows it.
use crate::block::{BlockId, BlockNumber};
use crate::error::SequencerError;
use crate::felt::{BlockHash, ClassHash, TransactionHash};
use crate::metrics::{BlockTag, RequestMetadata};
use crate::retry::{is_own_error, is_retried, Backoff, RetryPolicy, Step};
use crate::text::{decimal, hex};
use crate::url::{pair_fits, segment_fits, with_pair, with_segment, Url};
use vstd::prelude::*;
use vstd::string::StringExecFns;

pub use crate::response::{parse, parse_raw};
pub use crate::retry::{retry0, retry_condition};

pub mod stage;

verus! {

/// `reqwest::Client`, the HTTP client that a request is to be sent with. The
/// builder hands it on and never looks inside.
#[verifier::external_type_specification]
#[verifier::external_body]
pub struct ExClient(reqwest::Client);

/// The header that carries the API key.
pub const X_THROTTLING_BYPASS: &'static str = "X-Throttling-Bypass";

/// The states of a [`Request`].
pub trait RequestState {

}

/// A request to the sequencer gateway, under construction.
pub struct Request<'a, S: RequestState> {
    state: S,
    url: Url,
    api_key: Option<String>,
    client: &'a reqwest::Client,
}

/// A [`Request`] as specifications see it.
pub struct RequestView<S> {
    pub state: S,
    pub url: Seq<char>,
    pub api_key: Option<Seq<char>>,
    pub client: reqwest::Client,
}

/// What a text that may be missing holds.
pub open spec fn text_view(text: Option<String>) -> Option<Seq<char>> {
    match text {
        Some(t) => Some(t@),
        None => None,
    }
}

impl<'a, S: RequestState> View for Request<'a, S> {
    type V = RequestView<S>;

    closed spec fn view(&self) -> RequestView<S> {
        RequestView {
            state: self.state,
            url: self.url@,
            api_key: text_view(self.api_key),
            client: *self.client,
        }
    }
}

impl<S> RequestView<S> {
    /// This request with another URL.
    pub open spec fn with_url(self, url: Seq<char>) -> RequestView<S> {
        RequestView { state: self.state, url, api_key: self.api_key, client: self.client }
    }

    /// This request in another state.
    pub open spec fn with_state<T>(self, state: T) -> RequestView<T> {
        RequestView { state, url: self.url, api_key: self.api_key, client: self.client }
    }
}

impl RequestView<stage::Method> {
    /// This request after `method` was selected: the method is the last
    /// segment of the path, and the metadata name it and no block.
    pub open spec fn selected(self, method: &'static str) -> RequestView<stage::Params> {
        self.with_url(with_segment(self.url, method@)).with_state(
            stage::Params { meta: RequestMetadata::new(method) },
        )
    }
}

impl RequestView<stage::Params> {
    /// This request after the parameter `name` was added with `value`: the
    /// pair is the last of the query.
    pub open spec fn with_param(self, name: Seq<char>, value: Seq<char>) -> RequestView<
        stage::Params,
    > {
        self.with_url(with_pair(self.url, name, value))
    }

    /// This request after `block` was named: the request is counted under
    /// the block's tag, and the block's parameter is the last of the query.
    pub open spec fn with_block(self, block: BlockId) -> RequestView<stage::Params> {
        self.with_tag(block.tag()).with_param(block.param_name(), block.param_value())
    }

    /// This request counted under another tag.
    pub open spec fn with_tag(self, tag: BlockTag) -> RequestView<stage::Params> {
        self.with_state(
            stage::Params { meta: RequestMetadata { method: self.state.meta.method, tag } },
        )
    }

    /// This request with its retry behaviour set.
    pub open spec fn with_retry(self, retry: bool) -> RequestView<stage::Final> {
        self.with_state(stage::Final { meta: self.state.meta, retry })
    }
}

impl<'a, S: RequestState> Request<'a, S> {
    /// The URL as it stands.
    pub fn url(&self) -> (url: &Url)
        ensures
            url@ == self@.url,
    {
        &self.url
    }

    /// The API key, where one is configured.
    pub fn api_key(&self) -> (key: &Option<String>)
        ensures
            text_view(*key) == self@.api_key,
    {
        &self.api_key
    }

    /// The client that the request is to be sent with.
    pub fn client(&self) -> (client: &'a reqwest::Client)
        ensures
            *client == self@.client,
    {
        self.client
    }

    /// The stage that the request is in, with what that stage holds.
    pub fn state(&self) -> (state: &S)
        ensures
            *state == self@.state,
    {
        &self.state
    }
}

/// The methods of the gateway. The catalog is closed: a request can be for
/// one of these and for nothing else.
#[derive(Clone, Copy, Debug, PartialEq, Eq, Structural)]
pub enum Endpoint {
    AddTransaction,
    GetBlock,
    GetClassByHash,
    GetCompiledClassByClassHash,
    GetTransaction,
    GetStateUpdate,
    GetContractAddresses,
    GetBlockTraces,
    GetTransactionTrace,
    GetSignature,
}

impl Endpoint {
    pub open spec fn spec_name(self) -> &'static str {
        match self {
            Endpoint::AddTransaction => "add_transaction",
            Endpoint::GetBlock => "get_block",
            Endpoint::GetClassByHash => "get_class_by_hash",
            Endpoint::GetCompiledClassByClassHash => "get_compiled_class_by_class_hash",
            Endpoint::GetTransaction => "get_transaction",
            Endpoint::GetStateUpdate => "get_state_update",
            Endpoint::GetContractAddresses => "get_contract_addresses",
            Endpoint::GetBlockTraces => "get_block_traces",
            Endpoint::GetTransactionTrace => "get_transaction_trace",
            Endpoint::GetSignature => "get_signature",
        }
    }

    /// The name of the method, which is its segment of the path.
    #[verifier::when_used_as_spec(spec_name)]
    pub fn name(self) -> (name: &'static str)
        ensures
            name == self.spec_name(),
    {
        match self {
            Endpoint::AddTransaction => "add_transaction",
            Endpoint::GetBlock => "get_block",
            Endpoint::GetClassByHash => "get_class_by_hash",
            Endpoint::GetCompiledClassByClassHash => "get_compiled_class_by_class_hash",
            Endpoint::GetTransaction => "get_transaction",
            Endpoint::GetStateUpdate => "get_state_update",
            Endpoint::GetContractAddresses => "get_contract_addresses",
            Endpoint::GetBlockTraces => "get_block_traces",
            Endpoint::GetTransactionTrace => "get_transaction_trace",
            Endpoint::GetSignature => "get_signature",
        }
    }
}

impl<'a> Request<'a, stage::Init> {
    /// Initialize a [`Request`] builder.
    pub fn builder(client: &'a reqwest::Client, url: Url, api_key: Option<String>) -> (request:
        Request<'a, stage::Method>)
        ensures
            request@.url == url@,
            request@.api_key == text_view(api_key),
            request@.client == *client,
    {
        Request { url, client, api_key, state: stage::Method }
    }
}

impl<'a> Request<'a, stage::Method> {
    /// The methods of the gateway, by name: one function of this stage for each.
    pub fn methods() -> (names: Vec<&'static str>)
        ensures
            names@ == seq![
                "add_transaction",
                "get_block",
                "get_class_by_hash",
                "get_compiled_class_by_class_hash",
                "get_transaction",
                "get_state_update",
                "get_contract_addresses",
                "get_block_traces",
                "get_transaction_trace",
                "get_signature",
            ],
    {
        let names = vec![
            "add_transaction",
            "get_block",
            "get_class_by_hash",
            "get_compiled_class_by_class_hash",
            "get_transaction",
            "get_state_update",
            "get_contract_addresses",
            "get_block_traces",
            "get_transaction_trace",
            "get_signature",
        ];
        assert(names@ =~= seq![
            "add_transaction",
            "get_block",
            "get_class_by_hash",
            "get_compiled_class_by_class_hash",
            "get_transaction",
            "get_state_update",
            "get_contract_addresses",
            "get_block_traces",
            "get_transaction_trace",
            "get_signature",
        ]);
        names
    }

    /// Whether the method named `method` can be selected: whether the URL
    /// has room for its name, and is a URL whose path can grow with it. The
    /// functions of this stage require that of the method they select.
    pub fn takes_method(&self, method: &str) -> (fits: bool)
        ensures
            fits == segment_fits(self@.url, method@),
    {
        self.url.takes_segment(method)
    }

    /// Selects `endpoint` where it can be selected, and else hands the
    /// request back as it is.
    pub fn select(self, endpoint: Endpoint) -> (selected: Result<
        Request<'a, stage::Params>,
        Request<'a, stage::Method>,
    >)
        ensures
            match selected {
                Ok(request) => segment_fits(self@.url, endpoint.name()@) && request@
                    == self@.selected(endpoint.name()),
                Err(request) => !segment_fits(self@.url, endpoint.name()@) && request@ == self@,
            },
    {
        if !self.takes_method(endpoint.name()) {
            return Err(self);
        }
        Ok(
            match endpoint {
                Endpoint::AddTransaction => self.add_transaction(),
                Endpoint::GetBlock => self.get_block(),
                Endpoint::GetClassByHash => self.get_class_by_hash(),
                Endpoint::GetCompiledClassByClassHash => self.get_compiled_class_by_class_hash(),
                Endpoint::GetTransaction => self.get_transaction(),
                Endpoint::GetStateUpdate => self.get_state_update(),
                Endpoint::GetContractAddresses => self.get_contract_addresses(),
                Endpoint::GetBlockTraces => self.get_block_traces(),
                Endpoint::GetTransactionTrace => self.get_transaction_trace(),
                Endpoint::GetSignature => self.get_signature(),
            },
        )
    }

    pub fn add_transaction(self) -> (request: Request<'a, stage::Params>)
        requires
            segment_fits(self@.url, "add_transaction"@),
        ensures
            request@ == self@.selected("add_transaction"),
    {
        self.with_method("add_transaction")
    }

    pub fn get_block(self) -> (request: Request<'a, stage::Params>)
        requires
            segment_fits(self@.url, "get_block"@),
        ensures
            request@ == self@.selected("get_block"),
    {
        self.with_method("get_block")
    }

    pub fn get_class_by_hash(self) -> (request: Request<'a, stage::Params>)
        requires
            segment_fits(self@.url, "get_class_by_hash"@),
        ensures
            request@ == self@.selected("get_class_by_hash"),
    {
        self.with_method("get_class_by_hash")
    }

    pub fn get_compiled_class_by_class_hash(self) -> (request: Request<'a, stage::Params>)
        requires
            segment_fits(self@.url, "get_compiled_class_by_class_hash"@),
        ensures
            request@ == self@.selected("get_compiled_class_by_class_hash"),
    {
        self.with_method("get_compiled_class_by_class_hash")
    }

    pub fn get_transaction(self) -> (request: Request<'a, stage::Params>)
        requires
            segment_fits(self@.url, "get_transaction"@),
        ensures
            request@ == self@.selected("get_transaction"),
    {
        self.with_method("get_transaction")
    }

    pub fn get_state_update(self) -> (request: Request<'a, stage::Params>)
        requires
            segment_fits(self@.url, "get_state_update"@),
        ensures
            request@ == self@.selected("get_state_update"),
    {
        self.with_method("get_state_update")
    }

    pub fn get_contract_addresses(self) -> (request: Request<'a, stage::Params>)
        requires
            segment_fits(self@.url, "get_contract_addresses"@),
        ensures
            request@ == self@.selected("get_contract_addresses"),
    {
        self.with_method("get_contract_addresses")
    }

    pub fn get_block_traces(self) -> (request: Request<'a, stage::Params>)
        requires
            segment_fits(self@.url, "get_block_traces"@),
        ensures
            request@ == self@.selected("get_block_traces"),
    {
        self.with_method("get_block_traces")
    }

    pub fn get_transaction_trace(self) -> (request: Request<'a, stage::Params>)
        requires
            segment_fits(self@.url, "get_transaction_trace"@),
        ensures
            request@ == self@.selected("get_transaction_trace"),
    {
        self.with_method("get_transaction_trace")
    }

    pub fn get_signature(self) -> (request: Request<'a, stage::Params>)
        requires
            segment_fits(self@.url, "get_signature"@),
        ensures
            request@ == self@.selected("get_signature"),
    {
        self.with_method("get_signature")
    }

    /// Appends the given method to the request url.
    fn with_method(self, method: &'static str) -> (request: Request<'a, stage::Params>)
        requires
            segment_fits(self@.url, method@),
        ensures
            request@ == self@.selected(method),
    {
        Request {
            url: self.url.push(method),
            client: self.client,
            api_key: self.api_key,
            state: stage::Params { meta: RequestMetadata::new(method) },
        }
    }
}

impl<'a> Request<'a, stage::Params> {
    /// Whether the parameter `name` can be added with `value`: whether the
    /// URL has room for the pair, and is a URL whose path can grow with it.
    /// The functions of this stage that add a parameter require that of it.
    pub fn takes_param(&self, name: &str, value: &str) -> (fits: bool)
        ensures
            fits == pair_fits(self@.url, name@, value@),
    {
        self.url.takes_pair(name, value)
    }

    /// Names the block that the request is about, and counts the request
    /// under the block's tag.
    pub fn with_block(self, block: BlockId) -> (request: Self)
        requires
            pair_fits(self@.url, block.param_name(), block.param_value()),
        ensures
            request@ == self@.with_block(block),
    {
        let (name, value, tag) = block.to_param();
        self.update_tag(tag).add_param(name, value.as_str())
    }

    pub fn with_class_hash(self, class_hash: ClassHash) -> (request: Self)
        requires
            pair_fits(self@.url, "classHash"@, hex(class_hash.0.value())),
        ensures
            request@ == self@.with_param("classHash"@, hex(class_hash.0.value())),
    {
        self.add_param("classHash", class_hash.0.to_hex_str().as_str())
    }

    /// Adds the token where there is one; without one it does nothing.
    pub fn with_optional_token(self, token: Option<&str>) -> (request: Self)
        requires
            token matches Some(t) ==> pair_fits(self@.url, "token"@, t@),
        ensures
            request@ == match token {
                Some(t) => self@.with_param("token"@, t@),
                None => self@,
            },
    {
        match token {
            Some(token) => self.add_param("token", token),
            None => self,
        }
    }

    pub fn with_transaction_hash(self, hash: TransactionHash) -> (request: Self)
        requires
            pair_fits(self@.url, "transactionHash"@, hex(hash.0.value())),
        ensures
            request@ == self@.with_param("transactionHash"@, hex(hash.0.value())),
    {
        self.add_param("transactionHash", hash.0.to_hex_str().as_str())
    }

    /// Appends the parameter `name` with `value` to the query.
    pub fn add_param(self, name: &str, value: &str) -> (request: Self)
        requires
            pair_fits(self@.url, name@, value@),
        ensures
            request@ == self@.with_param(name@, value@),
    {
        Request {
            url: self.url.append_pair(name, value),
            client: self.client,
            api_key: self.api_key,
            state: self.state,
        }
    }

    /// Sets the tag under which the request is counted.
    pub fn update_tag(self, tag: BlockTag) -> (request: Self)
        ensures
            request@ == self@.with_tag(tag),
    {
        Request {
            url: self.url,
            client: self.client,
            api_key: self.api_key,
            state: stage::Params { meta: RequestMetadata { method: self.state.meta.method, tag } },
        }
    }

    /// Names the block where its parameter can be added, and else hands the
    /// request back as it is.
    pub fn try_with_block(self, block: BlockId) -> (added: Result<Self, Self>)
        ensures
            match added {
                Ok(request) => pair_fits(self@.url, block.param_name(), block.param_value())
                    && request@ == self@.with_block(block),
                Err(request) => !pair_fits(self@.url, block.param_name(), block.param_value())
                    && request@ == self@,
            },
    {
        let (name, value, _) = block.to_param();
        if self.takes_param(name, value.as_str()) {
            Ok(self.with_block(block))
        } else {
            Err(self)
        }
    }

    /// Adds the class hash where that can be done, and else hands the
    /// request back as it is.
    pub fn try_with_class_hash(self, class_hash: ClassHash) -> (added: Result<Self, Self>)
        ensures
            match added {
                Ok(request) => pair_fits(self@.url, "classHash"@, hex(class_hash.0.value()))
                    && request@ == self@.with_param("classHash"@, hex(class_hash.0.value())),
                Err(request) => !pair_fits(self@.url, "classHash"@, hex(class_hash.0.value()))
                    && request@ == self@,
            },
    {
        if self.takes_param("classHash", class_hash.0.to_hex_str().as_str()) {
            Ok(self.with_class_hash(class_hash))
        } else {
            Err(self)
        }
    }

    /// Adds the token where there is one and it can be added. Without one
    /// the request is as it was; where it cannot be added the request is
    /// handed back as it is.
    pub fn try_with_optional_token(self, token: Option<&str>) -> (added: Result<Self, Self>)
        ensures
            match (token, added) {
                (Some(t), Ok(request)) => pair_fits(self@.url, "token"@, t@) && request@
                    == self@.with_param("token"@, t@),
                (Some(t), Err(request)) => !pair_fits(self@.url, "token"@, t@) && request@
                    == self@,
                (None, Ok(request)) => request@ == self@,
                (None, Err(_)) => false,
            },
    {
        match token {
            Some(t) => if self.takes_param("token", t) {
                Ok(self.with_optional_token(token))
            } else {
                Err(self)
            },
            None => Ok(self.with_optional_token(token)),
        }
    }

    /// Adds the transaction hash where that can be done, and else hands the
    /// request back as it is.
    pub fn try_with_transaction_hash(self, hash: TransactionHash) -> (added: Result<Self, Self>)
        ensures
            match added {
                Ok(request) => pair_fits(self@.url, "transactionHash"@, hex(hash.0.value()))
                    && request@ == self@.with_param("transactionHash"@, hex(hash.0.value())),
                Err(request) => !pair_fits(self@.url, "transactionHash"@, hex(hash.0.value()))
                    && request@ == self@,
            },
    {
        if self.takes_param("transactionHash", hash.0.to_hex_str().as_str()) {
            Ok(self.with_transaction_hash(hash))
        } else {
            Err(self)
        }
    }

    /// Appends the parameter `name` with `value` where that can be done, and
    /// else hands the request back as it is.
    pub fn try_add_param(self, name: &str, value: &str) -> (added: Result<Self, Self>)
        ensures
            match added {
                Ok(request) => pair_fits(self@.url, name@, value@) && request@
                    == self@.with_param(name@, value@),
                Err(request) => !pair_fits(self@.url, name@, value@) && request@ == self@,
            },
    {
        if self.takes_param(name, value) {
            Ok(self.add_param(name, value))
        } else {
            Err(self)
        }
    }

    /// Sets the request retry behavior.
    pub fn with_retry(self, retry: bool) -> (request: Request<'a, stage::Final>)
        ensures
            request@ == self@.with_retry(retry),
    {
        Request {
            url: self.url,
            client: self.client,
            api_key: self.api_key,
            state: stage::Final { meta: self.state.meta, retry },
        }
    }
}

/// The HTTP method of an attempt.
#[derive(Clone, Copy, Debug, PartialEq, Eq, Structural)]
pub enum Verb {
    Get,
    Post,
}

/// How the payload of a successful reply is read.
#[derive(Clone, Copy, Debug, PartialEq, Eq, Structural)]
pub enum Payload {
    /// As JSON, decoded into the type that the caller asks for.
    Json,
    /// As the bytes that arrived.
    Bytes,
}

/// A header of an attempt.
#[derive(Clone, Debug, PartialEq, Eq)]
pub struct Header {
    pub name: &'static str,
    pub value: String,
}

/// One attempt: everything that is sent, and what it is counted under.
#[derive(Debug)]
pub struct Attempt<'a> {
    pub client: &'a reqwest::Client,
    pub verb: Verb,
    pub url: String,
    /// The header that carries the API key, where one is configured.
    pub header: Option<Header>,
    /// The body, which is JSON, where the operation has one.
    pub json: Option<String>,
    pub meta: RequestMetadata,
}

/// An [`Attempt`] as specifications see it.
pub struct AttemptView {
    pub client: reqwest::Client,
    pub verb: Verb,
    pub url: Seq<char>,
    pub header: Option<(Seq<char>, Seq<char>)>,
    pub json: Option<Seq<char>>,
    pub meta: RequestMetadata,
}

impl<'a> View for Attempt<'a> {
    type V = AttemptView;

    open spec fn view(&self) -> AttemptView {
        AttemptView {
            client: *self.client,
            verb: self.verb,
            url: self.url@,
            header: match self.header {
                Some(h) => Some((h.name@, h.value@)),
                None => None,
            },
            json: text_view(self.json),
            meta: self.meta,
        }
    }
}

/// An operation on the gateway that is under way: a request in its final
/// stage, the operation chosen, and the state of the retries.
pub struct Call<'a> {
    request: Request<'a, stage::Final>,
    verb: Verb,
    json: Option<String>,
    payload: Payload,
    backoff: Backoff,
}

/// A [`Call`] as specifications see it.
pub struct CallView {
    pub request: RequestView<stage::Final>,
    pub verb: Verb,
    pub json: Option<Seq<char>>,
    pub payload: Payload,
    /// How the pauses between attempts grow.
    pub policy: RetryPolicy,
    /// How many failures have been retried so far.
    pub retries: nat,
}

impl CallView {
    /// The call before its first attempt. Its pauses are to follow the
    /// gateway's policy.
    pub open spec fn start(
        request: RequestView<stage::Final>,
        verb: Verb,
        json: Option<Seq<char>>,
        payload: Payload,
    ) -> CallView {
        CallView { request, verb, json, payload, policy: RetryPolicy::gateway(), retries: 0 }
    }

    /// The attempt that the call makes, the first time and every time after:
    /// the URL and the body of the request, and the API key in its header
    /// exactly where one is configured.
    pub open spec fn attempt(self) -> AttemptView {
        AttemptView {
            client: self.request.client,
            verb: self.verb,
            url: self.request.url,
            header: match self.request.api_key {
                Some(key) => Some((X_THROTTLING_BYPASS@, key)),
                None => None,
            },
            json: self.json,
            meta: self.request.state.meta,
        }
    }

    /// Whether the attempt is repeated after `outcome`: where retries are
    /// asked for and the outcome is a failure that is retried.
    pub open spec fn repeats<T>(self, outcome: Result<T, SequencerError>) -> bool {
        self.request.state.retry && is_retried(outcome)
    }

    /// What follows an attempt that ended in `outcome`: a pause that grows
    /// as the policy says where the attempt is repeated; else the outcome is
    /// the caller's.
    pub open spec fn step<T>(self, outcome: Result<T, SequencerError>) -> Step {
        if self.repeats(outcome) {
            Step::Sleep(self.policy.delay_at(self.retries) as u64)
        } else {
            Step::Return
        }
    }

    /// The call after an attempt that ended in `outcome`.
    pub open spec fn after<T>(self, outcome: Result<T, SequencerError>) -> CallView {
        CallView {
            request: self.request,
            verb: self.verb,
            json: self.json,
            payload: self.payload,
            policy: self.policy,
            retries: if self.repeats(outcome) {
                self.retries + 1
            } else {
                self.retries
            },
        }
    }
}

impl<'a> View for Call<'a> {
    type V = CallView;

    closed spec fn view(&self) -> CallView {
        CallView {
            request: self.request@,
            verb: self.verb,
            json: text_view(self.json),
            payload: self.payload,
            policy: self.backoff.policy(),
            retries: self.backoff.retries(),
        }
    }
}

/// A copy of a text that may be missing.
fn duplicate(text: &Option<String>) -> (copy: Option<String>)
    ensures
        copy == *text,
{
    match text {
        Some(t) => Some(t.clone()),
        None => None,
    }
}

impl<'a> Request<'a, stage::Final> {
    /// The request as a `GET` operation whose reply is parsed as JSON.
    pub fn get(self) -> (call: Call<'a>)
        ensures
            call@ == CallView::start(self@, Verb::Get, None, Payload::Json),
    {
        Call {
            request: self,
            verb: Verb::Get,
            json: None,
            payload: Payload::Json,
            backoff: Backoff::new(RetryPolicy::gateway()),
        }
    }

    /// The request as a `GET` operation whose reply is taken as bytes.
    pub fn get_as_bytes(self) -> (call: Call<'a>)
        ensures
            call@ == CallView::start(self@, Verb::Get, None, Payload::Bytes),
    {
        Call {
            request: self,
            verb: Verb::Get,
            json: None,
            payload: Payload::Bytes,
            backoff: Backoff::new(RetryPolicy::gateway()),
        }
    }

    /// The request as a `POST` operation with the JSON body `json`, whose
    /// reply is parsed as JSON.
    pub fn post_with_json(self, json: String) -> (call: Call<'a>)
        ensures
            call@ == CallView::start(self@, Verb::Post, Some(json@), Payload::Json),
    {
        Call {
            request: self,
            verb: Verb::Post,
            json: Some(json),
            payload: Payload::Json,
            backoff: Backoff::new(RetryPolicy::gateway()),
        }
    }
}

impl<'a> Call<'a> {
    /// How the payload of a successful reply is to be read.
    pub fn payload(&self) -> (payload: Payload)
        ensures
            payload == self@.payload,
    {
        self.payload
    }

    /// Whether a failed attempt may be repeated at all.
    pub fn retry(&self) -> (retry: bool)
        ensures
            retry == self@.request.state.retry,
    {
        self.request.state.retry
    }

    /// Describes the next attempt. Each attempt gets a copy of its own of
    /// what is sent, since sending consumes it.
    pub fn attempt(&self) -> (attempt: Attempt<'a>)
        ensures
            attempt@ == self@.attempt(),
    {
        let header = match &self.request.api_key {
            Some(key) => Some(Header { name: X_THROTTLING_BYPASS, value: key.clone() }),
            None => None,
        };
        Attempt {
            client: self.request.client,
            verb: self.verb,
            url: String::from_str(self.request.url.as_str()),
            header,
            json: duplicate(&self.json),
            meta: self.request.state.meta,
        }
    }

    /// Decides what follows an attempt that ended in `outcome`. Without
    /// retries, every outcome is the caller's at once. With them, a success
    /// and an error of the gateway's own are the caller's, and any other
    /// failure is followed by a pause and another attempt, without end.
    pub fn after<T>(&mut self, outcome: &Result<T, SequencerError>) -> (step: Step)
        ensures
            step == old(self)@.step(*outcome),
            final(self)@ == old(self)@.after(*outcome),
    {
        if self.request.state.retry {
            self.backoff.after(outcome)
        } else {
            Step::Return
        }
    }
}

/// Every attempt of a call carries the configured API key in its header,
/// the first as well as each one after a failure, whatever the operation;
/// and no attempt carries the header where no key is configured.
pub proof fn lemma_key_on_every_attempt<T>(call: CallView, outcome: Result<T, SequencerError>)
    ensures
        call.attempt().header == match call.request.api_key {
            Some(key) => Some((X_THROTTLING_BYPASS@, key)),
            None => None,
        },
        call.after(outcome).attempt() == call.attempt(),
{
}

/// Without retries the first outcome is the caller's, whatever it is; with
/// them, a success and an error of the gateway's own are, at once. Whatever
/// the outcome, the call keeps its request, and with it the retry behaviour
/// that was set.
pub proof fn lemma_when_the_outcome_is_returned<T>(call: CallView, outcome: Result<T, SequencerError>)
    ensures
        !call.request.state.retry ==> call.step(outcome) == Step::Return,
        outcome is Ok ==> call.step(outcome) == Step::Return,
        is_own_error(outcome) ==> call.step(outcome) == Step::Return,
        call.step(outcome) == Step::Return ==> call.after(outcome) == call,
        call.after(outcome).request == call.request,
{
}

/// How a block is named in a request, for every request and every block. A
/// height goes under `blockNumber` in decimal and a hash under `blockHash`
/// in hexadecimal, and neither sets a tag; the latest and the pending block
/// go under `blockNumber` by their names, and each sets its tag. That is
/// what [`Request::with_block`] makes of a request whose URL takes the pair,
/// and no other pair is added.
pub proof fn lemma_block_encoding(
    request: RequestView<stage::Params>,
    number: BlockNumber,
    hash: BlockHash,
)
    ensures
        request.with_block(BlockId::Number(number)) == request.with_tag(
            BlockTag::NoTag,
        ).with_param("blockNumber"@, decimal(number.get() as nat)),
        request.with_block(BlockId::Hash(hash)) == request.with_tag(BlockTag::NoTag).with_param(
            "blockHash"@,
            hex(hash.0.value()),
        ),
        request.with_block(BlockId::Latest) == request.with_tag(BlockTag::Latest).with_param(
            "blockNumber"@,
            "latest"@,
        ),
        request.with_block(BlockId::Pending) == request.with_tag(BlockTag::Pending).with_param(
            "blockNumber"@,
            "pending"@,
        ),
        forall|block: BlockId| #[trigger]
            request.with_block(block).url == with_pair(
                request.url,
                block.param_name(),
                block.param_value(),
            ),
{
}

} // verus!
