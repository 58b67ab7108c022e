//! Requests to an HTTP endpoint and what becomes of them.
//!
//! Nothing here touches the network. A request is described, whoever holds
//! the transport performs it and reports the exchange, and the outcome is
//! made from that report. A batch of requests is fanned out through a
//! [`FanOut`](crate::fanout::FanOut) scheduler.

use vstd::prelude::*;
use vstd::string::StringExecFns;
use crate::fanout::{Action, FanOut, FanOutView, ResultOrder, DEFAULT_CONCURRENCY_LIMIT};

verus! {

/// The kind of an error, with the cause that the transport gave for it.
#[derive(Debug, PartialEq, Eq)]
pub enum HttpAccessorErrorType {
    /// The request could not be sent, or no response came.
    OpenUrlError(String),
    /// A response came, but its body could not be read.
    GetContentError(String),
    /// The outcomes of a batch could not be gathered.
    GetMultiContentError(String),
}

/// The mathematical value of an [`HttpAccessorErrorType`].
pub enum HttpAccessorErrorTypeView {
    OpenUrlError(Seq<char>),
    GetContentError(Seq<char>),
    GetMultiContentError(Seq<char>),
}

impl View for HttpAccessorErrorType {
    type V = HttpAccessorErrorTypeView;

    open spec fn view(&self) -> HttpAccessorErrorTypeView {
        match self {
            HttpAccessorErrorType::OpenUrlError(cause) => HttpAccessorErrorTypeView::OpenUrlError(
                cause@,
            ),
            HttpAccessorErrorType::GetContentError(cause) => HttpAccessorErrorTypeView::GetContentError(
                cause@,
            ),
            HttpAccessorErrorType::GetMultiContentError(cause) => HttpAccessorErrorTypeView::GetMultiContentError(
                cause@,
            ),
        }
    }
}

/// An error of the HTTP accessor.
#[derive(Debug, PartialEq, Eq)]
pub struct HttpAccessorError {
    err_type: HttpAccessorErrorType,
    msg: String,
}

/// The mathematical value of an [`HttpAccessorError`].
pub struct HttpAccessorErrorView {
    pub err_type: HttpAccessorErrorTypeView,
    pub msg: Seq<char>,
}

impl View for HttpAccessorError {
    type V = HttpAccessorErrorView;

    closed spec fn view(&self) -> HttpAccessorErrorView {
        HttpAccessorErrorView { err_type: self.err_type@, msg: self.msg@ }
    }
}

impl HttpAccessorError {
    /// The kind of the error.
    pub fn err_type(&self) -> (err_type: &HttpAccessorErrorType)
        ensures
            err_type@ == self@.err_type,
    {
        &self.err_type
    }

    /// What the accessor was doing when the error came up.
    pub fn msg(&self) -> (msg: &str)
        ensures
            msg@ == self@.msg,
    {
        self.msg.as_str()
    }
}

/// A response that came back whole.
#[derive(Debug, PartialEq, Eq)]
pub struct HttpAccessorResponse {
    url: String,
    status_code: u16,
    content: String,
}

/// The mathematical value of an [`HttpAccessorResponse`].
pub struct HttpAccessorResponseView {
    pub url: Seq<char>,
    pub status_code: u16,
    pub content: Seq<char>,
}

impl View for HttpAccessorResponse {
    type V = HttpAccessorResponseView;

    closed spec fn view(&self) -> HttpAccessorResponseView {
        HttpAccessorResponseView {
            url: self.url@,
            status_code: self.status_code,
            content: self.content@,
        }
    }
}

impl HttpAccessorResponse {
    /// The URL that was requested.
    pub fn url(&self) -> (url: &str)
        ensures
            url@ == self@.url,
    {
        self.url.as_str()
    }

    /// The status code of the response.
    pub fn status_code(&self) -> (code: u16)
        ensures
            code == self@.status_code,
    {
        self.status_code
    }

    /// The body of the response.
    pub fn content(&self) -> (content: &str)
        ensures
            content@ == self@.content,
    {
        self.content.as_str()
    }
}

/// A request that failed.
#[derive(Debug, PartialEq, Eq)]
pub struct HttpAccessorResponseError {
    url: String,
    status_code: Option<u16>,
    err: Option<HttpAccessorError>,
}

/// The mathematical value of an [`HttpAccessorResponseError`].
pub struct HttpAccessorResponseErrorView {
    pub url: Seq<char>,
    pub status_code: Option<u16>,
    pub err: Option<HttpAccessorErrorView>,
}

/// The value of an error that may be absent.
pub open spec fn err_view(err: Option<HttpAccessorError>) -> Option<HttpAccessorErrorView> {
    match err {
        Some(e) => Some(e@),
        None => None,
    }
}

impl View for HttpAccessorResponseError {
    type V = HttpAccessorResponseErrorView;

    closed spec fn view(&self) -> HttpAccessorResponseErrorView {
        HttpAccessorResponseErrorView {
            url: self.url@,
            status_code: self.status_code,
            err: err_view(self.err),
        }
    }
}

impl HttpAccessorResponseError {
    /// The URL that was requested.
    pub fn url(&self) -> (url: &str)
        ensures
            url@ == self@.url,
    {
        self.url.as_str()
    }

    /// The status code, where a response came at all.
    pub fn status_code(&self) -> (code: &Option<u16>)
        ensures
            *code == self@.status_code,
    {
        &self.status_code
    }

    /// The error behind the failure.
    pub fn err(&self) -> (err: &Option<HttpAccessorError>)
        ensures
            err_view(*err) == self@.err,
    {
        &self.err
    }
}

/// The outcome of one request.
pub type Outcome = Result<HttpAccessorResponse, HttpAccessorResponseError>;

/// The mathematical value of an [`Outcome`].
pub enum OutcomeView {
    Success(HttpAccessorResponseView),
    Failure(HttpAccessorResponseErrorView),
}

impl OutcomeView {
    /// The URL of the request that the outcome belongs to.
    pub open spec fn url(self) -> Seq<char> {
        match self {
            OutcomeView::Success(response) => response.url,
            OutcomeView::Failure(error) => error.url,
        }
    }
}

/// The value of an outcome.
pub open spec fn outcome_view(outcome: Outcome) -> OutcomeView {
    match outcome {
        Ok(response) => OutcomeView::Success(response@),
        Err(error) => OutcomeView::Failure(error@),
    }
}

/// The values of a list of outcomes.
pub open spec fn outcome_views(outcomes: Seq<Outcome>) -> Seq<OutcomeView> {
    outcomes.map_values(|outcome: Outcome| outcome_view(outcome))
}

/// The method of a request.
#[derive(Debug, Clone, Copy, PartialEq, Eq, Structural)]
pub enum Method {
    Get,
    Post,
}

/// One request to perform.
#[derive(Debug, PartialEq, Eq)]
pub struct HttpRequest {
    pub method: Method,
    pub url: String,
    /// The body to send; a `GET` has none.
    pub body: Option<String>,
    /// How long the operation may take.
    pub timeout_secs: u64,
}

/// The mathematical value of an [`HttpRequest`].
pub struct HttpRequestView {
    pub method: Method,
    pub url: Seq<char>,
    pub body: Option<Seq<char>>,
    pub timeout_secs: nat,
}

impl View for HttpRequest {
    type V = HttpRequestView;

    open spec fn view(&self) -> HttpRequestView {
        HttpRequestView {
            method: self.method,
            url: self.url@,
            body: match self.body {
                Some(body) => Some(body@),
                None => None,
            },
            timeout_secs: self.timeout_secs as nat,
        }
    }
}

/// What the transport reports of one request. A cause is the transport's own
/// description of what went wrong.
#[derive(Debug, PartialEq, Eq)]
pub enum Exchange {
    /// The request could not be sent, or no response came in time.
    SendFailed { cause: String },
    /// A response came with this status; reading its body gave this text or
    /// failed with this cause.
    Received { status_code: u16, text: Result<String, String> },
}

/// The mathematical value of an [`Exchange`].
pub enum ExchangeView {
    SendFailed { cause: Seq<char> },
    Received { status_code: u16, text: Result<Seq<char>, Seq<char>> },
}

impl View for Exchange {
    type V = ExchangeView;

    open spec fn view(&self) -> ExchangeView {
        match self {
            Exchange::SendFailed { cause } => ExchangeView::SendFailed { cause: cause@ },
            Exchange::Received { status_code, text } => ExchangeView::Received {
                status_code: *status_code,
                text: text_result(*text),
            },
        }
    }
}

/// The value of the result of reading a body.
pub open spec fn text_result(text: Result<String, String>) -> Result<Seq<char>, Seq<char>> {
    match text {
        Ok(body) => Ok(body@),
        Err(cause) => Err(cause@),
    }
}

/// The outcome of a response with status `status_code` to a request for
/// `url`, given what reading its body gave. A body that was read makes a
/// success. One that could not be read makes a failure that keeps the status
/// code and names the cause.
pub open spec fn response_outcome(
    url: Seq<char>,
    status_code: u16,
    text: Result<Seq<char>, Seq<char>>,
) -> OutcomeView {
    match text {
        Ok(content) => OutcomeView::Success(HttpAccessorResponseView { url, status_code, content }),
        Err(cause) => OutcomeView::Failure(
            HttpAccessorResponseErrorView {
                url,
                status_code: Some(status_code),
                err: Some(
                    HttpAccessorErrorView {
                        err_type: HttpAccessorErrorTypeView::GetContentError(cause),
                        msg: "async get text fail"@,
                    },
                ),
            },
        ),
    }
}

/// The outcome of a request for `url`, given what the transport reports. A
/// request that could not be sent makes a failure without a status code.
pub open spec fn exchange_outcome(url: Seq<char>, exchange: ExchangeView) -> OutcomeView {
    match exchange {
        ExchangeView::SendFailed { cause } => OutcomeView::Failure(
            HttpAccessorResponseErrorView {
                url,
                status_code: None,
                err: Some(
                    HttpAccessorErrorView {
                        err_type: HttpAccessorErrorTypeView::OpenUrlError(cause),
                        msg: "async get fail"@,
                    },
                ),
            },
        ),
        ExchangeView::Received { status_code, text } => response_outcome(url, status_code, text),
    }
}

/// Every outcome carries the URL of its request.
pub proof fn law_outcome_names_its_request(url: Seq<char>, exchange: ExchangeView)
    ensures
        exchange_outcome(url, exchange).url() == url,
{
}

/// A handle on the HTTP endpoint's settings.
#[derive(Debug)]
pub struct HttpAccessor {
    timeout: u32,
}

impl View for HttpAccessor {
    type V = u32;

    closed spec fn view(&self) -> u32 {
        self.timeout
    }
}

impl HttpAccessor {
    /// An accessor with a timeout of 60 seconds.
    pub fn new() -> (accessor: Self)
        ensures
            accessor@ == 60,
    {
        Self { timeout: 60 }
    }

    /// The same accessor with another timeout, in seconds.
    pub fn timeout(self, timeout: u32) -> (accessor: Self)
        ensures
            accessor@ == timeout,
    {
        Self { timeout }
    }

    /// The timeout in seconds.
    pub fn timeout_secs(&self) -> (timeout: u32)
        ensures
            timeout == self@,
    {
        self.timeout
    }

    /// Makes the outcome of a response whose status is known and whose body
    /// was read, or could not be read.
    pub fn handle_async_resp(url: &str, status_code: u16, text: Result<String, String>) -> (outcome:
        Outcome)
        ensures
            outcome_view(outcome) == response_outcome(url@, status_code, text_result(text)),
    {
        match text {
            Ok(content) => Ok(
                HttpAccessorResponse { url: String::from_str(url), status_code, content },
            ),
            Err(cause) => Err(
                HttpAccessorResponseError {
                    url: String::from_str(url),
                    status_code: Some(status_code),
                    err: Some(
                        HttpAccessorError {
                            err_type: HttpAccessorErrorType::GetContentError(cause),
                            msg: String::from_str("async get text fail"),
                        },
                    ),
                },
            ),
        }
    }

    /// Makes the outcome of a request from what the transport reports of it.
    pub fn handle_exchange(url: &str, exchange: Exchange) -> (outcome: Outcome)
        ensures
            outcome_view(outcome) == exchange_outcome(url@, exchange@),
    {
        match exchange {
            Exchange::SendFailed { cause } => Err(
                HttpAccessorResponseError {
                    url: String::from_str(url),
                    status_code: None,
                    err: Some(
                        HttpAccessorError {
                            err_type: HttpAccessorErrorType::OpenUrlError(cause),
                            msg: String::from_str("async get fail"),
                        },
                    ),
                },
            ),
            Exchange::Received { status_code, text } => Self::handle_async_resp(
                url,
                status_code,
                text,
            ),
        }
    }

    /// Describes a `GET` of `url` that may take `timeout` seconds.
    pub fn async_get(url: &str, timeout: u32) -> (request: HttpRequest)
        ensures
            request@ == (HttpRequestView {
                method: Method::Get,
                url: url@,
                body: None,
                timeout_secs: timeout as nat,
            }),
    {
        HttpRequest {
            method: Method::Get,
            url: String::from_str(url),
            body: None,
            timeout_secs: timeout as u64,
        }
    }

    /// Describes a `POST` of `body` to `url` that may take `timeout` seconds.
    pub fn async_post(url: &str, body: &str, timeout: u32) -> (request: HttpRequest)
        ensures
            request@ == (HttpRequestView {
                method: Method::Post,
                url: url@,
                body: Some(body@),
                timeout_secs: timeout as nat,
            }),
    {
        HttpRequest {
            method: Method::Post,
            url: String::from_str(url),
            body: Some(String::from_str(body)),
            timeout_secs: timeout as u64,
        }
    }
}

/// The request that a batch makes for one of its URLs.
pub open spec fn get_request(url: Seq<char>, timeout: u32) -> HttpRequestView {
    HttpRequestView { method: Method::Get, url, body: None, timeout_secs: timeout as nat }
}

/// The value of a slot of a scheduler of outcomes.
pub open spec fn slot_view(slot: Option<Outcome>) -> Option<OutcomeView> {
    match slot {
        Some(outcome) => Some(outcome_view(outcome)),
        None => None,
    }
}

/// The value of a scheduler of outcomes: the same scheduler, with the value
/// of each outcome in place of the outcome.
pub open spec fn fan_view(fan: FanOutView<Outcome>) -> FanOutView<OutcomeView> {
    FanOutView {
        limit: fan.limit,
        order: fan.order,
        launched: fan.launched,
        slots: fan.slots.map_values(|slot: Option<Outcome>| slot_view(slot)),
        window: fan.window,
        arrivals: fan.arrivals,
    }
}

/// The mathematical value of a [`MultiGet`].
pub struct MultiGetView {
    /// The requests of the batch, in the order of its URLs.
    pub requests: Seq<HttpRequestView>,
    /// The scheduler that fans them out.
    pub fan: FanOutView<OutcomeView>,
}

impl MultiGetView {
    /// What holds of a batch at every moment: its scheduler is valid, has one
    /// slot per request, and every outcome that has arrived carries the URL
    /// of its own request.
    pub open spec fn valid(self) -> bool {
        &&& self.fan.valid()
        &&& self.fan.total() == self.requests.len()
        &&& forall|i: int|
            0 <= i < self.requests.len() ==> ((#[trigger] self.fan.slots[i]) matches Some(outcome)
                ==> outcome.url() == self.requests[i].url)
    }

    /// The batch after the exchange of request `index`, which was in flight,
    /// has been reported.
    pub open spec fn complete(self, index: int, exchange: ExchangeView) -> Self {
        MultiGetView {
            fan: self.fan.complete(index, exchange_outcome(self.requests[index].url, exchange)),
            ..self
        }
    }
}

/// A batch of `GET` requests under way.
#[derive(Debug)]
pub struct MultiGet {
    requests: Vec<HttpRequest>,
    fan: FanOut<Outcome>,
}

impl View for MultiGet {
    type V = MultiGetView;

    closed spec fn view(&self) -> MultiGetView {
        MultiGetView {
            requests: self.requests@.map_values(|request: HttpRequest| request@),
            fan: fan_view(self.fan@),
        }
    }
}

proof fn lemma_fan_view_is_valid(fan: FanOutView<Outcome>)
    ensures
        fan_view(fan).valid() == fan.valid(),
        fan_view(fan).action() == fan.action(),
        fan_view(fan).is_done() == fan.is_done(),
        fan_view(fan.advance()) == fan_view(fan).advance(),
{
    // A slot holds an outcome exactly when its value does.
    let mapped = fan_view(fan);
    assert forall|i: int| 0 <= i < mapped.slots.len() implies (fan.slots[i] is Some
        <==> #[trigger] mapped.slots[i] is Some) by {}
    if mapped.valid() {
        assert forall|i: int| 0 <= i < fan.slots.len() implies ((#[trigger] fan.slots[i]) is Some
            <==> i < fan.launched && !fan.window.contains(i)) by {
            assert(fan.slots[i] is Some <==> mapped.slots[i] is Some);
        }
    }
}

proof fn lemma_fan_view_complete(fan: FanOutView<Outcome>, index: int, outcome: Outcome)
    requires
        0 <= index < fan.slots.len(),
    ensures
        fan_view(fan.complete(index, outcome)) == fan_view(fan).complete(
            index,
            outcome_view(outcome),
        ),
{
}

proof fn lemma_fan_view_outcomes(fan: FanOutView<Outcome>)
    requires
        fan.valid(),
        fan.is_done(),
    ensures
        outcome_views(fan.outcomes()) == fan_view(fan).outcomes(),
{
    assert(outcome_views(fan.unordered_outcomes()) =~= fan_view(fan).unordered_outcomes());
}

impl MultiGet {
    /// What holds of the representation beyond what the value shows.
    pub closed spec fn rep(&self) -> bool {
        self.fan.rep()
    }

    /// Whether the batch is in a state that its own operations can have led
    /// to.
    pub open spec fn wf(&self) -> bool {
        self.rep() && self@.valid()
    }

    /// The request with this index.
    pub fn request(&self, index: usize) -> (request: Option<&HttpRequest>)
        ensures
            match request {
                Some(r) => index < self@.requests.len() && r@ == self@.requests[index as int],
                None => index >= self@.requests.len(),
            },
    {
        if index < self.requests.len() {
            Some(&self.requests[index])
        } else {
            None
        }
    }

    /// The number of operations in flight.
    pub fn in_flight(&self) -> (n: usize)
        requires
            self.wf(),
        ensures
            n == self@.fan.in_flight(),
            n <= self@.fan.limit,
    {
        proof {
            lemma_fan_view_is_valid(self.fan@);
        }
        self.fan.in_flight()
    }

    /// Says what to do next. Where that is to launch a request, the request
    /// counts as in flight from now on.
    pub fn next_action(&mut self) -> (action: Action)
        requires
            old(self).wf(),
        ensures
            final(self).wf(),
            action@ == old(self)@.fan.action(),
            final(self)@.fan == old(self)@.fan.advance(),
            final(self)@.requests == old(self)@.requests,
            final(self)@.fan.in_flight() <= final(self)@.fan.limit,
    {
        proof {
            lemma_fan_view_is_valid(self.fan@);
        }
        let action = self.fan.next_action();
        proof {
            lemma_fan_view_is_valid(self.fan@);
        }
        action
    }

    /// Reports what the transport says of request `index`. The report is
    /// taken iff that request is in flight, and its outcome is then stored
    /// for that request; otherwise the report comes back and nothing changes.
    pub fn complete(&mut self, index: usize, exchange: Exchange) -> (taken: Result<(), Exchange>)
        requires
            old(self).wf(),
        ensures
            final(self).wf(),
            final(self)@.fan.in_flight() <= final(self)@.fan.limit,
            ({
                let before = old(self)@;
                let after = final(self)@;
                match taken {
                    Ok(_) => before.fan.window.contains(index as int) && after == before.complete(
                        index as int,
                        exchange@,
                    ),
                    Err(back) => !before.fan.window.contains(index as int) && back == exchange
                        && after == before,
                }
            }),
    {
        proof {
            lemma_fan_view_is_valid(self.fan@);
        }
        if !self.fan.is_in_flight(index) {
            return Err(exchange);
        }
        let outcome = HttpAccessor::handle_exchange(self.requests[index].url.as_str(), exchange);
        let ghost before = self.fan@;
        match self.fan.complete(index, outcome) {
            Ok(_) => {},
            Err(_) => {
                assert(false);
            },
        }
        proof {
            lemma_fan_view_complete(before, index as int, outcome);
            lemma_fan_view_is_valid(self.fan@);
            law_outcome_names_its_request(old(self)@.requests[index as int].url, exchange@);
        }
        Ok(())
    }

    /// Hands out the outcomes once all have arrived: by request if the batch
    /// is ordered, by arrival if it is unordered. Before that there is no
    /// result, and the error says so.
    pub fn finish(self) -> (result: Result<Vec<Outcome>, HttpAccessorError>)
        requires
            self.wf(),
        ensures
            match result {
                Ok(outcomes) => self@.fan.is_done() && outcome_views(outcomes@)
                    == self@.fan.outcomes() && outcomes@.len() == self@.requests.len() && forall|
                    i: int,
                |
                    0 <= i < outcomes@.len() ==> outcome_view(#[trigger] outcomes@[i])
                        == self@.fan.outcomes()[i],
                Err(error) => !self@.fan.is_done() && error@ == (HttpAccessorErrorView {
                    err_type: HttpAccessorErrorTypeView::GetMultiContentError(
                        "batch is not complete"@,
                    ),
                    msg: "async multi get fail"@,
                }),
            },
    {
        proof {
            lemma_fan_view_is_valid(self.fan@);
        }
        let ghost fan = self.fan@;
        match self.fan.finish() {
            Ok(outcomes) => {
                proof {
                    lemma_fan_view_outcomes(fan);
                }
                Ok(outcomes)
            },
            Err(_) => Err(
                HttpAccessorError {
                    err_type: HttpAccessorErrorType::GetMultiContentError(
                        String::from_str("batch is not complete"),
                    ),
                    msg: String::from_str("async multi get fail"),
                },
            ),
        }
    }
}

/// The batch that fetches `urls`, before anything has been launched.
pub open spec fn multi_get_plan(
    urls: Seq<Seq<char>>,
    timeout: u32,
    order: ResultOrder,
    limit: nat,
) -> MultiGetView {
    MultiGetView {
        requests: urls.map_values(|url: Seq<char>| get_request(url, timeout)),
        fan: FanOutView::init(urls.len(), limit, order),
    }
}

/// The texts of a list of string slices.
pub open spec fn url_texts(urls: Seq<&str>) -> Seq<Seq<char>> {
    urls.map_values(|url: &str| url@)
}

impl HttpAccessor {
    /// Plans a batch of `GET` requests, one per URL, each with `timeout`
    /// seconds to finish, of which at most `concurrency_limit` are to be in
    /// flight at once.
    pub fn multi_get(urls: &[&str], timeout: u32, order: ResultOrder, concurrency_limit: usize) -> (plan:
        MultiGet)
        requires
            concurrency_limit >= 1,
        ensures
            plan.wf(),
            plan@ == multi_get_plan(url_texts(urls@), timeout, order, concurrency_limit as nat),
    {
        let mut requests: Vec<HttpRequest> = Vec::new();
        let mut i: usize = 0;
        while i < urls.len()
            invariant
                i <= urls.len(),
                requests.len() == i,
                forall|k: int|
                    0 <= k < i ==> (#[trigger] requests@[k])@ == get_request(urls@[k]@, timeout),
            decreases urls.len() - i,
        {
            requests.push(Self::async_get(urls[i], timeout));
            i += 1;
        }
        let fan: FanOut<Outcome> = FanOut::new(urls.len(), concurrency_limit, order);
        let plan = MultiGet { requests, fan };
        proof {
            let goal = multi_get_plan(url_texts(urls@), timeout, order, concurrency_limit as nat);
            assert(plan@.requests =~= goal.requests);
            assert(plan@.fan =~= goal.fan);
        }
        plan
    }

    /// Plans an ordered batch of `GET` requests with the default window of
    /// 128 concurrent operations.
    pub fn async_multi_get(urls: &[&str], timeout: u32) -> (plan: MultiGet)
        ensures
            plan.wf(),
            plan@ == multi_get_plan(url_texts(urls@), timeout, ResultOrder::Ordered, 128),
    {
        Self::multi_get(urls, timeout, ResultOrder::Ordered, DEFAULT_CONCURRENCY_LIMIT)
    }

    /// Plans an unordered batch of `GET` requests with the default window of
    /// 128 concurrent operations.
    pub fn async_multi_get_unordered(urls: &[&str], timeout: u32) -> (plan: MultiGet)
        ensures
            plan.wf(),
            plan@ == multi_get_plan(url_texts(urls@), timeout, ResultOrder::Unordered, 128),
    {
        Self::multi_get(urls, timeout, ResultOrder::Unordered, DEFAULT_CONCURRENCY_LIMIT)
    }
}

/// When an ordered batch is done, its result holds exactly one outcome per
/// URL, and the outcome at position `i` carries the URL at position `i`.
pub proof fn law_ordered_batch_answers_each_url_in_place(batch: MultiGetView)
    requires
        batch.valid(),
        batch.fan.is_done(),
    ensures
        batch.fan.ordered_outcomes().len() == batch.requests.len(),
        forall|i: int|
            0 <= i < batch.requests.len() ==> (#[trigger] batch.fan.ordered_outcomes()[i]).url()
                == batch.requests[i].url,
{
}

} // verus!
