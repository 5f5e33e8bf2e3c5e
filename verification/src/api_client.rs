use vstd::prelude::*;
use ic_cdk::api::management_canister::http_request as ic_http;
use crate::remote_exchanges::{Authorize, ExchangeErrors, HttpMethod, WireModel, WireRequest};
use crate::text::{concat, decimal, u64_to_decimal};

verus! {

/// Why the hosting runtime turned an outbound call down.
#[derive(Clone, Copy, Debug, PartialEq, Eq, Structural)]
pub enum RejectionCode {
    NoError,
    SysFatal,
    SysTransient,
    DestinationInvalid,
    CanisterReject,
    CanisterError,
    Unknown,
}

impl RejectionCode {
    /// The code's name, as it is shown in an error.
    pub open spec fn text(self) -> Seq<char> {
        match self {
            RejectionCode::NoError => "NoError"@,
            RejectionCode::SysFatal => "SysFatal"@,
            RejectionCode::SysTransient => "SysTransient"@,
            RejectionCode::DestinationInvalid => "DestinationInvalid"@,
            RejectionCode::CanisterReject => "CanisterReject"@,
            RejectionCode::CanisterError => "CanisterError"@,
            RejectionCode::Unknown => "Unknown"@,
        }
    }

    pub fn as_str(&self) -> (name: &'static str)
        ensures
            name@ == self.text(),
    {
        match self {
            RejectionCode::NoError => "NoError",
            RejectionCode::SysFatal => "SysFatal",
            RejectionCode::SysTransient => "SysTransient",
            RejectionCode::DestinationInvalid => "DestinationInvalid",
            RejectionCode::CanisterReject => "CanisterReject",
            RejectionCode::CanisterError => "CanisterError",
            RejectionCode::Unknown => "Unknown",
        }
    }
}

/// One header of a request.
#[derive(Debug)]
pub struct HttpHeader {
    pub name: String,
    pub value: String,
}

impl View for HttpHeader {
    type V = (Seq<char>, Seq<char>);

    open spec fn view(&self) -> (Seq<char>, Seq<char>) {
        (self.name@, self.value@)
    }
}

impl HttpHeader {
    pub fn new(name: &str, value: &str) -> (header: HttpHeader)
        ensures
            header@ == (name@, value@),
    {
        HttpHeader { name: String::from_str(name), value: String::from_str(value) }
    }
}

/// The headers of a list, each by its view.
pub open spec fn headers_view(headers: Seq<HttpHeader>) -> Seq<(Seq<char>, Seq<char>)> {
    headers.map_values(|h: HttpHeader| h@)
}

/// The two ways an outbound call fails before its answer can be read.
#[derive(Debug)]
pub enum ApiClientErrors {
    /// The exchange answered, with a status other than 200.
    Http { status: u64, body: String },
    /// The call never reached the exchange.
    Reject { message: String, code: RejectionCode },
}

impl ApiClientErrors {
    pub open spec fn text(self) -> Seq<char> {
        match self {
            ApiClientErrors::Http { status, body } => "http call failed with status "@
                + crate::text::decimal(status as nat) + " and body "@ + body@,
            ApiClientErrors::Reject { message, code } => "request rejected with code "@
                + code.text() + " and message "@ + message@,
        }
    }

    pub fn to_string(&self) -> (shown: String)
        ensures
            shown@ == self.text(),
    {
        match self {
            ApiClientErrors::Http { status, body } => {
                let mut shown = concat(
                    "http call failed with status ",
                    u64_to_decimal(*status).as_str(),
                );
                shown.append(" and body ");
                shown.append(body.as_str());
                shown
            },
            ApiClientErrors::Reject { message, code } => {
                let mut shown = concat("request rejected with code ", code.as_str());
                shown.append(" and message ");
                shown.append(message.as_str());
                shown
            },
        }
    }
}

/// An outbound call, ready to be issued.
#[derive(Debug)]
pub struct HttpCall {
    pub url: String,
    pub method: HttpMethod,
    pub headers: Vec<HttpHeader>,
    pub body: Option<String>,
    /// The most bytes the answer may have; the default applies where none
    /// is set.
    pub max_response_bytes: Option<u64>,
}

/// The length of the Candid encoding of an outbound call's arguments.
pub uninterp spec fn candid_len(
    url: Seq<char>,
    post: bool,
    headers: Seq<(Seq<char>, Seq<char>)>,
    body: Option<Seq<char>>,
    max_response_bytes: Option<u64>,
) -> nat;

/// Calls `candid::utils::encode_args` on the call as the one argument of the
/// runtime's `http_request`, and gives the number of bytes of the encoding.
#[verifier::external_body]
fn encoded_len(call: &HttpCall) -> (len: usize)
    ensures
        len == candid_len(
            call.url@,
            call.method == HttpMethod::POST,
            headers_view(call.headers@),
            match call.body {
                Some(b) => Some(b@),
                None => None,
            },
            call.max_response_bytes,
        ),
{
    let argument = ic_http::CanisterHttpRequestArgument {
        url: call.url.clone(),
        max_response_bytes: call.max_response_bytes,
        method: match call.method {
            HttpMethod::GET => ic_http::HttpMethod::GET,
            HttpMethod::POST => ic_http::HttpMethod::POST,
        },
        headers: call.headers.iter().map(
            |h| ic_http::HttpHeader { name: h.name.clone(), value: h.value.clone() },
        ).collect(),
        body: call.body.as_ref().map(|b| b.as_bytes().to_vec()),
        transform: None,
    };
    candid::utils::encode_args((&argument,)).map(|bytes| bytes.len()).unwrap_or(0)
}

/// The most bytes an answer may have where a call sets no limit: two
/// mebibytes.
pub const DEFAULT_MAX_RESPONSE_BYTES: u64 = 2097152;

/// What a call costs: a base fee and a fee for each node of a subnet of
/// thirteen, a fee for each byte that is sent, the name of the method
/// included, and a fee for each byte the answer may have, all of it paid
/// for each of the thirteen nodes.
pub open spec fn required_cycles(argument_len: nat, max_response_bytes: Option<u64>) -> nat {
    let ceiling: nat = match max_response_bytes {
        Some(n) => n as nat,
        None => DEFAULT_MAX_RESPONSE_BYTES as nat,
    };
    ((3_000_000 + 60_000 * 13 + (argument_len + 12) * 400 + ceiling * 800) * 13) as nat
}

/// The two headers that every call carries, and the name of the third.
pub open spec fn contract_headers(counter: u64) -> Seq<(Seq<char>, Seq<char>)> {
    seq![
        ("User-Agent"@, "trend_lense_backend"@),
        ("Content-Type"@, "application/json"@),
        ("idempotency-key"@, decimal(counter as nat)),
    ]
}

/// The counter after one more call: one more, until it can grow no more.
pub open spec fn counter_after(counter: u64) -> u64 {
    if counter < u64::MAX {
        (counter + 1) as u64
    } else {
        counter
    }
}

/// The headers of a call: those of the credentials, unless the request is
/// one that anyone may make, and then those that every call carries.
pub open spec fn call_headers(
    request: WireModel,
    auth: Option<Seq<(Seq<char>, Seq<char>)>>,
    counter: u64,
) -> Seq<(Seq<char>, Seq<char>)> {
    match auth {
        Some(headers) => if request.public {
            contract_headers(counter)
        } else {
            headers + contract_headers(counter)
        },
        None => contract_headers(counter),
    }
}

/// Whether a status says that a call has succeeded: it is one of the two
/// hundreds.
pub open spec fn is_success(status: u64) -> bool {
    200 <= status <= 299
}

/// The remote call executor: it turns requests into calls and answers into
/// results. It counts the calls it has prepared since the process started;
/// the count goes out with each call as its idempotency key.
#[derive(Debug)]
pub struct ApiClient {
    pub idempotency_counter: u64,
}

impl Default for ApiClient {
    /// An executor that has prepared no call yet.
    fn default() -> (client: ApiClient)
        ensures
            client.idempotency_counter == 0,
    {
        ApiClient { idempotency_counter: 0 }
    }
}

impl ApiClient {
    /// The headers that every call carries. The idempotency key is the
    /// number of calls prepared before this one.
    pub fn get_contract_headers(&mut self, _host: &str) -> (headers: Vec<HttpHeader>)
        ensures
            headers_view(headers@) == contract_headers(old(self).idempotency_counter),
            final(self).idempotency_counter == counter_after(old(self).idempotency_counter),
    {
        let counter = self.idempotency_counter;
        if counter < u64::MAX {
            self.idempotency_counter = counter + 1;
        }
        let mut headers: Vec<HttpHeader> = Vec::new();
        headers.push(HttpHeader::new("User-Agent", "trend_lense_backend"));
        headers.push(HttpHeader::new("Content-Type", "application/json"));
        headers.push(HttpHeader::new("idempotency-key", u64_to_decimal(counter).as_str()));
        assert(headers_view(headers@) =~= contract_headers(counter));
        headers
    }

    /// What a call costs when its encoded arguments have the given length.
    pub fn cycles_for(argument_len: usize, max_response_bytes: Option<u64>) -> (cycles: u128)
        ensures
            cycles == required_cycles(argument_len as nat, max_response_bytes),
    {
        let ceiling: u128 = match max_response_bytes {
            Some(n) => n as u128,
            None => DEFAULT_MAX_RESPONSE_BYTES as u128,
        };
        (3_000_000u128 + 60_000u128 * 13 + (argument_len as u128 + 12) * 400 + ceiling * 800) * 13
    }

    /// What a call costs: the budget that has to go with it.
    pub fn get_required_cycles(call: &HttpCall) -> (cycles: u128)
        ensures
            cycles == required_cycles(
                candid_len(
                    call.url@,
                    call.method == HttpMethod::POST,
                    headers_view(call.headers@),
                    match call.body {
                        Some(b) => Some(b@),
                        None => None,
                    },
                    call.max_response_bytes,
                ),
                call.max_response_bytes,
            ),
    {
        ApiClient::cycles_for(encoded_len(call), call.max_response_bytes)
    }

    /// The headers of a call.
    pub fn get_headers<A: Authorize>(&mut self, auth: Option<&A>, request: &WireRequest) -> (headers:
        Vec<HttpHeader>)
        ensures
            headers_view(headers@) == call_headers(
                request@,
                match auth {
                    Some(a) => Some(a.auth_headers()),
                    None => None,
                },
                old(self).idempotency_counter,
            ),
            final(self).idempotency_counter == counter_after(old(self).idempotency_counter),
    {
        let mut headers = match auth {
            Some(a) => if request.public {
                Vec::new()
            } else {
                a.get_auth_headers()
            },
            None => Vec::new(),
        };
        let ghost first = headers_view(headers@);
        let mut contract = self.get_contract_headers(request.host.as_str());
        let ghost second = headers_view(contract@);
        headers.append(&mut contract);
        assert(headers_view(headers@) =~= first + second);
        headers
    }

    /// Turns a request into the call that carries it: the address, the verb,
    /// the headers and the body.
    pub fn call<A: Authorize>(&mut self, request: &WireRequest, auth: Option<&A>) -> (call: HttpCall)
        ensures
            call.url@ == request@.url(),
            call.method == request@.method,
            headers_view(call.headers@) == call_headers(
                request@,
                match auth {
                    Some(a) => Some(a.auth_headers()),
                    None => None,
                },
                old(self).idempotency_counter,
            ),
            call.body is Some <==> request@.body,
            call.body is Some ==> call.body->0@ == request@.body_part(),
            call.max_response_bytes is None,
            final(self).idempotency_counter == counter_after(old(self).idempotency_counter),
    {
        HttpCall {
            url: request.url(),
            method: request.method,
            headers: self.get_headers(auth, request),
            body: request.body_text(),
            max_response_bytes: None,
        }
    }

    /// Reads the answer to a call: the body where the status says success,
    /// and the status with the body as an error otherwise.
    pub fn read_response(status: u64, body: String) -> (read: Result<String, ExchangeErrors>)
        ensures
            match read {
                Ok(text) => is_success(status) && text == body,
                Err(e) => !is_success(status) && e == ExchangeErrors::ApiClientError(
                    ApiClientErrors::Http { status, body },
                ),
            },
    {
        if status < 200 || status > 299 {
            Err(ExchangeErrors::ApiClientError(ApiClientErrors::Http { status, body }))
        } else {
            Ok(body)
        }
    }

    /// The error for a call that the runtime turned down.
    pub fn rejected(code: RejectionCode, message: String) -> (error: ExchangeErrors)
        ensures
            error == ExchangeErrors::ApiClientError(ApiClientErrors::Reject { message, code }),
    {
        ExchangeErrors::ApiClientError(ApiClientErrors::Reject { message, code })
    }

    /// The error for an answer that does not have the expected shape.
    pub fn undecodable(message: String) -> (error: ExchangeErrors)
        ensures
            error == (ExchangeErrors::DeserializationFailed { message }),
    {
        ExchangeErrors::DeserializationFailed { message }
    }
}

/// How long the executor sleeps between two looks at the table of results,
/// in seconds.
pub const POLL_INTERVAL_SECONDS: u64 = 1;

/// What an intermediary has to say of a call that was handed to it: the
/// status and the body of the answer, or the code and the message of the
/// refusal.
#[derive(Debug)]
pub enum ProxiedOutcome {
    Answered { status: u64, body: String },
    Rejected { code: RejectionCode, message: String },
}

/// The outcome of one call, under the handle that the intermediary gave for
/// the call when it took it.
#[derive(Debug)]
pub struct ProxiedResult {
    pub handle: u64,
    pub outcome: ProxiedOutcome,
}

/// The outcomes that the intermediary has delivered and that no call has
/// picked up yet.
pub struct ResultTable {
    results: Vec<ProxiedResult>,
}

/// What the executor does after a look at the table of results.
#[derive(Debug)]
pub enum Poll {
    /// The outcome is not there yet: sleep for so many seconds, then look
    /// again.
    Sleep(u64),
    /// The outcome is there, and this is what the call comes to.
    Finished(Result<String, ExchangeErrors>),
}

/// Where the first result with a handle stands in a list, or the length of
/// the list where there is none.
pub open spec fn first_with(results: Seq<ProxiedResult>, handle: u64) -> int
    decreases results.len(),
{
    if results.len() == 0 {
        0
    } else if results[0].handle == handle {
        0
    } else {
        1 + first_with(results.drop_first(), handle)
    }
}

/// The place of the first result with a handle lies within the list or at
/// its end, no result before it has the handle, and the result at it has.
pub proof fn first_with_is_first(results: Seq<ProxiedResult>, handle: u64)
    ensures
        0 <= first_with(results, handle) <= results.len(),
        forall|i: int| 0 <= i < first_with(results, handle) ==> results[i].handle != handle,
        first_with(results, handle) < results.len() ==> results[first_with(
            results,
            handle,
        )].handle == handle,
    decreases results.len(),
{
    if results.len() > 0 && results[0].handle != handle {
        let rest = results.drop_first();
        first_with_is_first(rest, handle);
        assert forall|i: int| 0 <= i < first_with(results, handle) implies results[i].handle
            != handle by {
            if i > 0 {
                assert(rest[i - 1] == results[i]);
            }
        }
        if first_with(rest, handle) < rest.len() {
            assert(rest[first_with(rest, handle)] == results[first_with(rest, handle) + 1]);
        }
    }
}

impl ResultTable {
    /// The outcomes in the table, in the order in which they were delivered.
    pub closed spec fn results(&self) -> Seq<ProxiedResult> {
        self.results@
    }

    /// Whether the outcome of a call is in the table.
    pub open spec fn holds(&self, handle: u64) -> bool {
        first_with(self.results(), handle) < self.results().len()
    }

    /// A table without outcomes.
    pub fn new() -> (table: ResultTable)
        ensures
            table.results().len() == 0,
    {
        ResultTable { results: Vec::new() }
    }

    /// Puts an outcome that the intermediary delivers into the table.
    pub fn deliver(&mut self, result: ProxiedResult)
        ensures
            final(self).results() == old(self).results().push(result),
    {
        self.results.push(result);
    }

    /// Looks for the outcome of a call. Where it is in the table, it leaves
    /// the table, and the call comes to what the outcome says: the body of an
    /// answer with a status of success, an error otherwise. Where it is not,
    /// the table stays as it is, and the executor is to sleep and look again.
    pub fn poll(&mut self, handle: u64) -> (step: Poll)
        ensures
            step is Finished <==> old(self).holds(handle),
            match step {
                Poll::Sleep(seconds) => {
                    &&& seconds == POLL_INTERVAL_SECONDS
                    &&& final(self).results() == old(self).results()
                },
                Poll::Finished(read) => {
                    let at = first_with(old(self).results(), handle);
                    &&& final(self).results() == old(self).results().remove(at)
                    &&& match old(self).results()[at].outcome {
                        ProxiedOutcome::Answered { status, body } => match read {
                            Ok(text) => is_success(status) && text == body,
                            Err(e) => !is_success(status) && e == ExchangeErrors::ApiClientError(
                                ApiClientErrors::Http { status, body },
                            ),
                        },
                        ProxiedOutcome::Rejected { code, message } => read == Err::<
                            String,
                            ExchangeErrors,
                        >(
                            ExchangeErrors::ApiClientError(
                                ApiClientErrors::Reject { message, code },
                            ),
                        ),
                    }
                },
            },
    {
        let mut i: usize = 0;
        proof {
            first_with_is_first(self.results@, handle);
        }
        while i < self.results.len()
            invariant
                i <= self.results.len(),
                self.results@ == old(self).results@,
                forall|j: int| 0 <= j < i ==> self.results@[j].handle != handle,
                i <= first_with(self.results@, handle),
            decreases self.results.len() - i,
        {
            if self.results[i].handle == handle {
                proof {
                    first_with_is_first(self.results@, handle);
                }
                let found = self.results.remove(i);
                return match found.outcome {
                    ProxiedOutcome::Answered { status, body } => Poll::Finished(
                        ApiClient::read_response(status, body),
                    ),
                    ProxiedOutcome::Rejected { code, message } => Poll::Finished(
                        Err(ApiClient::rejected(code, message)),
                    ),
                };
            }
            proof {
                first_with_is_first(self.results@, handle);
            }
            i = i + 1;
        }
        Poll::Sleep(POLL_INTERVAL_SECONDS)
    }
}

} // verus!
