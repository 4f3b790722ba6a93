//! The recorded outcome of one request, and how a transport failure is
//! put into words.

use vstd::prelude::*;
use vstd::string::*;
use crate::json::{json_value_of, parse_json};
use crate::text::{concat_text, decimal, opt_text_view, u64_to_decimal};

verus! {

/// Whether a status code counts as a success: the 2xx range.
pub open spec fn is_success_code(code: u16) -> bool {
    200 <= code < 300
}

/// Decides whether a received status code counts as a success.
pub fn status_is_success(code: u16) -> (ok: bool)
    ensures
        ok == is_success_code(code),
{
    200 <= code && code < 300
}

/// The reason phrase that belongs to a status code, where one is defined.
pub uninterp spec fn canonical_reason_of(code: u16) -> Option<Seq<char>>;

/// Calls `reqwest::StatusCode::from_u16` and then `canonical_reason` (both
/// of the `http` crate). A code that is no status code has no phrase. The
/// phrase depends on the code alone; which phrase it is is not claimed.
#[verifier::external_body]
fn canonical_reason(code: u16) -> (phrase: Option<String>)
    ensures
        opt_text_view(phrase) == canonical_reason_of(code),
{
    match reqwest::StatusCode::from_u16(code) {
        Ok(status) => status.canonical_reason().map(|phrase| phrase.to_string()),
        Err(_) => None,
    }
}

/// The status text shown for a code: its reason phrase, or the empty text.
pub open spec fn status_text_of(code: u16) -> Seq<char> {
    match canonical_reason_of(code) {
        Some(phrase) => phrase,
        None => Seq::empty(),
    }
}

/// Picks the status text from what the phrase lookup gave.
pub fn status_text_from(phrase: Option<String>) -> (text: String)
    ensures
        text@ == match opt_text_view(phrase) {
            Some(p) => p,
            None => Seq::empty(),
        },
{
    match phrase {
        Some(p) => p,
        None => String::new(),
    }
}

/// The six kinds of transport failure that a report tells apart.
#[derive(Clone, Copy, Debug, PartialEq, Eq, Structural)]
pub enum ErrorCategory {
    Timeout,
    Connect,
    InvalidRequest,
    Body,
    Decode,
    Unknown,
}

/// What the transport layer said of a failed attempt.
#[derive(Clone, Debug)]
pub struct TransportFailure {
    pub is_timeout: bool,
    pub is_connect: bool,
    pub is_request: bool,
    pub is_body: bool,
    pub is_decode: bool,
    pub message: String,
}

/// The category of a failure: the first of the five conditions that
/// holds, in the order timeout, connect, request, body, decode.
pub open spec fn category_of(failure: TransportFailure) -> ErrorCategory {
    if failure.is_timeout {
        ErrorCategory::Timeout
    } else if failure.is_connect {
        ErrorCategory::Connect
    } else if failure.is_request {
        ErrorCategory::InvalidRequest
    } else if failure.is_body {
        ErrorCategory::Body
    } else if failure.is_decode {
        ErrorCategory::Decode
    } else {
        ErrorCategory::Unknown
    }
}

/// Maps a transport failure to its category.
pub fn classify(failure: &TransportFailure) -> (category: ErrorCategory)
    ensures
        category == category_of(*failure),
{
    if failure.is_timeout {
        ErrorCategory::Timeout
    } else if failure.is_connect {
        ErrorCategory::Connect
    } else if failure.is_request {
        ErrorCategory::InvalidRequest
    } else if failure.is_body {
        ErrorCategory::Body
    } else if failure.is_decode {
        ErrorCategory::Decode
    } else {
        ErrorCategory::Unknown
    }
}

/// The words for a category; the timeout in seconds is named for a
/// timeout.
pub open spec fn category_text(category: ErrorCategory, timeout_secs: u64) -> Seq<char> {
    match category {
        ErrorCategory::Timeout => "Request timeout ("@ + decimal(timeout_secs as nat) + "s)"@,
        ErrorCategory::Connect => "Unable to connect to server"@,
        ErrorCategory::InvalidRequest => "Invalid request"@,
        ErrorCategory::Body => "Body processing failed"@,
        ErrorCategory::Decode => "Response decoding failed"@,
        ErrorCategory::Unknown => "Unknown error"@,
    }
}

/// Writes out the words for a category.
pub fn describe_category(category: ErrorCategory, timeout_secs: u64) -> (text: String)
    ensures
        text@ == category_text(category, timeout_secs),
{
    match category {
        ErrorCategory::Timeout => {
            let number = u64_to_decimal(timeout_secs);
            let mut text = concat_text("Request timeout (", number.as_str());
            text.append("s)");
            text
        },
        ErrorCategory::Connect => String::from_str("Unable to connect to server"),
        ErrorCategory::InvalidRequest => String::from_str("Invalid request"),
        ErrorCategory::Body => String::from_str("Body processing failed"),
        ErrorCategory::Decode => String::from_str("Response decoding failed"),
        ErrorCategory::Unknown => String::from_str("Unknown error"),
    }
}

/// The error text of a failed attempt: the category's words, a colon and
/// the transport layer's own message.
pub open spec fn failure_text(failure: TransportFailure, timeout_secs: u64) -> Seq<char> {
    category_text(category_of(failure), timeout_secs) + ": "@ + failure.message@
}

/// Writes out the error text of a failed attempt.
pub fn describe_failure(failure: &TransportFailure, timeout_secs: u64) -> (text: String)
    ensures
        text@ == failure_text(*failure, timeout_secs),
{
    let mut text = describe_category(classify(failure), timeout_secs);
    text.append(": ");
    text.append(failure.message.as_str());
    text
}

/// The outcome of one request.
#[derive(Clone, Debug)]
pub struct RequestResult {
    pub name: String,
    pub url: String,
    pub method: String,
    pub status_code: Option<u16>,
    pub status_text: Option<String>,
    pub success: bool,
    pub response_time_ns: u128,
    pub response_body: Option<serde_json::Value>,
    pub error: Option<String>,
}

/// A `RequestResult` as plain values.
pub struct ResultView {
    pub name: Seq<char>,
    pub url: Seq<char>,
    pub method: Seq<char>,
    pub status_code: Option<u16>,
    pub status_text: Option<Seq<char>>,
    pub success: bool,
    pub response_time_ns: nat,
    pub response_body: Option<serde_json::Value>,
    pub error: Option<Seq<char>>,
}

impl View for RequestResult {
    type V = ResultView;

    open spec fn view(&self) -> ResultView {
        ResultView {
            name: self.name@,
            url: self.url@,
            method: self.method@,
            status_code: self.status_code,
            status_text: opt_text_view(self.status_text),
            success: self.success,
            response_time_ns: self.response_time_ns as nat,
            response_body: self.response_body,
            error: opt_text_view(self.error),
        }
    }
}

impl ResultView {
    /// A result is well formed when it is a success exactly if a 2xx
    /// status was received, the status text comes with the status code,
    /// an error excludes a status, and a body only comes with a status.
    pub open spec fn wf(self) -> bool {
        &&& self.success <==> (self.status_code matches Some(code) && is_success_code(code))
        &&& self.status_code is Some <==> self.status_text is Some
        &&& self.error is Some <==> self.status_code is None
        &&& self.response_body is Some ==> self.status_code is Some
    }
}

/// The result of a request that was turned down before anything was sent.
pub open spec fn rejected_view(
    name: Seq<char>,
    url: Seq<char>,
    method: Seq<char>,
    error: Seq<char>,
) -> ResultView {
    ResultView {
        name,
        url,
        method,
        status_code: None,
        status_text: None,
        success: false,
        response_time_ns: 0,
        response_body: None,
        error: Some(error),
    }
}

/// The result of a request that was answered with `code` and `body`.
pub open spec fn answered_view(
    name: Seq<char>,
    url: Seq<char>,
    method: Seq<char>,
    code: u16,
    body: Seq<char>,
    elapsed_ns: nat,
) -> ResultView {
    ResultView {
        name,
        url,
        method,
        status_code: Some(code),
        status_text: Some(status_text_of(code)),
        success: is_success_code(code),
        response_time_ns: elapsed_ns,
        response_body: json_value_of(body),
        error: None,
    }
}

/// The result of a request that the transport layer could not complete.
pub open spec fn failed_view(
    name: Seq<char>,
    url: Seq<char>,
    method: Seq<char>,
    failure: TransportFailure,
    timeout_secs: u64,
    elapsed_ns: nat,
) -> ResultView {
    ResultView {
        name,
        url,
        method,
        status_code: None,
        status_text: None,
        success: false,
        response_time_ns: elapsed_ns,
        response_body: None,
        error: Some(failure_text(failure, timeout_secs)),
    }
}

impl RequestResult {
    /// Records a request that validation turned down: nothing was sent,
    /// no time passed, and `error` says why.
    pub fn rejected(name: String, url: String, method: String, error: String) -> (result: Self)
        ensures
            result@ == rejected_view(name@, url@, method@, error@),
            result@.wf(),
    {
        RequestResult {
            name,
            url,
            method,
            status_code: None,
            status_text: None,
            success: false,
            response_time_ns: 0,
            response_body: None,
            error: Some(error),
        }
    }

    /// Records a received response from its status code, the phrase found
    /// for the code and the body as parsed.
    pub fn answered(
        name: String,
        url: String,
        method: String,
        code: u16,
        phrase: Option<String>,
        body: Option<serde_json::Value>,
        elapsed_ns: u128,
    ) -> (result: Self)
        ensures
            result@ == (ResultView {
                name: name@,
                url: url@,
                method: method@,
                status_code: Some(code),
                status_text: Some(
                    match opt_text_view(phrase) {
                        Some(p) => p,
                        None => Seq::empty(),
                    },
                ),
                success: is_success_code(code),
                response_time_ns: elapsed_ns as nat,
                response_body: body,
                error: None,
            }),
            result@.wf(),
    {
        RequestResult {
            name,
            url,
            method,
            status_code: Some(code),
            status_text: Some(status_text_from(phrase)),
            success: status_is_success(code),
            response_time_ns: elapsed_ns,
            response_body: body,
            error: None,
        }
    }

    /// Records a received response: the status code with its reason
    /// phrase, success for a 2xx code, and the body where it is JSON.
    pub fn from_response(
        name: String,
        url: String,
        method: String,
        code: u16,
        body: &str,
        elapsed_ns: u128,
    ) -> (result: Self)
        ensures
            result@ == answered_view(name@, url@, method@, code, body@, elapsed_ns as nat),
            result@.wf(),
    {
        let phrase = canonical_reason(code);
        let parsed = parse_json(body);
        RequestResult::answered(name, url, method, code, phrase, parsed, elapsed_ns)
    }

    /// Records an attempt that the transport layer could not complete.
    pub fn from_failure(
        name: String,
        url: String,
        method: String,
        failure: &TransportFailure,
        timeout_secs: u64,
        elapsed_ns: u128,
    ) -> (result: Self)
        ensures
            result@ == failed_view(
                name@,
                url@,
                method@,
                *failure,
                timeout_secs,
                elapsed_ns as nat,
            ),
            result@.wf(),
    {
        RequestResult {
            name,
            url,
            method,
            status_code: None,
            status_text: None,
            success: false,
            response_time_ns: elapsed_ns,
            response_body: None,
            error: Some(describe_failure(failure, timeout_secs)),
        }
    }
}

/// A well-formed result is a success exactly if a status code was
/// received and lies in the 2xx range.
pub proof fn lemma_success_iff_2xx(result: ResultView)
    requires
        result.wf(),
    ensures
        result.success <==> (result.status_code matches Some(code) && 200 <= code < 300),
{
}

/// A received status that is no 2xx is a failure without an error text:
/// the response came, so nothing went wrong in the transport.
pub proof fn lemma_answered_has_no_error(
    name: Seq<char>,
    url: Seq<char>,
    method: Seq<char>,
    code: u16,
    body: Seq<char>,
    elapsed_ns: nat,
)
    ensures
        answered_view(name, url, method, code, body, elapsed_ns).wf(),
        answered_view(name, url, method, code, body, elapsed_ns).error is None,
        answered_view(name, url, method, code, body, elapsed_ns).status_code == Some(code),
        answered_view(name, url, method, code, body, elapsed_ns).success == (200 <= code < 300),
{
}

/// A transport failure gives a failed result without a status code,
/// whose error begins with the words of the failure's category.
pub proof fn lemma_failure_names_its_category(
    name: Seq<char>,
    url: Seq<char>,
    method: Seq<char>,
    failure: TransportFailure,
    timeout_secs: u64,
    elapsed_ns: nat,
)
    ensures
        ({
            let result = failed_view(name, url, method, failure, timeout_secs, elapsed_ns);
            let words = category_text(category_of(failure), timeout_secs);
            &&& result.wf()
            &&& !result.success
            &&& result.status_code is None
            &&& result.error matches Some(error) && words.is_prefix_of(error)
        }),
{
}

} // verus!
