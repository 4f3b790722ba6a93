//! The description of one request, and the checks that turn it into
//! something that can be sent.

use vstd::prelude::*;
use vstd::string::*;
use crate::headers::{header_is_valid, header_kept};
use crate::outcome::{rejected_view, RequestResult, ResultView};
use crate::text::{
    concat_text, names_unique, opt_names_unique, opt_text_view, pair_view, pairs_view,
};

verus! {

/// The five verbs that can be sent.
#[derive(Clone, Copy, Debug, PartialEq, Eq, Structural)]
pub enum HttpMethod {
    Get,
    Post,
    Put,
    Delete,
    Patch,
}

/// The upper-case form of a text.
pub uninterp spec fn uppercase_of(text: Seq<char>) -> Seq<char>;

/// Calls `str::to_uppercase`. The result depends on the text alone; which
/// characters change, and into what, is left to the standard library.
#[verifier::external_body]
fn to_uppercase(text: &str) -> (upper: String)
    ensures
        upper@ == uppercase_of(text@),
{
    text.to_uppercase()
}

/// The verb that an upper-case name stands for.
pub open spec fn method_named(upper: Seq<char>) -> Option<HttpMethod> {
    if upper == "GET"@ {
        Some(HttpMethod::Get)
    } else if upper == "POST"@ {
        Some(HttpMethod::Post)
    } else if upper == "PUT"@ {
        Some(HttpMethod::Put)
    } else if upper == "DELETE"@ {
        Some(HttpMethod::Delete)
    } else if upper == "PATCH"@ {
        Some(HttpMethod::Patch)
    } else {
        None
    }
}

/// Whether two texts are the same.
fn same_text(a: &str, b: &str) -> (same: bool)
    ensures
        same == (a@ == b@),
{
    let left = String::from_str(a);
    let right = String::from_str(b);
    left == right
}

/// Looks up the verb that an upper-case name stands for.
pub fn method_from_upper(upper: &str) -> (method: Option<HttpMethod>)
    ensures
        method == method_named(upper@),
{
    if same_text(upper, "GET") {
        Some(HttpMethod::Get)
    } else if same_text(upper, "POST") {
        Some(HttpMethod::Post)
    } else if same_text(upper, "PUT") {
        Some(HttpMethod::Put)
    } else if same_text(upper, "DELETE") {
        Some(HttpMethod::Delete)
    } else if same_text(upper, "PATCH") {
        Some(HttpMethod::Patch)
    } else {
        None
    }
}

/// Resolves a method name to a verb, whatever its case.
pub fn resolve_method(method: &str) -> (verb: Option<HttpMethod>)
    ensures
        verb == method_named(uppercase_of(method@)),
{
    let upper = to_uppercase(method);
    method_from_upper(upper.as_str())
}

/// The views of an optional list of names and values.
pub open spec fn opt_pairs_view(pairs: Option<Vec<(String, String)>>) -> Option<
    Seq<(Seq<char>, Seq<char>)>,
> {
    match pairs {
        Some(list) => Some(pairs_view(list@)),
        None => None,
    }
}

/// The headers that are sent: those whose name and value are both valid,
/// in the order given. The others are dropped without an error.
pub open spec fn kept_headers(headers: Seq<(Seq<char>, Seq<char>)>) -> Seq<
    (Seq<char>, Seq<char>),
> {
    headers.filter(|header: (Seq<char>, Seq<char>)| header_kept(header))
}

/// Dropping headers brings no name in twice: where no name occurs twice
/// among the headers given, none does among those that are kept.
pub proof fn lemma_kept_headers_keep_names_unique(headers: Seq<(Seq<char>, Seq<char>)>)
    requires
        names_unique(headers),
    ensures
        names_unique(kept_headers(headers)),
    decreases headers.len(),
{
    let pred = |header: (Seq<char>, Seq<char>)| header_kept(header);
    if headers.len() == 0 {
        headers.lemma_filter_len(pred);
    } else {
        let rest = headers.drop_last();
        let last = headers.last();
        assert(names_unique(rest)) by {
            assert forall|i: int, j: int| 0 <= i < j < rest.len() implies rest[i].0 != rest[j].0 by {
                assert(rest[i] == headers[i] && rest[j] == headers[j]);
            }
        }
        lemma_kept_headers_keep_names_unique(rest);
        assert(headers =~= rest.push(last));
        rest.lemma_filter_push(last, pred);
        let kept = kept_headers(headers);
        let before = kept_headers(rest);
        if header_kept(last) {
            assert forall|i: int, j: int| 0 <= i < j < kept.len() implies kept[i].0
                != kept[j].0 by {
                if j == kept.len() - 1 {
                    assert(before.contains(before[i]));
                    rest.lemma_filter_contains_rev(pred, before[i]);
                    let at = choose|at: int| 0 <= at < rest.len() && rest[at] == before[i];
                    assert(headers[at] == before[i]);
                } else {
                    assert(kept[i] == before[i] && kept[j] == before[j]);
                }
            }
        }
    }
}

/// Drops the headers that cannot be sent and keeps the others in order.
pub fn keep_valid_headers(headers: &Vec<(String, String)>) -> (kept: Vec<(String, String)>)
    ensures
        pairs_view(kept@) == kept_headers(pairs_view(headers@)),
{
    let mut kept: Vec<(String, String)> = Vec::new();
    let mut i: usize = 0;
    assert(kept_headers(Seq::empty()) =~= Seq::empty()) by {
        reveal(Seq::filter);
    }
    while i < headers.len()
        invariant
            i <= headers.len(),
            pairs_view(kept@) == kept_headers(pairs_view(headers@.take(i as int))),
        decreases headers.len() - i,
    {
        let name = &headers[i].0;
        let value = &headers[i].1;
        let ghost before = kept@;
        let ok = header_is_valid(name.as_str(), value.as_str());
        if ok {
            kept.push((name.clone(), value.clone()));
        }
        proof {
            let seen = headers@.take(i as int);
            let pred = |header: (Seq<char>, Seq<char>)| header_kept(header);
            let view_of = |pair: (String, String)| pair_view(pair);
            assert(headers@.take(i + 1) =~= seen.push(headers@[i as int]));
            seen.lemma_push_map_commute(view_of, headers@[i as int]);
            pairs_view(seen).lemma_filter_push(pair_view(headers@[i as int]), pred);
            if ok {
                before.lemma_push_map_commute(view_of, kept@.last());
            }
        }
        i += 1;
    }
    assert(headers@.take(headers.len() as int) =~= headers@);
    kept
}

/// One request as it is described in the input.
#[derive(Clone, Debug)]
pub struct RequestSpec {
    pub name: Option<String>,
    pub url: String,
    pub method: String,
    pub headers: Option<Vec<(String, String)>>,
    pub params: Option<Vec<(String, String)>>,
    pub body: Option<serde_json::Value>,
    pub form: Option<Vec<(String, String)>>,
}

/// A `RequestSpec` as plain values.
pub struct SpecView {
    pub name: Option<Seq<char>>,
    pub url: Seq<char>,
    pub method: Seq<char>,
    pub headers: Option<Seq<(Seq<char>, Seq<char>)>>,
    pub params: Option<Seq<(Seq<char>, Seq<char>)>>,
    pub body: Option<serde_json::Value>,
    pub form: Option<Seq<(Seq<char>, Seq<char>)>>,
}

impl SpecView {
    /// The headers, the parameters and the form fields are each keyed
    /// by name: no name occurs twice in one of them.
    pub open spec fn wf(self) -> bool {
        &&& opt_names_unique(self.headers)
        &&& opt_names_unique(self.params)
        &&& opt_names_unique(self.form)
    }
}

impl View for RequestSpec {
    type V = SpecView;

    open spec fn view(&self) -> SpecView {
        SpecView {
            name: opt_text_view(self.name),
            url: self.url@,
            method: self.method@,
            headers: opt_pairs_view(self.headers),
            params: opt_pairs_view(self.params),
            body: self.body,
            form: opt_pairs_view(self.form),
        }
    }
}

/// What a request carries as its payload.
#[derive(Debug)]
pub enum Payload {
    Empty,
    Json(serde_json::Value),
    Form(Vec<(String, String)>),
}

/// A `Payload` as plain values.
pub enum PayloadView {
    Empty,
    Json(serde_json::Value),
    Form(Seq<(Seq<char>, Seq<char>)>),
}

impl PayloadView {
    /// The fields of a form are keyed by name.
    pub open spec fn wf(self) -> bool {
        match self {
            PayloadView::Form(fields) => names_unique(fields),
            _ => true,
        }
    }
}

impl View for Payload {
    type V = PayloadView;

    open spec fn view(&self) -> PayloadView {
        match self {
            Payload::Empty => PayloadView::Empty,
            Payload::Json(value) => PayloadView::Json(*value),
            Payload::Form(fields) => PayloadView::Form(pairs_view(fields@)),
        }
    }
}

/// A request that passed the checks and can be handed to the transport.
#[derive(Debug)]
pub struct PreparedRequest {
    pub name: String,
    pub url: String,
    pub method_text: String,
    pub verb: HttpMethod,
    pub headers: Option<Vec<(String, String)>>,
    pub params: Option<Vec<(String, String)>>,
    pub payload: Payload,
}

/// A `PreparedRequest` as plain values.
pub struct PreparedView {
    pub name: Seq<char>,
    pub url: Seq<char>,
    pub method_text: Seq<char>,
    pub verb: HttpMethod,
    pub headers: Option<Seq<(Seq<char>, Seq<char>)>>,
    pub params: Option<Seq<(Seq<char>, Seq<char>)>>,
    pub payload: PayloadView,
}

impl PreparedView {
    /// The headers, the parameters and the form fields are each keyed
    /// by name.
    pub open spec fn wf(self) -> bool {
        &&& opt_names_unique(self.headers)
        &&& opt_names_unique(self.params)
        &&& self.payload.wf()
    }
}

impl View for PreparedRequest {
    type V = PreparedView;

    open spec fn view(&self) -> PreparedView {
        PreparedView {
            name: self.name@,
            url: self.url@,
            method_text: self.method_text@,
            verb: self.verb,
            headers: opt_pairs_view(self.headers),
            params: opt_pairs_view(self.params),
            payload: self.payload@,
        }
    }
}

/// The label under which a request is reported.
pub open spec fn display_name(name: Option<Seq<char>>) -> Seq<char> {
    match name {
        Some(n) => n,
        None => "Unnamed"@,
    }
}

/// The error text for a method that is none of the five verbs.
pub open spec fn unsupported_method_text(method: Seq<char>) -> Seq<char> {
    "Unsupported method: "@ + method
}

/// The error text for a request that has both a body and a form.
pub open spec fn body_form_conflict_text() -> Seq<char> {
    "Cannot use 'body' and 'form' fields simultaneously."@
}

/// The payload of a request that does not have both a body and a form.
pub open spec fn payload_of(
    body: Option<serde_json::Value>,
    form: Option<Seq<(Seq<char>, Seq<char>)>>,
) -> PayloadView {
    match body {
        Some(value) => PayloadView::Json(value),
        None => match form {
            Some(fields) => PayloadView::Form(fields),
            None => PayloadView::Empty,
        },
    }
}

/// What becomes of a request description: it is turned down for an
/// unknown method, then for having both a body and a form; otherwise it
/// is prepared with its valid headers, its parameters and its payload.
pub open spec fn prepared(spec: SpecView) -> Result<PreparedView, ResultView> {
    match method_named(uppercase_of(spec.method)) {
        None => Err(
            rejected_view(
                display_name(spec.name),
                spec.url,
                spec.method,
                unsupported_method_text(spec.method),
            ),
        ),
        Some(verb) => if spec.body is Some && spec.form is Some {
            Err(
                rejected_view(
                    display_name(spec.name),
                    spec.url,
                    spec.method,
                    body_form_conflict_text(),
                ),
            )
        } else {
            Ok(
                PreparedView {
                    name: display_name(spec.name),
                    url: spec.url,
                    method_text: spec.method,
                    verb,
                    headers: match spec.headers {
                        Some(headers) => Some(kept_headers(headers)),
                        None => None,
                    },
                    params: spec.params,
                    payload: payload_of(spec.body, spec.form),
                },
            )
        },
    }
}

/// The views of what `prepare_request` hands back.
pub open spec fn prepared_view(outcome: Result<PreparedRequest, RequestResult>) -> Result<
    PreparedView,
    ResultView,
> {
    match outcome {
        Ok(request) => Ok(request@),
        Err(result) => Err(result@),
    }
}

/// Picks the label of a request.
pub fn name_or_default(name: Option<String>) -> (label: String)
    ensures
        label@ == display_name(opt_text_view(name)),
{
    match name {
        Some(n) => n,
        None => String::from_str("Unnamed"),
    }
}

/// Checks one request description. An unknown method or a body together
/// with a form gives the finished result of the request, with the error
/// in it; otherwise the request comes back ready to be sent.
pub fn prepare_request(spec: RequestSpec) -> (outcome: Result<PreparedRequest, RequestResult>)
    ensures
        prepared_view(outcome) == prepared(spec@),
        outcome matches Err(result) ==> result@.wf(),
        spec@.wf() ==> (outcome matches Ok(request) ==> request@.wf()),
{
    proof {
        if spec@.wf() {
            lemma_prepared_keeps_names_unique(spec@);
        }
    }
    let RequestSpec { name, url, method, headers, params, body, form } = spec;
    let label = name_or_default(name);
    let verb = match resolve_method(method.as_str()) {
        Some(verb) => verb,
        None => {
            let error = concat_text("Unsupported method: ", method.as_str());
            return Err(RequestResult::rejected(label, url, method, error));
        },
    };
    let headers = match headers {
        Some(list) => Some(keep_valid_headers(&list)),
        None => None,
    };
    let payload = match body {
        Some(value) => {
            if form.is_some() {
                let error = String::from_str("Cannot use 'body' and 'form' fields simultaneously.");
                return Err(RequestResult::rejected(label, url, method, error));
            }
            Payload::Json(value)
        },
        None => match form {
            Some(fields) => Payload::Form(fields),
            None => Payload::Empty,
        },
    };
    Ok(PreparedRequest { name: label, url, method_text: method, verb, headers, params, payload })
}

/// A request whose method is none of the five verbs, whatever its case,
/// is turned down: no success, no status code, and an error that begins
/// with "Unsupported method:" and names the method as it was written.
pub proof fn lemma_unsupported_method_is_rejected(spec: SpecView)
    requires
        method_named(uppercase_of(spec.method)) is None,
    ensures
        prepared(spec) matches Err(result) && {
            &&& !result.success
            &&& result.status_code is None
            &&& result.response_time_ns == 0
            &&& result.error == Some("Unsupported method: "@ + spec.method)
            &&& "Unsupported method:"@.is_prefix_of(result.error->0)
        },
{
    reveal_strlit("Unsupported method: ");
    reveal_strlit("Unsupported method:");
}

/// A request with one of the five verbs that has both a body and a form
/// is turned down with the error that says so.
pub proof fn lemma_body_with_form_is_rejected(spec: SpecView)
    requires
        method_named(uppercase_of(spec.method)) is Some,
        spec.body is Some,
        spec.form is Some,
    ensures
        prepared(spec) matches Err(result) && {
            &&& !result.success
            &&& result.status_code is None
            &&& result.response_time_ns == 0
            &&& result.error == Some("Cannot use 'body' and 'form' fields simultaneously."@)
        },
{
}

/// A request description whose headers, parameters and form fields are
/// keyed by name is prepared into a request of which the same holds.
pub proof fn lemma_prepared_keeps_names_unique(spec: SpecView)
    requires
        spec.wf(),
    ensures
        prepared(spec) matches Ok(request) ==> request.wf(),
{
    if let Some(headers) = spec.headers {
        lemma_kept_headers_keep_names_unique(headers);
    }
}

/// Whatever a request description holds, it is either prepared or turned
/// down with a well-formed result that echoes its name, URL and method.
pub proof fn lemma_prepared_echoes_request(spec: SpecView)
    ensures
        match prepared(spec) {
            Ok(request) => {
                &&& request.name == display_name(spec.name)
                &&& request.url == spec.url
                &&& request.method_text == spec.method
                &&& !(spec.body is Some && spec.form is Some)
            },
            Err(result) => {
                &&& result.wf()
                &&& result.name == display_name(spec.name)
                &&& result.url == spec.url
                &&& result.method == spec.method
            },
        },
{
}

} // verus!
