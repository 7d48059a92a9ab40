//! What a request is made of before it goes to the HTTP client: method, URL,
//! timeout and headers.

use vstd::prelude::*;

use reqwest::RequestBuilder;

verus! {

#[verifier::external_type_specification]
#[verifier::external_body]
pub struct ExRequestBuilder(reqwest::RequestBuilder);

#[verifier::external_type_specification]
#[verifier::external_body]
pub struct ExClient(reqwest::Client);

/// The HTTP methods that the client helpers send.
#[derive(Clone, Copy, Debug, PartialEq, Eq, Structural)]
pub enum HttpMethod {
    Get,
    Post,
}

/// A request as planned: method, URL, total timeout in seconds (if any), and
/// headers in the order they are added.
#[derive(Debug)]
pub struct RequestPlan {
    pub method: HttpMethod,
    pub url: String,
    pub timeout_secs: Option<u64>,
    pub headers: Vec<(String, String)>,
}

/// The contents of a `RequestPlan`.
pub struct RequestPlanView {
    pub method: HttpMethod,
    pub url: Seq<char>,
    pub timeout_secs: Option<u64>,
    pub headers: Seq<(Seq<char>, Seq<char>)>,
}

impl RequestPlanView {
    /// The plan with one more header at the end.
    pub open spec fn with_header(self, name: Seq<char>, value: Seq<char>) -> RequestPlanView {
        RequestPlanView { headers: self.headers.push((name, value)), ..self }
    }

    /// The plan with this timeout.
    pub open spec fn with_timeout(self, secs: u64) -> RequestPlanView {
        RequestPlanView { timeout_secs: Some(secs), ..self }
    }
}

/// The view of a header.
pub open spec fn header_view(h: (String, String)) -> (Seq<char>, Seq<char>) {
    (h.0@, h.1@)
}

impl View for RequestPlan {
    type V = RequestPlanView;

    open spec fn view(&self) -> RequestPlanView {
        RequestPlanView {
            method: self.method,
            url: self.url@,
            timeout_secs: self.timeout_secs,
            headers: self.headers@.map_values(|h: (String, String)| header_view(h)),
        }
    }
}

impl RequestPlan {
    /// A request with this method to this URL, without timeout or headers.
    pub fn new(method: HttpMethod, url: String) -> (r: RequestPlan)
        ensures
            r@ == (RequestPlanView {
                method,
                url: url@,
                timeout_secs: None,
                headers: Seq::empty(),
            }),
    {
        let r = RequestPlan { method, url, timeout_secs: None, headers: Vec::new() };
        assert(r@.headers =~= Seq::empty());
        r
    }

    /// Adds a header after those already planned.
    pub fn with_header(self, name: &str, value: &str) -> (r: RequestPlan)
        ensures
            r@ == self@.with_header(name@, value@),
    {
        let mut headers = self.headers;
        headers.push((String::from_str(name), String::from_str(value)));
        let r = RequestPlan { method: self.method, url: self.url, timeout_secs: self.timeout_secs, headers };
        assert(r@.headers =~= self@.headers.push((name@, value@)));
        r
    }

    /// Sets the total timeout.
    pub fn with_timeout(self, secs: u64) -> (r: RequestPlan)
        ensures
            r@ == self@.with_timeout(secs),
    {
        RequestPlan { method: self.method, url: self.url, timeout_secs: Some(secs), headers: self.headers }
    }
}

/// Whether `r` is the builder that `build_request` returned for this client
/// and this plan.
pub closed spec fn built_from(client: &reqwest::Client, plan: RequestPlan, r: RequestBuilder) -> bool {
    call_ensures(build_request, (client, plan), r)
}

pub(crate) proof fn lemma_built_from(client: &reqwest::Client, plan: RequestPlan, r: RequestBuilder)
    requires
        call_ensures(build_request, (client, plan), r),
    ensures
        built_from(client, plan, r),
{
}

/// Relies on `reqwest::Client::request`, `RequestBuilder::timeout` and
/// `RequestBuilder::header`: the builder holds the planned method, URL,
/// timeout and headers.
#[verifier::external_body]
pub(crate) fn build_request(client: &reqwest::Client, plan: RequestPlan) -> RequestBuilder {
    let method = match plan.method {
        HttpMethod::Get => reqwest::Method::GET,
        HttpMethod::Post => reqwest::Method::POST,
    };
    let mut builder = client.request(method, plan.url);
    if let Some(secs) = plan.timeout_secs {
        builder = builder.timeout(std::time::Duration::from_secs(secs));
    }
    for (name, value) in plan.headers {
        builder = builder.header(name, value);
    }
    builder
}

} // verus!
