//! The request facade: endpoint paths under a base URL, and requests built
//! with the defaults of the API's format.

use vstd::prelude::*;

use reqwest::RequestBuilder;

use crate::format::{ApiFormat, JsonFormat};
use crate::request::{build_request, built_from, lemma_built_from, HttpMethod, RequestPlan, RequestPlanView};
use crate::text::{strip_leading, strip_trailing, trim, trim_end_matches, trim_start_matches, trimmed};

verus! {

/// The timeout that every request gets, in seconds.
pub const DEFAULT_TIMEOUT_SECS: u64 = 5;

/// The URL of an endpoint: the trimmed base without trailing slashes, one
/// slash, and the trimmed path without leading slashes.
pub open spec fn joined_url(base: Seq<char>, path: Seq<char>) -> Seq<char> {
    strip_trailing(trimmed(base), '/') + seq!['/'] + strip_leading(trimmed(path), '/')
}

/// Joins a base URL and an endpoint path with exactly one slash between them.
pub fn join_url(base: &str, path: &str) -> (r: String)
    ensures
        r@ == joined_url(base@, path@),
{
    let origin = trim_end_matches(trim(base), '/');
    let rest = trim_start_matches(trim(path), '/');
    let mut out = String::from_str(origin);
    out.append("/");
    out.append(rest);
    proof {
        reveal_strlit("/");
    }
    assert(out@ =~= joined_url(base@, path@));
    out
}

/// The plan of a request to an endpoint with the defaults of a format: the
/// timeout, then the headers (`Content-Type` for a POST, then `Accept`).
pub open spec fn planned_request(
    method: HttpMethod,
    url: Seq<char>,
    media_type: Seq<char>,
) -> RequestPlanView {
    let start = RequestPlanView { method, url, timeout_secs: None, headers: Seq::empty() };
    let with_body_type = if method == HttpMethod::Post {
        start.with_header("Content-Type"@, media_type)
    } else {
        start
    };
    with_body_type.with_timeout(DEFAULT_TIMEOUT_SECS).with_header("Accept"@, media_type)
}

/// A client of an HTTP API whose bodies are in `Format`.
pub trait ApiClient<Format: ApiFormat> {
    /// The URL that endpoint paths are joined to.
    fn base_url(&self) -> &str;

    /// The HTTP client that sends the requests.
    fn http_client(&self) -> &reqwest::Client;

    /// The full URL of an endpoint: the base URL that `base_url` gives,
    /// joined to the path.
    fn path(&self, url_path: &str) -> (r: String)
        ensures
            exists|base: &str|
                call_ensures(Self::base_url, (self,), base) && r@ == joined_url(base@, url_path@),
    {
        join_url(self.base_url(), url_path)
    }

    /// Applies the defaults: the timeout, then the `Accept` header of the
    /// format.
    fn default_params(&self, plan: RequestPlan) -> (r: RequestPlan)
        ensures
            r@ == plan@.with_timeout(DEFAULT_TIMEOUT_SECS).with_header(
                "Accept"@,
                Format::media_type_spec(),
            ),
    {
        Format::with_accept_header(plan.with_timeout(DEFAULT_TIMEOUT_SECS))
    }

    /// The plan of a GET request to an endpoint, with the defaults applied.
    fn get_plan(&self, url_path: &str) -> (r: RequestPlan)
        ensures
            exists|base: &str|
                call_ensures(Self::base_url, (self,), base) && r@ == planned_request(
                    HttpMethod::Get,
                    joined_url(base@, url_path@),
                    Format::media_type_spec(),
                ),
    {
        self.default_params(RequestPlan::new(HttpMethod::Get, self.path(url_path)))
    }

    /// The plan of a POST request to an endpoint: the `Content-Type` header of
    /// the format, then the defaults.
    fn post_plan(&self, url_path: &str) -> (r: RequestPlan)
        ensures
            exists|base: &str|
                call_ensures(Self::base_url, (self,), base) && r@ == planned_request(
                    HttpMethod::Post,
                    joined_url(base@, url_path@),
                    Format::media_type_spec(),
                ),
    {
        self.default_params(
            Format::with_content_type_header(RequestPlan::new(HttpMethod::Post, self.path(url_path))),
        )
    }

    /// A GET request to an endpoint: what `build_request` gives for the
    /// client and for the plan that `get_plan` makes.
    fn get(&self, url_path: &str) -> (r: RequestBuilder)
        ensures
            exists|base: &str, client: &reqwest::Client, plan: RequestPlan|
                call_ensures(Self::base_url, (self,), base) && call_ensures(
                    Self::http_client,
                    (self,),
                    client,
                ) && plan@ == planned_request(
                    HttpMethod::Get,
                    joined_url(base@, url_path@),
                    Format::media_type_spec(),
                ) && built_from(client, plan, r),
    {
        let client = self.http_client();
        let plan = self.get_plan(url_path);
        let ghost planned = plan;
        let r = build_request(client, plan);
        proof {
            lemma_built_from(client, planned, r);
        }
        r
    }

    /// A POST request to an endpoint: what `build_request` gives for the
    /// client and for the plan that `post_plan` makes.
    fn post(&self, url_path: &str) -> (r: RequestBuilder)
        ensures
            exists|base: &str, client: &reqwest::Client, plan: RequestPlan|
                call_ensures(Self::base_url, (self,), base) && call_ensures(
                    Self::http_client,
                    (self,),
                    client,
                ) && plan@ == planned_request(
                    HttpMethod::Post,
                    joined_url(base@, url_path@),
                    Format::media_type_spec(),
                ) && built_from(client, plan, r),
    {
        let client = self.http_client();
        let plan = self.post_plan(url_path);
        let ghost planned = plan;
        let r = build_request(client, plan);
        proof {
            lemma_built_from(client, planned, r);
        }
        r
    }
}

/// A client of a JSON API; every such client is an `ApiClient<JsonFormat>`.
pub trait JsonApiClient {
    fn base_url(&self) -> &str;

    fn http_client(&self) -> &reqwest::Client;
}

impl<T: JsonApiClient> ApiClient<JsonFormat> for T {
    fn base_url(&self) -> &str {
        <Self as JsonApiClient>::base_url(self)
    }

    fn http_client(&self) -> &reqwest::Client {
        <Self as JsonApiClient>::http_client(self)
    }
}

} // verus!
