use api_client_utils::client::{join_url, ApiClient, JsonApiClient};
use api_client_utils::format::{ApiFormat, JsonFormat, XmlFormat};
use api_client_utils::request::{HttpMethod, RequestPlan};
use api_client_utils::status::StatusCode;
use api_client_utils::test_error::TestResult;

struct ExampleApi {
    http_client: reqwest::Client,
}

impl JsonApiClient for ExampleApi {
    fn base_url(&self) -> &str {
        " https://petstore.swagger.io/v2/ "
    }

    fn http_client(&self) -> &reqwest::Client {
        &self.http_client
    }
}

struct XmlApi {
    http_client: reqwest::Client,
}

impl ApiClient<XmlFormat> for XmlApi {
    fn base_url(&self) -> &str {
        "http://xml.example.com//"
    }

    fn http_client(&self) -> &reqwest::Client {
        &self.http_client
    }
}

#[test]
fn join_url_uses_one_slash() {
    assert_eq!(join_url("https://a.com", "b"), "https://a.com/b");
    assert_eq!(join_url("https://a.com///", "///b/c"), "https://a.com/b/c");
    assert_eq!(join_url("  https://a.com/ \n", " \t/b "), "https://a.com/b");
    assert_eq!(join_url("https://a.com", ""), "https://a.com/");
}

#[test]
fn get_applies_defaults() -> TestResult {
    let api = ExampleApi { http_client: reqwest::Client::new() };
    assert_eq!(api.path("/pet/findByStatus"), "https://petstore.swagger.io/v2/pet/findByStatus");
    let request = api.get("/pet/findByStatus").build()?;
    assert_eq!(request.method(), reqwest::Method::GET);
    assert_eq!(request.url().as_str(), "https://petstore.swagger.io/v2/pet/findByStatus");
    assert_eq!(request.headers()["Accept"], "application/json");
    assert!(request.headers().get("Content-Type").is_none());
    assert_eq!(request.timeout(), Some(&std::time::Duration::from_secs(5)));
    Ok(())
}

#[test]
fn post_announces_its_format() -> TestResult {
    let api = XmlApi { http_client: reqwest::Client::new() };
    let request = api.post("orders").build()?;
    assert_eq!(request.method(), reqwest::Method::POST);
    assert_eq!(request.url().as_str(), "http://xml.example.com/orders");
    assert_eq!(request.headers()["Accept"], "application/xml");
    assert_eq!(request.headers()["Content-Type"], "application/xml");
    Ok(())
}

#[test]
fn formats_name_their_media_types() {
    assert_eq!(JsonFormat::media_type(), "application/json");
    assert_eq!(XmlFormat::media_type(), "application/xml");
}

#[test]
fn status_codes() {
    assert!(StatusCode::from_u16(99).is_none());
    assert!(StatusCode::from_u16(1000).is_none());
    let ok = StatusCode::from_u16(200).unwrap();
    assert!(ok.is_success());
    assert_eq!(ok.as_u16(), 200);
    assert!(StatusCode::from_u16(299).unwrap().is_success());
    assert!(!StatusCode::from_u16(300).unwrap().is_success());
    assert!(!StatusCode::from_u16(199).unwrap().is_success());
    assert_eq!(StatusCode::from_u16(404).unwrap().canonical_reason(), Some("Not Found"));
    assert_eq!(StatusCode::from_u16(404).unwrap().to_string(), "404 Not Found");
    assert_eq!(StatusCode::from_u16(400).unwrap().to_string(), "400 Bad Request");
    assert_eq!(StatusCode::from_u16(599).unwrap().canonical_reason(), None);
    assert_eq!(StatusCode::from_u16(599).unwrap().to_string(), "599 <unknown status code>");
    assert!(StatusCode::from_u16(404) == StatusCode::from_u16(404));
}

#[test]
fn join_url_trims_unicode_white_space() {
    let base = "\u{3000}\u{A0}https://a.com/\u{2009}\t";
    let path = "\u{85}/b\u{202F}";
    assert_eq!(join_url(base, path), "https://a.com/b");
    assert_eq!(
        join_url(base, path),
        format!(
            "{}/{}",
            base.trim().trim_end_matches('/'),
            path.trim().trim_start_matches('/')
        )
    );
}

fn header(name: &str, value: &str) -> (String, String) {
    (name.to_string(), value.to_string())
}

#[test]
fn plans_hold_method_url_timeout_and_headers() {
    let api = ExampleApi { http_client: reqwest::Client::new() };
    let plan = api.get_plan("/pet/findByStatus");
    assert_eq!(plan.method, HttpMethod::Get);
    assert_eq!(plan.url, "https://petstore.swagger.io/v2/pet/findByStatus");
    assert_eq!(plan.timeout_secs, Some(5));
    assert_eq!(plan.headers, vec![header("Accept", "application/json")]);

    let xml = XmlApi { http_client: reqwest::Client::new() };
    let plan = xml.post_plan("/orders/");
    assert_eq!(plan.method, HttpMethod::Post);
    assert_eq!(plan.url, "http://xml.example.com/orders/");
    assert_eq!(plan.timeout_secs, Some(5));
    assert_eq!(
        plan.headers,
        vec![header("Content-Type", "application/xml"), header("Accept", "application/xml")]
    );
}

#[test]
fn format_headers_are_added_in_order() {
    let plan = RequestPlan::new(HttpMethod::Post, "http://u".to_string());
    assert_eq!(plan.timeout_secs, None);
    assert!(plan.headers.is_empty());
    let plan = JsonFormat::with_content_type_header(plan);
    let plan = XmlFormat::with_accept_header(plan);
    assert_eq!(
        plan.headers,
        vec![header("Content-Type", "application/json"), header("Accept", "application/xml")]
    );
    let api = ExampleApi { http_client: reqwest::Client::new() };
    let plan = api.default_params(RequestPlan::new(HttpMethod::Get, "http://v".to_string()));
    assert_eq!(plan.timeout_secs, Some(5));
    assert_eq!(plan.url, "http://v");
    assert_eq!(plan.headers, vec![header("Accept", "application/json")]);
}
