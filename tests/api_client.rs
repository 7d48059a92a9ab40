#![allow(non_snake_case)]

use api_client_utils::classify::{classify, expect_err_resp, expect_ok, BodyShape, DecodedBody};
use api_client_utils::context::RespContext;
use api_client_utils::error::{ClientErr, JsonClientResult, ResultExt};
use api_client_utils::format::JsonFormat;
use api_client_utils::status::StatusCode;
use serde_json::Value;

#[derive(Debug, Clone, PartialEq)]
pub struct CustomApiError {
    pub message: String,
}

impl CustomApiError {
    fn from_json(value: Value) -> anyhow::Result<Self> {
        match value.get("message").and_then(|m| m.as_str()) {
            Some(message) => Ok(CustomApiError { message: message.to_string() }),
            None => Err(anyhow::Error::msg("missing field `message`")),
        }
    }

    fn decode(text: &str) -> Result<Self, serde_json::Error> {
        let value: Value = serde_json::from_str(text)?;
        match value.get("message").and_then(|m| m.as_str()) {
            Some(message) => Ok(CustomApiError { message: message.to_string() }),
            None => Err(<serde_json::Error as serde::de::Error>::missing_field("message")),
        }
    }
}

impl std::fmt::Display for CustomApiError {
    fn fmt(&self, f: &mut std::fmt::Formatter<'_>) -> std::fmt::Result {
        f.write_str("Pet API err response: ")?;
        f.write_str(&self.message)
    }
}

pub type ClientResult<T> = JsonClientResult<T, CustomApiError>;

fn status(code: u16) -> StatusCode {
    StatusCode::from_u16(code).unwrap()
}

fn context(code: u16, body: &str) -> RespContext {
    RespContext {
        method: "GET".to_string(),
        url: "http://hello.com".to_string(),
        got_status: status(code),
        response_text: body.to_string(),
    }
}

#[test]
fn test_expect_err() -> anyhow::Result<()> {
    const ERR_MSG: &str = "some error message";
    let err_context = RespContext {
        method: "GET".to_string(),
        url: "http://hello.com".to_string(),
        got_status: status(400),
        response_text: format!("{{\"message\":\"{ERR_MSG}\"}}"),
    };

    // with inner err
    let inner_err = ClientErr::<CustomApiError, JsonFormat>::ErrorResponse {
        context: err_context.clone(),
        err_body: CustomApiError::from_json(err_context.body_from_json()?)?,
    };
    let parsed_err = inner_err.try_into_err_resp(status(400)).unwrap();
    assert_eq!(parsed_err.message, ERR_MSG);

    // with err Result
    let err_result = ClientResult::<CustomApiError>::Err(ClientErr::<CustomApiError, _>::ErrorResponse {
        context: err_context.clone(),
        err_body: CustomApiError::from_json(err_context.body_from_json()?)?,
    });
    let parsed_err = err_result.try_into_err_resp(status(400)).unwrap();
    assert_eq!(parsed_err.message, ERR_MSG);

    Ok(())
}

#[test]
fn test_expect_err__wrong_status() -> anyhow::Result<()> {
    const ERR_MSG: &str = "some error message";
    let err_context = RespContext {
        method: "GET".to_string(),
        url: "http://hello.com".to_string(),
        got_status: status(400),
        response_text: format!("{{\"message\":\"{ERR_MSG}\"}}"),
    };

    // with inner err
    let inner_err = ClientErr::<CustomApiError, JsonFormat>::ErrorResponse {
        context: err_context.clone(),
        err_body: CustomApiError::from_json(err_context.body_from_json()?)?,
    };

    let should_err = inner_err.try_into_err_resp(status(404));
    let err = should_err.expect_err("should be error with wrong status");
    assert!(err
        .to_string()
        .contains("Expected status: 404 Not Found, got: 400 Bad Request"));

    Ok(())
}

fn classify_json<T, E>(
    ctx: RespContext,
    decode_ok: fn(&str) -> Result<T, serde_json::Error>,
    decode_err: fn(&str) -> Result<E, serde_json::Error>,
) -> Result<api_client_utils::context::OkRespWithContext<T>, ClientErr<E, JsonFormat>> {
    let decoded = match ctx.body_shape() {
        BodyShape::Success => DecodedBody::Success(decode_ok(&ctx.response_text)),
        BodyShape::Error => DecodedBody::Error(decode_err(&ctx.response_text)),
    };
    classify::<T, E, JsonFormat>(ctx, decoded)
}

fn value_from(text: &str) -> Result<Value, serde_json::Error> {
    serde_json::from_str(text)
}

#[test]
fn available_pets_classify_as_ok() {
    let ctx = context(200, "{\"status\":\"available\"}");
    assert_eq!(ctx.body_shape(), BodyShape::Success);
    let outcome = classify_json(ctx, value_from, CustomApiError::decode);
    let ok = outcome.unwrap();
    assert_eq!(ok.ok_body, serde_json::from_str::<Value>("{\"status\":\"available\"}").unwrap());
    assert_eq!(ok.ok_body["status"], "available");
    assert_eq!(ok.context.got_status.as_u16(), 200);
    assert_eq!(ok.context.response_text, "{\"status\":\"available\"}");
}

#[test]
fn missing_endpoint_narrows_by_status() {
    let body = "{\"message\":\"not found\"}";
    let ctx = context(404, body);
    assert_eq!(ctx.body_shape(), BodyShape::Error);

    let outcome = classify_json(ctx.clone(), value_from, CustomApiError::decode);
    match &outcome {
        Err(ClientErr::ErrorResponse { err_body, context }) => {
            assert_eq!(err_body.message, "not found");
            assert_eq!(context.got_status.as_u16(), 404);
        }
        other => panic!("expected an error response, got {other:?}"),
    }
    let narrowed = expect_err_resp(outcome, status(404)).unwrap();
    assert_eq!(narrowed, CustomApiError { message: "not found".to_string() });

    let outcome = classify_json(ctx, value_from, CustomApiError::decode);
    match expect_err_resp(outcome, status(400)) {
        Err(ClientErr::ExpectedStatus { context, expected_status }) => {
            assert_eq!(expected_status.as_u16(), 400);
            assert_eq!(context.got_status.as_u16(), 404);
            assert_eq!(context.response_text, body);
        }
        other => panic!("expected a status mismatch, got {other:?}"),
    }
}

#[test]
fn undecodable_error_body_keeps_raw_text() {
    let body = "<html>bad request</html>";
    let ctx = context(400, body);
    let outcome = classify_json(ctx, value_from, CustomApiError::decode);
    match &outcome {
        Err(ClientErr::DeserializeError { context, .. }) => {
            assert_eq!(context.response_text, body);
            assert_eq!(context.got_status.as_u16(), 400);
        }
        other => panic!("expected a decode failure, got {other:?}"),
    }
    let err = outcome.unwrap_err();
    assert_eq!(err.response_text(), Some(body));
}

#[test]
fn error_body_missing_field_is_decode_failure() {
    let ctx = context(422, "{\"error\":\"nope\"}");
    let outcome = classify_json(ctx, value_from, CustomApiError::decode);
    assert!(matches!(outcome, Err(ClientErr::DeserializeError { .. })));
}

#[test]
fn undecodable_success_body_is_reported() {
    let ctx = context(201, "not json at all");
    let outcome = classify_json(ctx, value_from, CustomApiError::decode);
    match outcome {
        Err(ClientErr::DeserializeError { context, .. }) => {
            assert_eq!(context.response_text, "not json at all");
            assert_eq!(context.got_status.as_u16(), 201);
        }
        other => panic!("expected a decode failure, got {other:?}"),
    }
}

#[test]
fn success_status_never_tries_error_shape() {
    // The body would decode as the error shape, but a 2xx is decoded as the success shape only.
    let ctx = context(200, "{\"message\":\"hello\"}");
    let outcome = classify_json(ctx, |_| -> Result<u8, serde_json::Error> { serde_json::from_str("\"x\"") }, CustomApiError::decode);
    assert!(matches!(outcome, Err(ClientErr::DeserializeError { .. })));
}

#[test]
fn expect_ok_keeps_body_or_error() {
    let ok = classify_json(context(200, "[1,2]"), value_from, CustomApiError::decode);
    assert_eq!(expect_ok(ok).unwrap(), serde_json::from_str::<Value>("[1,2]").unwrap());
    let err = classify_json(context(500, "{\"message\":\"boom\"}"), value_from, CustomApiError::decode);
    match expect_ok(err) {
        Err(ClientErr::ErrorResponse { err_body, .. }) => assert_eq!(err_body.message, "boom"),
        other => panic!("expected an error response, got {other:?}"),
    }
}

#[test]
fn expecting_error_on_success_keeps_context() {
    let ok = classify_json(context(200, "{}"), value_from, CustomApiError::decode);
    match expect_err_resp(ok, status(404)) {
        Err(ClientErr::ExpectedErrorResponse { context: Some(ctx) }) => {
            assert_eq!(ctx.got_status.as_u16(), 200);
            assert_eq!(ctx.response_text, "{}");
        }
        other => panic!("expected ExpectedErrorResponse, got {other:?}"),
    }
    let ok_result: ClientResult<u8> = Ok(7);
    match ok_result.try_into_err_resp(status(404)) {
        Err(ClientErr::ExpectedErrorResponse { context: None }) => {}
        other => panic!("expected ExpectedErrorResponse without context, got {other:?}"),
    }
}

#[test]
fn narrowing_twice_gives_the_same_error() {
    let err = ClientErr::<CustomApiError, JsonFormat>::ErrorResponse {
        context: context(400, "{\"message\":\"x\"}"),
        err_body: CustomApiError { message: "x".to_string() },
    };
    let once = err.try_into_err_resp(status(409)).unwrap_err();
    let once_text = once.to_string();
    let twice = once.try_into_err_resp(status(409)).unwrap_err();
    assert_eq!(twice.to_string(), once_text);
    match twice {
        ClientErr::ExpectedStatus { context, expected_status } => {
            assert_eq!(expected_status.as_u16(), 409);
            assert_eq!(context.got_status.as_u16(), 400);
        }
        other => panic!("expected a status mismatch, got {other:?}"),
    }
}

#[test]
fn mismatch_wins_over_decode_failure() {
    let decode_error = serde_json::from_str::<Value>("{").unwrap_err();
    let err = ClientErr::<CustomApiError, JsonFormat>::DeserializeError {
        context: context(502, "{"),
        deserialize_error: decode_error,
    };
    match err.try_into_err_resp(status(502)) {
        Err(ClientErr::DeserializeError { .. }) => {}
        other => panic!("expected the decode failure to pass through, got {other:?}"),
    }
    let decode_error = serde_json::from_str::<Value>("{").unwrap_err();
    let err = ClientErr::<CustomApiError, JsonFormat>::DeserializeError {
        context: context(502, "{"),
        deserialize_error: decode_error,
    };
    assert!(matches!(err.try_into_err_resp(status(503)), Err(ClientErr::ExpectedStatus { .. })));
}

fn transport_error() -> reqwest::Error {
    reqwest::Client::new().get("not a url").build().unwrap_err()
}

#[test]
fn transport_failures_have_no_context() {
    let errors = vec![
        ClientErr::<CustomApiError, JsonFormat>::BuildRequest(transport_error()),
        ClientErr::<CustomApiError, JsonFormat>::ExecuteRequest(transport_error()),
        ClientErr::<CustomApiError, JsonFormat>::ReadRespBodyText(transport_error()),
    ];
    let prefixes = [
        "Failed building request: ",
        "Failed executing request: ",
        "Failed reading response text: ",
    ];
    for (err, prefix) in errors.into_iter().zip(prefixes) {
        assert!(err.context().is_none());
        assert!(err.response_text().is_none());
        assert!(err.to_string().starts_with(prefix));
        let kept = err.try_into_err_resp(status(404)).unwrap_err();
        assert!(kept.context().is_none());
        assert!(kept.to_string().starts_with(prefix));
    }
}

#[test]
fn report_has_request_kind_and_body() {
    let err = ClientErr::<CustomApiError, JsonFormat>::ErrorResponse {
        context: RespContext {
            method: "POST".to_string(),
            url: "https://api.example.com/pets".to_string(),
            got_status: status(409),
            response_text: "{\"message\":\"taken\"}".to_string(),
        },
        err_body: CustomApiError { message: "taken".to_string() },
    };
    assert_eq!(
        err.to_string(),
        "POST https://api.example.com/pets\nGot API error response: Pet API err response: taken\n{\"message\":\"taken\"}\n"
    );
    assert_eq!(
        err.render("detail"),
        "POST https://api.example.com/pets\nGot API error response: detail\n{\"message\":\"taken\"}\n"
    );
    let expected = ClientErr::<CustomApiError, JsonFormat>::ExpectedErrorResponse { context: None };
    assert_eq!(expected.to_string(), "Expected error response, got success\n");
}

#[test]
fn decode_failure_report_names_body() {
    let decode_error = serde_json::from_str::<Value>("nope").unwrap_err();
    let detail = decode_error.to_string();
    let err = ClientErr::<CustomApiError, JsonFormat>::DeserializeError {
        context: context(200, "nope"),
        deserialize_error: decode_error,
    };
    assert_eq!(
        err.to_string(),
        format!("GET http://hello.com\nFailed deserializing JSON response: {detail}, response_body: nope\nnope\n")
    );
}

#[test]
fn expect_status_compares_codes() {
    let ctx = context(404, "");
    assert!(ctx.expect_status::<CustomApiError, JsonFormat>(status(404)).is_ok());
    match ctx.expect_status::<CustomApiError, JsonFormat>(status(200)) {
        Err(ClientErr::ExpectedStatus { context, expected_status }) => {
            assert_eq!(expected_status.as_u16(), 200);
            assert_eq!(context.got_status.as_u16(), 404);
            assert_eq!(context.url, "http://hello.com");
        }
        other => panic!("expected a status mismatch, got {other:?}"),
    }
}

#[test]
fn body_from_json_parses_or_fails() {
    let ctx = context(200, "{\"a\": [1, 2]}");
    let value = ctx.body_from_json().unwrap();
    assert_eq!(value["a"][1], 2);
    assert!(context(200, "{\"a\": ").body_from_json().is_err());
}
