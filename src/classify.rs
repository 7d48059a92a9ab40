//! Classification of a response into a success body or a structured failure,
//! and the short-hands built on it.
//!
//! A response is decoded once, as the shape that its status names: the
//! success shape for a 2xx status, the error shape for any other. The caller
//! asks `RespContext::body_shape` which shape that is, decodes the body text
//! as that shape, and hands the result to `classify`.

use vstd::prelude::*;

use crate::context::{OkRespWithContext, RespContext};
use crate::error::{ApiResult, ClientErr};
use crate::format::SerialFormat;
use crate::status::{is_success_code, StatusCode};

verus! {

/// The shape that a response body is decoded as.
#[derive(Clone, Copy, Debug, PartialEq, Eq, Structural)]
pub enum BodyShape {
    /// The success shape, for a 2xx status.
    Success,
    /// The error shape, for any other status.
    Error,
}

/// The shape that a response with this status is decoded as.
pub open spec fn shape_for(status: StatusCode) -> BodyShape {
    if is_success_code(status@) {
        BodyShape::Success
    } else {
        BodyShape::Error
    }
}

/// The outcome of the one decode attempt made for a response.
#[derive(Debug)]
pub enum DecodedBody<T, ErrResp, E> {
    /// The body decoded, or failed to decode, as the success shape.
    Success(Result<T, E>),
    /// The body decoded, or failed to decode, as the error shape.
    Error(Result<ErrResp, E>),
}

impl<T, ErrResp, E> DecodedBody<T, ErrResp, E> {
    /// The shape that was attempted.
    pub open spec fn shape(&self) -> BodyShape {
        match self {
            DecodedBody::Success(_) => BodyShape::Success,
            DecodedBody::Error(_) => BodyShape::Error,
        }
    }
}

impl RespContext {
    /// The shape that this response's body is to be decoded as.
    pub fn body_shape(&self) -> (r: BodyShape)
        ensures
            r == shape_for(self.got_status),
    {
        if self.got_status.is_success() {
            BodyShape::Success
        } else {
            BodyShape::Error
        }
    }
}

/// The classification of a response from its context and its decoded body.
pub open spec fn classified<T, ErrResp, F: SerialFormat>(
    context: RespContext,
    decoded: DecodedBody<T, ErrResp, F::Error>,
) -> ApiResult<OkRespWithContext<T>, ErrResp, F> {
    match decoded {
        DecodedBody::Success(Ok(ok_body)) => Ok(OkRespWithContext { ok_body, context }),
        DecodedBody::Success(Err(deserialize_error)) => Err(
            ClientErr::DeserializeError { context, deserialize_error },
        ),
        DecodedBody::Error(Ok(err_body)) => Err(ClientErr::ErrorResponse { context, err_body }),
        DecodedBody::Error(Err(deserialize_error)) => Err(
            ClientErr::DeserializeError { context, deserialize_error },
        ),
    }
}

/// Classifies a response whose body was decoded as the shape that its status
/// names: a decoded success body is `Ok`; a decoded error body is
/// `ErrorResponse`; a failed decode is `DeserializeError`. Each keeps the
/// context.
pub fn classify<T, ErrResp, F: SerialFormat>(
    context: RespContext,
    decoded: DecodedBody<T, ErrResp, F::Error>,
) -> (r: ApiResult<OkRespWithContext<T>, ErrResp, F>)
    requires
        decoded.shape() == shape_for(context.got_status),
    ensures
        r == classified::<T, ErrResp, F>(context, decoded),
{
    match decoded {
        DecodedBody::Success(Ok(ok_body)) => Ok(OkRespWithContext { ok_body, context }),
        DecodedBody::Success(Err(deserialize_error)) => Err(
            ClientErr::DeserializeError { context, deserialize_error },
        ),
        DecodedBody::Error(Ok(err_body)) => Err(ClientErr::ErrorResponse { context, err_body }),
        DecodedBody::Error(Err(deserialize_error)) => Err(
            ClientErr::DeserializeError { context, deserialize_error },
        ),
    }
}

/// What `expect_ok` gives for a classified response.
pub open spec fn ok_body_of<T, ErrResp, F: SerialFormat>(
    outcome: ApiResult<OkRespWithContext<T>, ErrResp, F>,
) -> ApiResult<T, ErrResp, F> {
    match outcome {
        Ok(ok) => Ok(ok.ok_body),
        Err(err) => Err(err),
    }
}

/// What `expect_err_resp` gives for a classified response.
pub open spec fn err_body_of<T, ErrResp, F: SerialFormat>(
    outcome: ApiResult<OkRespWithContext<T>, ErrResp, F>,
    expect_status: StatusCode,
) -> ApiResult<ErrResp, ErrResp, F> {
    match outcome {
        Ok(ok) => Err(ClientErr::ExpectedErrorResponse { context: Some(ok.context) }),
        Err(err) => err.narrowed(expect_status),
    }
}

/// Keeps only the success body of a classified response; any failure is
/// passed on as it is.
pub fn expect_ok<T, ErrResp, F: SerialFormat>(
    outcome: ApiResult<OkRespWithContext<T>, ErrResp, F>,
) -> (r: ApiResult<T, ErrResp, F>)
    ensures
        r == ok_body_of(outcome),
{
    match outcome {
        Ok(ok) => Ok(ok.ok_body),
        Err(err) => Err(err),
    }
}

/// Expects a classified response to be a structured error with
/// `expect_status` and hands out its decoded error body. A success becomes
/// `ExpectedErrorResponse` with its context; a failure is narrowed.
pub fn expect_err_resp<T, ErrResp, F: SerialFormat>(
    outcome: ApiResult<OkRespWithContext<T>, ErrResp, F>,
    expect_status: StatusCode,
) -> (r: ApiResult<ErrResp, ErrResp, F>)
    ensures
        r == err_body_of(outcome, expect_status),
{
    match outcome {
        Ok(ok) => Err(ClientErr::ExpectedErrorResponse { context: Some(ok.context) }),
        Err(err) => err.try_into_err_resp(expect_status),
    }
}

/// A 2xx response whose body decodes as the success shape is classified as
/// `Ok`, with exactly that body and a context that keeps the observed status.
pub proof fn success_body_is_ok<T, ErrResp, F: SerialFormat>(context: RespContext, ok_body: T)
    requires
        is_success_code(context.got_status@),
    ensures
        DecodedBody::<T, ErrResp, F::Error>::Success(Ok(ok_body)).shape() == shape_for(
            context.got_status,
        ),
        classified::<T, ErrResp, F>(context, DecodedBody::Success(Ok(ok_body))) matches Ok(ok)
            && ok.ok_body == ok_body && ok.context == context && ok.context.got_status
            == context.got_status,
{
}

/// A non-2xx response whose body decodes as the error shape is classified as
/// `ErrorResponse` with that body. Expecting an error with the status it came
/// with hands the same body back; expecting any other status reports the
/// mismatch instead, and the body is dropped.
pub proof fn error_body_narrows<T, ErrResp, F: SerialFormat>(
    context: RespContext,
    err_body: ErrResp,
    other_status: StatusCode,
)
    requires
        !is_success_code(context.got_status@),
        other_status != context.got_status,
    ensures
        DecodedBody::<T, ErrResp, F::Error>::Error(Ok(err_body)).shape() == shape_for(
            context.got_status,
        ),
        classified::<T, ErrResp, F>(context, DecodedBody::Error(Ok(err_body))) == Err::<
            OkRespWithContext<T>,
            ClientErr<ErrResp, F>,
        >(ClientErr::ErrorResponse { context, err_body }),
        err_body_of(
            classified::<T, ErrResp, F>(context, DecodedBody::Error(Ok(err_body))),
            context.got_status,
        ) == Ok::<ErrResp, ClientErr<ErrResp, F>>(err_body),
        err_body_of(
            classified::<T, ErrResp, F>(context, DecodedBody::Error(Ok(err_body))),
            other_status,
        ) == Err::<ErrResp, ClientErr<ErrResp, F>>(
            ClientErr::ExpectedStatus { context: Box::new(context), expected_status: other_status },
        ),
{
}

/// A 2xx response whose body does not decode as the success shape is
/// reported as a decode failure with its context, never as a success.
pub proof fn undecodable_success_is_reported<T, ErrResp, F: SerialFormat>(
    context: RespContext,
    deserialize_error: F::Error,
)
    requires
        is_success_code(context.got_status@),
    ensures
        DecodedBody::<T, ErrResp, F::Error>::Success(Err(deserialize_error)).shape() == shape_for(
            context.got_status,
        ),
        classified::<T, ErrResp, F>(context, DecodedBody::Success(Err(deserialize_error)))
            == Err::<OkRespWithContext<T>, ClientErr<ErrResp, F>>(
            ClientErr::DeserializeError { context, deserialize_error },
        ),
{
}

/// Narrowing again with the same status changes nothing: an error that
/// narrowing hands back narrows to itself.
pub proof fn narrowing_is_idempotent<ErrResp, F: SerialFormat>(
    err: ClientErr<ErrResp, F>,
    expect_status: StatusCode,
)
    ensures
        err.narrowed(expect_status) matches Err(again) ==> again.narrowed(expect_status) == Err::<
            ErrResp,
            ClientErr<ErrResp, F>,
        >(again),
{
}

} // verus!
