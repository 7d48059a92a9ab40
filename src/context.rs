//! What is known of a response once its body has been read.

use vstd::prelude::*;

use crate::error::ClientErr;
use crate::format::{is_json_text, json_value_from_str, SerialFormat};
use crate::status::StatusCode;

verus! {

/// A snapshot of one executed request: method, URL, the status that came
/// back, and the full text of the response body.
#[derive(Debug)]
pub struct RespContext {
    pub method: String,
    pub url: String,
    pub got_status: StatusCode,
    pub response_text: String,
}

impl Clone for RespContext {
    fn clone(&self) -> (r: Self)
        ensures
            r == *self,
    {
        RespContext {
            method: self.method.clone(),
            url: self.url.clone(),
            got_status: self.got_status,
            response_text: self.response_text.clone(),
        }
    }
}

/// The error that `expect_status` reports for a context and an expected status.
pub open spec fn status_check<ErrResp, F: SerialFormat>(
    context: RespContext,
    expect_status: StatusCode,
) -> Result<(), ClientErr<ErrResp, F>> {
    if context.got_status == expect_status {
        Ok(())
    } else {
        Err(ClientErr::ExpectedStatus { context: Box::new(context), expected_status: expect_status })
    }
}

impl RespContext {
    /// Decodes the body text as a JSON value; fails where the text is not a
    /// JSON document.
    pub fn body_from_json(&self) -> (r: Result<serde_json::Value, serde_json::Error>)
        ensures
            r is Ok <==> is_json_text(self.response_text@),
    {
        json_value_from_str(self.response_text.as_str())
    }

    /// Succeeds when the response came back with `expect_status`; otherwise
    /// reports the mismatch, with a copy of this context.
    pub fn expect_status<ErrResp, F: SerialFormat>(&self, expect_status: StatusCode) -> (r: Result<
        (),
        ClientErr<ErrResp, F>,
    >)
        ensures
            r == status_check::<ErrResp, F>(*self, expect_status),
    {
        if self.got_status != expect_status {
            return Err(ClientErr::ExpectedStatus { context: Box::new(self.clone()), expected_status: expect_status });
        }
        Ok(())
    }
}

/// A decoded success body with the context it came from.
#[derive(Debug)]
pub struct OkRespWithContext<Body> {
    pub ok_body: Body,
    pub context: RespContext,
}

/// A decoded error body with the context it came from.
#[derive(Debug)]
pub struct ErrRespWithContext<Body> {
    pub err_body: Body,
    pub context: RespContext,
}

} // verus!
