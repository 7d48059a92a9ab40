//! The closed set of ways a request can fail, and narrowing of a failure
//! against the status the caller expected.

use vstd::prelude::*;

use crate::context::{status_check, RespContext};
use crate::format::{JsonFormat, SerialFormat, XmlFormat};
use crate::status::{status_text, StatusCode};
use crate::text::push_char;
use vstd::string::to_string_from_display_ensures;

verus! {

#[verifier::external_type_specification]
#[verifier::external_body]
pub struct ExReqwestError(reqwest::Error);

/// What a classified request gives: a `T`, or a failure whose error body has
/// shape `ErrResp` and whose decode errors come from format `F`.
pub type ApiResult<T, ErrResp, F> = Result<T, ClientErr<ErrResp, F>>;

pub type JsonApiErr<ErrResp> = ClientErr<ErrResp, JsonFormat>;

pub type XmlApiErr<ErrResp> = ClientErr<ErrResp, XmlFormat>;

pub type JsonClientResult<T, ErrResp> = Result<T, JsonApiErr<ErrResp>>;

pub type XmlApiResult<T, ErrResp> = Result<T, XmlApiErr<ErrResp>>;

/// A failed request. The first three variants come before any response
/// exists; all others carry the response context (`ExpectedErrorResponse`
/// where it is known).
#[derive(Debug)]
#[allow(inconsistent_fields)]
pub enum ClientErr<ErrResp, F: SerialFormat> {
    /// The request could not be built.
    BuildRequest(reqwest::Error),
    /// The request could not be sent, or no response came.
    ExecuteRequest(reqwest::Error),
    /// The response body could not be read.
    ReadRespBodyText(reqwest::Error),
    /// An error response was expected, and a success came.
    ExpectedErrorResponse { context: Option<RespContext> },
    /// The response came with another status than the one expected.
    ExpectedStatus { context: Box<RespContext>, expected_status: StatusCode },
    /// The body did not decode as the shape that its status calls for.
    DeserializeError { context: RespContext, deserialize_error: F::Error },
    /// A non-success status with a body that decoded as the error shape.
    ErrorResponse { context: RespContext, err_body: ErrResp },
}

impl<ErrResp, F: SerialFormat> ClientErr<ErrResp, F> {
    /// The response context that the error carries, if any.
    pub open spec fn spec_context(&self) -> Option<RespContext> {
        match self {
            ClientErr::BuildRequest(_) => None,
            ClientErr::ExecuteRequest(_) => None,
            ClientErr::ReadRespBodyText(_) => None,
            ClientErr::ExpectedErrorResponse { context } => *context,
            ClientErr::ExpectedStatus { context, .. } => Some(**context),
            ClientErr::DeserializeError { context, .. } => Some(*context),
            ClientErr::ErrorResponse { context, .. } => Some(*context),
        }
    }

    /// The error narrowed against `expect_status`. Where a context exists and
    /// its status differs, the mismatch wins; otherwise a decoded error body
    /// is handed out, and any other error stays as it is.
    pub open spec fn narrowed(self, expect_status: StatusCode) -> Result<ErrResp, ClientErr<ErrResp, F>> {
        match self.spec_context() {
            Some(context) if context.got_status != expect_status => Err(
                ClientErr::ExpectedStatus { context: Box::new(context), expected_status: expect_status },
            ),
            _ => match self {
                ClientErr::ErrorResponse { err_body, .. } => Ok(err_body),
                _ => Err(self),
            },
        }
    }

    /// The response context that the error carries, if any.
    pub fn context(&self) -> (r: Option<&RespContext>)
        ensures
            match r {
                Some(c) => self.spec_context() == Some(*c),
                None => self.spec_context() is None,
            },
    {
        match self {
            ClientErr::BuildRequest(_) => None,
            ClientErr::ExecuteRequest(_) => None,
            ClientErr::ReadRespBodyText(_) => None,
            ClientErr::ExpectedErrorResponse { context } => context.as_ref(),
            ClientErr::ExpectedStatus { context, .. } => Some(context),
            ClientErr::DeserializeError { context, .. } => Some(context),
            ClientErr::ErrorResponse { context, .. } => Some(context),
        }
    }

    /// The raw response body, where the error carries a context.
    pub fn response_text(&self) -> (r: Option<&str>)
        ensures
            match r {
                Some(t) => self.spec_context() matches Some(c) && t@ == c.response_text@,
                None => self.spec_context() is None,
            },
    {
        match self.context() {
            Some(ctx) => Some(ctx.response_text.as_str()),
            None => None,
        }
    }

    /// Narrows the error against the status the caller expected: the decoded
    /// error body when the error is a structured error response with that
    /// status; otherwise an error, the status mismatch taking priority.
    pub fn try_into_err_resp(self, expect_status: StatusCode) -> (r: Result<ErrResp, ClientErr<ErrResp, F>>)
        ensures
            r == self.narrowed(expect_status),
    {
        let checked = match self.context() {
            Some(context) => context.expect_status::<ErrResp, F>(expect_status),
            None => Ok(()),
        };
        match checked {
            Err(mismatch) => Err(mismatch),
            Ok(()) => match self {
                ClientErr::ErrorResponse { err_body, .. } => Ok(err_body),
                _ => Err(self),
            },
        }
    }
}

impl<ErrResp, F: SerialFormat> ClientErr<ErrResp, F> {
    /// The line that names the kind of failure. `detail` is the text of the
    /// inner error, or of the decoded error body, for the variants that have
    /// one; the other variants do not use it.
    pub open spec fn kind_line(&self, detail: Seq<char>) -> Seq<char> {
        match self {
            ClientErr::BuildRequest(_) => "Failed building request: "@ + detail,
            ClientErr::ExecuteRequest(_) => "Failed executing request: "@ + detail,
            ClientErr::ReadRespBodyText(_) => "Failed reading response text: "@ + detail,
            ClientErr::ExpectedErrorResponse { .. } => "Expected error response, got success"@,
            ClientErr::ExpectedStatus { context, expected_status } => "Expected status: "@
                + status_text(expected_status@) + ", got: "@ + status_text(context.got_status@),
            ClientErr::DeserializeError { context, .. } => "Failed deserializing JSON response: "@
                + detail + ", response_body: "@ + context.response_text@,
            ClientErr::ErrorResponse { .. } => "Got API error response: "@ + detail,
        }
    }

    /// The report of the error for people: the method and URL where a
    /// context exists, the kind line, and the raw response body where a
    /// context exists, each ended by a newline.
    pub open spec fn report(&self, detail: Seq<char>) -> Seq<char> {
        let head = match self.spec_context() {
            Some(c) => c.method@ + seq![' '] + c.url@ + seq!['\n'],
            None => Seq::empty(),
        };
        let tail = match self.spec_context() {
            Some(c) => c.response_text@ + seq!['\n'],
            None => Seq::empty(),
        };
        head + self.kind_line(detail) + seq!['\n'] + tail
    }

    fn push_kind_line(&self, out: &mut String, detail: &str)
        ensures
            final(out)@ == old(out)@ + self.kind_line(detail@),
    {
        match self {
            ClientErr::BuildRequest(_) => {
                out.append("Failed building request: ");
                out.append(detail);
            },
            ClientErr::ExecuteRequest(_) => {
                out.append("Failed executing request: ");
                out.append(detail);
            },
            ClientErr::ReadRespBodyText(_) => {
                out.append("Failed reading response text: ");
                out.append(detail);
            },
            ClientErr::ExpectedErrorResponse { .. } => {
                out.append("Expected error response, got success");
            },
            ClientErr::ExpectedStatus { context, expected_status } => {
                out.append("Expected status: ");
                out.append(expected_status.to_string().as_str());
                out.append(", got: ");
                out.append(context.got_status.to_string().as_str());
            },
            ClientErr::DeserializeError { context, .. } => {
                out.append("Failed deserializing JSON response: ");
                out.append(detail);
                out.append(", response_body: ");
                out.append(context.response_text.as_str());
            },
            ClientErr::ErrorResponse { .. } => {
                out.append("Got API error response: ");
                out.append(detail);
            },
        }
        assert(final(out)@ =~= old(out)@ + self.kind_line(detail@));
    }

    /// Writes the report of the error, with `detail` as the text of its inner
    /// error or error body.
    pub fn render(&self, detail: &str) -> (r: String)
        ensures
            r@ == self.report(detail@),
    {
        let mut out = String::new();
        match self.context() {
            Some(c) => {
                out.append(c.method.as_str());
                push_char(&mut out, ' ');
                out.append(c.url.as_str());
                push_char(&mut out, '\n');
            },
            None => {},
        }
        self.push_kind_line(&mut out, detail);
        push_char(&mut out, '\n');
        match self.context() {
            Some(c) => {
                out.append(c.response_text.as_str());
                push_char(&mut out, '\n');
            },
            None => {},
        }
        assert(out@ =~= self.report(detail@));
        out
    }
}

impl<ErrResp: core::fmt::Display, F: SerialFormat> ClientErr<ErrResp, F> where
    F::Error: core::fmt::Display,
 {
    /// Whether `detail` is the display text of the inner error or of the
    /// decoded error body; empty for the variants that have neither.
    pub open spec fn is_detail(&self, detail: Seq<char>) -> bool {
        match self {
            ClientErr::BuildRequest(e) => exists|s: String|
                to_string_from_display_ensures::<reqwest::Error>(e, s) && s@ == detail,
            ClientErr::ExecuteRequest(e) => exists|s: String|
                to_string_from_display_ensures::<reqwest::Error>(e, s) && s@ == detail,
            ClientErr::ReadRespBodyText(e) => exists|s: String|
                to_string_from_display_ensures::<reqwest::Error>(e, s) && s@ == detail,
            ClientErr::DeserializeError { deserialize_error, .. } => exists|s: String|
                to_string_from_display_ensures::<F::Error>(deserialize_error, s) && s@ == detail,
            ClientErr::ErrorResponse { err_body, .. } => exists|s: String|
                to_string_from_display_ensures::<ErrResp>(err_body, s) && s@ == detail,
            _ => detail == Seq::<char>::empty(),
        }
    }

    /// The report of the error, with the display text of its inner error or
    /// of its decoded error body as the detail.
    pub fn to_string(&self) -> (r: String)
        ensures
            exists|detail: Seq<char>| self.is_detail(detail) && r@ == self.report(detail),
    {
        let detail = match self {
            ClientErr::BuildRequest(e) => e.to_string(),
            ClientErr::ExecuteRequest(e) => e.to_string(),
            ClientErr::ReadRespBodyText(e) => e.to_string(),
            ClientErr::DeserializeError { deserialize_error, .. } => deserialize_error.to_string(),
            ClientErr::ErrorResponse { err_body, .. } => err_body.to_string(),
            _ => String::new(),
        };
        self.render(detail.as_str())
    }
}

/// Narrowing of a whole result: a success where an error was expected
/// becomes `ExpectedErrorResponse` without context.
pub trait ResultExt<F: SerialFormat> {
    type ErrResp;

    fn try_into_err_resp(self, expect_status: StatusCode) -> Result<
        Self::ErrResp,
        ClientErr<Self::ErrResp, F>,
    >;
}

impl<T, ErrResp, F: SerialFormat> ResultExt<F> for ApiResult<T, ErrResp, F> {
    type ErrResp = ErrResp;

    fn try_into_err_resp(self, expect_status: StatusCode) -> (r: Result<ErrResp, ClientErr<ErrResp, F>>)
        ensures
            r == match self {
                Ok(_) => Err(ClientErr::ExpectedErrorResponse { context: None }),
                Err(e) => e.narrowed(expect_status),
            },
    {
        match self {
            Ok(_) => Err(ClientErr::ExpectedErrorResponse { context: None }),
            Err(err) => err.try_into_err_resp(expect_status),
        }
    }
}

} // verus!
