//! The names that most users of the client helpers need.

pub use crate::client::{ApiClient, JsonApiClient};
pub use crate::error::{
    ApiResult, ClientErr, JsonApiErr, JsonClientResult, ResultExt, XmlApiErr, XmlApiResult,
};
pub use crate::format::{ApiFormat, JsonFormat, SerialFormat, XmlFormat};
pub use crate::status::StatusCode;
