//! The failures of a request and what the caller is told of each.

use crate::status::{status_text, Status};
use vstd::prelude::*;
use vstd::string::StringExecFns;

verus! {

/// Why a request could not be served.
#[derive(Clone, Copy, Debug, PartialEq, Eq)]
pub enum ApiError {
    /// No access credential is configured.
    MissingToken,
    /// The exchange with an upstream broke off; the status is the one that
    /// the transport's error carries, where it carries one.
    Request(Option<Status>),
    /// An upstream answered with this status, which is not a success.
    Upstream(Status),
    /// The request cannot be served as it was made.
    Internal,
    /// The cache could not be read or written.
    Io,
}

/// What the caller receives for a failed request.
#[derive(Debug, PartialEq, Eq)]
pub struct ErrorResponse {
    pub status: Status,
    pub message: String,
}

impl ApiError {
    /// The number of the status that the caller receives: an upstream's
    /// status as it came, 502 for a broken exchange without one, 500 for
    /// every failure on this side.
    pub open spec fn status_code(self) -> u16 {
        match self {
            ApiError::Request(Some(status)) => status.code(),
            ApiError::Request(None) => 502,
            ApiError::Upstream(status) => status.code(),
            ApiError::MissingToken | ApiError::Internal | ApiError::Io => 500,
        }
    }

    /// The text that the caller receives. It holds nothing of an upstream's
    /// body and nothing of where the cache lies.
    pub open spec fn message(self) -> Seq<char> {
        match self {
            ApiError::MissingToken => "環境変数 GITHUB_ACCESS_TOKEN が見つかりません"@,
            ApiError::Request(_) => "上流 HTTP エラー: "@ + status_text(self.status_code()),
            ApiError::Upstream(_) => "上流エラー: "@ + status_text(self.status_code()),
            ApiError::Internal => "内部エラーが発生しました"@,
            ApiError::Io => "キャッシュ I/O エラー"@,
        }
    }

    /// The status that the caller receives.
    pub fn status(&self) -> (status: Status)
        ensures
            status.code() == self.status_code(),
    {
        match self {
            ApiError::Request(Some(status)) => *status,
            ApiError::Request(None) => Status::bad_gateway(),
            ApiError::Upstream(status) => *status,
            ApiError::MissingToken => Status::internal_server_error(),
            ApiError::Internal => Status::internal_server_error(),
            ApiError::Io => Status::internal_server_error(),
        }
    }

    /// The status and the text that the caller receives.
    pub fn into_response(self) -> (response: ErrorResponse)
        ensures
            response.status.code() == self.status_code(),
            response.message@ == self.message(),
    {
        let status = self.status();
        let message = match self {
            ApiError::MissingToken => "環境変数 GITHUB_ACCESS_TOKEN が見つかりません".to_owned(),
            ApiError::Request(_) => "上流 HTTP エラー: ".to_owned().concat(status.text().as_str()),
            ApiError::Upstream(_) => "上流エラー: ".to_owned().concat(status.text().as_str()),
            ApiError::Internal => "内部エラーが発生しました".to_owned(),
            ApiError::Io => "キャッシュ I/O エラー".to_owned(),
        };
        ErrorResponse { status, message }
    }
}

} // verus!
