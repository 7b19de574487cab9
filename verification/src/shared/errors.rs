//! Failures as the HTTP edge reports them.

use vstd::prelude::*;
use vstd::string::StringExecFns;

verus! {

/// A failure of a request, by the status it is answered with.
#[derive(Debug, Clone, PartialEq, Eq)]
pub enum AppError {
    Unauthorized,
    Forbidden,
    NotFound,
    BadRequest(String),
    /// The store failed; the text is the driver's message and is never sent
    /// to the client.
    Db(String),
    Internal,
}

impl AppError {
    /// The text of the failure.
    pub open spec fn message_spec(&self) -> Seq<char> {
        match *self {
            AppError::Unauthorized => "unauthorized"@,
            AppError::Forbidden => "forbidden"@,
            AppError::NotFound => "not found"@,
            AppError::BadRequest(detail) => "bad request: "@ + detail@,
            AppError::Db(_) => "db error"@,
            AppError::Internal => "internal error"@,
        }
    }

    /// The HTTP status the failure is answered with.
    pub open spec fn status_spec(&self) -> u16 {
        match *self {
            AppError::Unauthorized => 401,
            AppError::Forbidden => 403,
            AppError::NotFound => 404,
            AppError::BadRequest(_) => 400,
            AppError::Db(_) => 500,
            AppError::Internal => 500,
        }
    }

    /// The text of the failure. A store failure never shows its cause.
    pub fn to_string(&self) -> (text: String)
        ensures
            text@ == self.message_spec(),
    {
        match self {
            AppError::Unauthorized => String::from_str("unauthorized"),
            AppError::Forbidden => String::from_str("forbidden"),
            AppError::NotFound => String::from_str("not found"),
            AppError::BadRequest(detail) => {
                let mut text = String::from_str("bad request: ");
                text.append(detail.as_str());
                text
            },
            AppError::Db(_) => String::from_str("db error"),
            AppError::Internal => String::from_str("internal error"),
        }
    }

    /// The status and the body text of the response that reports the
    /// failure.
    pub fn into_response(self) -> (r: (u16, String))
        ensures
            r.0 == self.status_spec(),
            r.1@ == self.message_spec(),
    {
        let text = self.to_string();
        let status: u16 = match self {
            AppError::Unauthorized => 401,
            AppError::Forbidden => 403,
            AppError::NotFound => 404,
            AppError::BadRequest(_) => 400,
            AppError::Db(_) => 500,
            AppError::Internal => 500,
        };
        (status, text)
    }
}

} // verus!
