//! The error taxonomy of the service and its mapping to HTTP status codes.

use vstd::prelude::*;
use vstd::string::*;

verus! {

/// Everything that can go wrong while serving a request.
#[derive(Debug)]
pub enum AppError {
    /// The key-value store could not be reached or refused a command.
    RedisError(String),
    /// Required input is missing or malformed.
    BadRequest(String),
    /// Credentials, token, session or CSRF token were not accepted.
    Unauthorized(String),
    /// The login-attempt limit has been reached.
    TooManyRequests(String),
    /// A token could not be signed.
    JwtError(String),
    /// The password hash could not be evaluated.
    BcryptError(String),
    /// A stored record could not be read or written as JSON.
    JsonError(String),
    /// The configuration is incomplete.
    EnvError(String),
}

/// Mathematical value of an [`AppError`]. Of an error that comes from
/// signing, hashing or parsing only the kind is kept: its words are not
/// this crate's.
pub ghost enum AppErrorView {
    RedisError(Seq<char>),
    BadRequest(Seq<char>),
    Unauthorized(Seq<char>),
    TooManyRequests(Seq<char>),
    JwtError,
    BcryptError,
    JsonError,
    EnvError(Seq<char>),
}

impl View for AppError {
    type V = AppErrorView;

    open spec fn view(&self) -> AppErrorView {
        match self {
            AppError::RedisError(m) => AppErrorView::RedisError(m@),
            AppError::BadRequest(m) => AppErrorView::BadRequest(m@),
            AppError::Unauthorized(m) => AppErrorView::Unauthorized(m@),
            AppError::TooManyRequests(m) => AppErrorView::TooManyRequests(m@),
            AppError::JwtError(_) => AppErrorView::JwtError,
            AppError::BcryptError(_) => AppErrorView::BcryptError,
            AppError::JsonError(_) => AppErrorView::JsonError,
            AppError::EnvError(m) => AppErrorView::EnvError(m@),
        }
    }
}

impl AppErrorView {
    /// HTTP status code under which the error is reported: what is wrong
    /// with the request is the caller's, 400, 401 or 429; what failed on
    /// the service's side, the store, signing, hashing, a stored record
    /// or the configuration, is 500.
    pub open spec fn status_code(self) -> int {
        match self {
            AppErrorView::BadRequest(_) => 400,
            AppErrorView::Unauthorized(_) => 401,
            AppErrorView::TooManyRequests(_) => 429,
            AppErrorView::RedisError(_) => 500,
            AppErrorView::JwtError => 500,
            AppErrorView::BcryptError => 500,
            AppErrorView::JsonError => 500,
            AppErrorView::EnvError(_) => 500,
        }
    }

}

/// View of a result whose error is an [`AppError`].
pub open spec fn outcome_view<T: View>(r: Result<T, AppError>) -> Result<T::V, AppErrorView> {
    match r {
        Ok(v) => Ok(v@),
        Err(e) => Err(e@),
    }
}

/// View of a result that carries no value on success.
pub open spec fn unit_outcome_view(r: Result<(), AppError>) -> Result<(), AppErrorView> {
    match r {
        Ok(_) => Ok(()),
        Err(e) => Err(e@),
    }
}

impl AppError {
    /// Text placed under `"error"` in the response body.
    pub open spec fn message_text(&self) -> Seq<char> {
        match self {
            AppError::BadRequest(m) => m@,
            AppError::Unauthorized(m) => m@,
            AppError::TooManyRequests(m) => m@,
            AppError::RedisError(m) => "Redis error: "@ + m@,
            AppError::JwtError(m) => "Authentication error: "@ + m@,
            AppError::BcryptError(m) => "Password hashing error: "@ + m@,
            AppError::JsonError(m) => "JSON parsing error: "@ + m@,
            AppError::EnvError(m) => "Configuration error: "@ + m@,
        }
    }

    pub fn bad_request(msg: &str) -> (e: AppError)
        ensures
            e@ == AppErrorView::BadRequest(msg@),
    {
        AppError::BadRequest(msg.to_owned())
    }

    pub fn unauthorized(msg: &str) -> (e: AppError)
        ensures
            e@ == AppErrorView::Unauthorized(msg@),
    {
        AppError::Unauthorized(msg.to_owned())
    }

    pub fn too_many_requests(msg: &str) -> (e: AppError)
        ensures
            e@ == AppErrorView::TooManyRequests(msg@),
    {
        AppError::TooManyRequests(msg.to_owned())
    }

    /// HTTP status code under which the error is reported.
    pub fn status_code(&self) -> (code: u16)
        ensures
            code == self@.status_code(),
    {
        match self {
            AppError::BadRequest(_) => 400,
            AppError::Unauthorized(_) => 401,
            AppError::TooManyRequests(_) => 429,
            AppError::RedisError(_) => 500,
            AppError::JwtError(_) => 500,
            AppError::BcryptError(_) => 500,
            AppError::JsonError(_) => 500,
            AppError::EnvError(_) => 500,
        }
    }

    /// Text placed under `"error"` in the response body.
    pub fn message(&self) -> (text: String)
        ensures
            text@ == self.message_text(),
    {
        match self {
            AppError::BadRequest(m) => m.clone(),
            AppError::Unauthorized(m) => m.clone(),
            AppError::TooManyRequests(m) => m.clone(),
            AppError::RedisError(m) => String::from_str("Redis error: ").concat(m.as_str()),
            AppError::JwtError(m) => String::from_str("Authentication error: ").concat(m.as_str()),
            AppError::BcryptError(m) => String::from_str("Password hashing error: ").concat(
                m.as_str(),
            ),
            AppError::JsonError(m) => String::from_str("JSON parsing error: ").concat(m.as_str()),
            AppError::EnvError(m) => String::from_str("Configuration error: ").concat(m.as_str()),
        }
    }

    /// Status code and message of the response that reports the error.
    pub fn into_response(self) -> (response: (u16, String))
        ensures
            response.0 == self@.status_code(),
            response.1@ == self.message_text(),
    {
        let code = self.status_code();
        let text = self.message();
        (code, text)
    }

    /// A copy of the error.
    pub fn duplicate(&self) -> (e: AppError)
        ensures
            e@ == self@,
            e.message_text() == self.message_text(),
    {
        match self {
            AppError::BadRequest(m) => AppError::BadRequest(m.clone()),
            AppError::Unauthorized(m) => AppError::Unauthorized(m.clone()),
            AppError::TooManyRequests(m) => AppError::TooManyRequests(m.clone()),
            AppError::RedisError(m) => AppError::RedisError(m.clone()),
            AppError::JwtError(m) => AppError::JwtError(m.clone()),
            AppError::BcryptError(m) => AppError::BcryptError(m.clone()),
            AppError::JsonError(m) => AppError::JsonError(m.clone()),
            AppError::EnvError(m) => AppError::EnvError(m.clone()),
        }
    }
}

} // verus!
