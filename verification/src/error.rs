//! The service's errors and the HTTP answers they become.

use vstd::prelude::*;
use crate::text::owned;

verus! {

#[verifier::external_type_specification]
#[verifier::external_body]
pub struct ExSqlxError(sqlx::Error);

#[verifier::external_type_specification]
#[verifier::external_body]
pub struct ExConfigError(::config::ConfigError);

#[verifier::external_type_specification]
#[verifier::external_body]
pub struct ExJwtError(jsonwebtoken::errors::Error);

#[derive(Debug)]
pub enum AppError {
    Database(sqlx::Error),
    Configuration(::config::ConfigError),
    OAuth(String),
    JwtError(jsonwebtoken::errors::Error),
    InvalidToken,
    TokenExpired,
    Unauthorized,
    Forbidden,
    NotFound(String),
    BadRequest(String),
    RateLimitExceeded,
    InternalServerError(String),
    ValidationError(String),
    DeviceMismatch,
}

pub type Result<T> = std::result::Result<T, AppError>;

/// How errors are answered: every token or authentication error
/// (invalid, expired or malformed token, missing authentication, another
/// device) with 401 `Unauthorized`; a forbidden request with 403
/// `Forbidden`; a missing item with 404 `Not Found`; an OAuth, malformed
/// or invalid request with 400 `Bad Request`; too many requests with 429
/// `Too Many Requests`; and only database, configuration and internal
/// errors with 500 `Internal Server Error`.
pub proof fn lemma_error_answers(e: AppError)
    ensures
        (e is InvalidToken || e is TokenExpired || e is JwtError || e is Unauthorized || e is DeviceMismatch) <==> (
        e.status_spec() == 401),
        e.status_spec() == 401 ==> reason_spec(e.status_spec()) == "Unauthorized"@,
        e is Forbidden <==> e.status_spec() == 403,
        e.status_spec() == 403 ==> reason_spec(e.status_spec()) == "Forbidden"@,
        e is NotFound <==> e.status_spec() == 404,
        e.status_spec() == 404 ==> reason_spec(e.status_spec()) == "Not Found"@,
        (e is OAuth || e is BadRequest || e is ValidationError) <==> e.status_spec() == 400,
        e.status_spec() == 400 ==> reason_spec(e.status_spec()) == "Bad Request"@,
        e is RateLimitExceeded <==> e.status_spec() == 429,
        e.status_spec() == 429 ==> reason_spec(e.status_spec()) == "Too Many Requests"@,
        (e is Database || e is Configuration || e is InternalServerError) <==> e.status_spec() == 500,
        e.status_spec() == 500 ==> reason_spec(e.status_spec()) == "Internal Server Error"@,
{
}

/// The body of an error answer.
#[derive(Debug)]
pub struct ErrorResponse {
    pub error: String,
    pub error_description: String,
    pub error_code: Option<String>,
    pub request_id: Option<String>,
}

/// The reason phrase that HTTP gives a status code (among those used here).
pub open spec fn reason_spec(status: u16) -> Seq<char> {
    if status == 400 {
        "Bad Request"@
    } else if status == 401 {
        "Unauthorized"@
    } else if status == 403 {
        "Forbidden"@
    } else if status == 404 {
        "Not Found"@
    } else if status == 429 {
        "Too Many Requests"@
    } else {
        "Internal Server Error"@
    }
}

/// The reason phrase http gives a status code, if any.
pub uninterp spec fn http_reason(status: u16) -> Option<Seq<char>>;

/// http's `StatusCode::from_u16`, then `canonical_reason`: the reason
/// phrase of a status code, if it is a code (100 to 999) with a phrase.
/// The phrase is named; those of the codes this service answers with are
/// stated as http's table gives them.
#[verifier::external_body]
fn canonical_reason(status: u16) -> (r: Option<String>)
    ensures
        r matches Some(t) ==> http_reason(status) == Some(t@),
        r is None ==> http_reason(status) is None,
        error_status(status) ==> r is Some,
        r matches Some(t) ==> reason_table(status, t@),
{
    axum::http::StatusCode::from_u16(status).ok()?.canonical_reason().map(|t| t.to_string())
}

/// The phrases of http's table for the codes this service answers with.
pub open spec fn reason_table(status: u16, phrase: Seq<char>) -> bool {
    &&& status == 400 ==> phrase == "Bad Request"@
    &&& status == 401 ==> phrase == "Unauthorized"@
    &&& status == 403 ==> phrase == "Forbidden"@
    &&& status == 404 ==> phrase == "Not Found"@
    &&& status == 429 ==> phrase == "Too Many Requests"@
    &&& status == 500 ==> phrase == "Internal Server Error"@
}

/// The codes this service answers errors with.
pub open spec fn error_status(status: u16) -> bool {
    status == 400 || status == 401 || status == 403 || status == 404 || status == 429 || status == 500
}

/// The reason phrase of a status code, or `Unknown Error` when it has none.
fn reason_phrase(status: u16) -> (r: String)
    requires
        error_status(status),
    ensures
        r@ == reason_spec(status),
{
    match canonical_reason(status) {
        Some(t) => t,
        None => owned("Unknown Error"),
    }
}

impl AppError {
    /// The HTTP status of the answer.
    pub open spec fn status_spec(&self) -> u16 {
        match self {
            AppError::Database(_) => 500,
            AppError::Configuration(_) => 500,
            AppError::OAuth(_) => 400,
            AppError::JwtError(_) => 401,
            AppError::InvalidToken => 401,
            AppError::TokenExpired => 401,
            AppError::Unauthorized => 401,
            AppError::Forbidden => 403,
            AppError::NotFound(_) => 404,
            AppError::BadRequest(_) => 400,
            AppError::RateLimitExceeded => 429,
            AppError::InternalServerError(_) => 500,
            AppError::ValidationError(_) => 400,
            AppError::DeviceMismatch => 401,
        }
    }

    /// The machine-readable code of the answer.
    pub open spec fn code_spec(&self) -> Seq<char> {
        match self {
            AppError::Database(_) => "DATABASE_ERROR"@,
            AppError::Configuration(_) => "CONFIGURATION_ERROR"@,
            AppError::OAuth(_) => "OAUTH_ERROR"@,
            AppError::JwtError(_) => "JWT_ERROR"@,
            AppError::InvalidToken => "INVALID_TOKEN"@,
            AppError::TokenExpired => "TOKEN_EXPIRED"@,
            AppError::Unauthorized => "UNAUTHORIZED"@,
            AppError::Forbidden => "FORBIDDEN"@,
            AppError::NotFound(_) => "NOT_FOUND"@,
            AppError::BadRequest(_) => "BAD_REQUEST"@,
            AppError::RateLimitExceeded => "RATE_LIMIT_EXCEEDED"@,
            AppError::InternalServerError(_) => "INTERNAL_ERROR"@,
            AppError::ValidationError(_) => "VALIDATION_ERROR"@,
            AppError::DeviceMismatch => "DEVICE_MISMATCH"@,
        }
    }

    /// The description the client sees: the message itself for the errors
    /// that concern the request, a fixed text for the others (internal
    /// details never reach the client).
    pub open spec fn description_spec(&self) -> Seq<char> {
        match self {
            AppError::Database(_) => "An internal database error occurred"@,
            AppError::Configuration(_) => "Server configuration error"@,
            AppError::OAuth(m) => m@,
            AppError::JwtError(_) => "Invalid or malformed token"@,
            AppError::InvalidToken => "The provided token is invalid"@,
            AppError::TokenExpired => "The token has expired"@,
            AppError::Unauthorized => "Authentication required"@,
            AppError::Forbidden => "Access forbidden"@,
            AppError::NotFound(m) => m@,
            AppError::BadRequest(m) => m@,
            AppError::RateLimitExceeded => "Rate limit exceeded. Please try again later"@,
            AppError::InternalServerError(_) => "An internal server error occurred"@,
            AppError::ValidationError(m) => m@,
            AppError::DeviceMismatch =>
                "Session is bound to a different device. Please log in again."@,
        }
    }

    fn code(&self) -> (r: &'static str)
        ensures
            r@ == self.code_spec(),
    {
        match self {
            AppError::Database(_) => "DATABASE_ERROR",
            AppError::Configuration(_) => "CONFIGURATION_ERROR",
            AppError::OAuth(_) => "OAUTH_ERROR",
            AppError::JwtError(_) => "JWT_ERROR",
            AppError::InvalidToken => "INVALID_TOKEN",
            AppError::TokenExpired => "TOKEN_EXPIRED",
            AppError::Unauthorized => "UNAUTHORIZED",
            AppError::Forbidden => "FORBIDDEN",
            AppError::NotFound(_) => "NOT_FOUND",
            AppError::BadRequest(_) => "BAD_REQUEST",
            AppError::RateLimitExceeded => "RATE_LIMIT_EXCEEDED",
            AppError::InternalServerError(_) => "INTERNAL_ERROR",
            AppError::ValidationError(_) => "VALIDATION_ERROR",
            AppError::DeviceMismatch => "DEVICE_MISMATCH",
        }
    }

    pub fn status(&self) -> (r: u16)
        ensures
            r == self.status_spec(),
    {
        match self {
            AppError::Database(_) => 500,
            AppError::Configuration(_) => 500,
            AppError::OAuth(_) => 400,
            AppError::JwtError(_) => 401,
            AppError::InvalidToken => 401,
            AppError::TokenExpired => 401,
            AppError::Unauthorized => 401,
            AppError::Forbidden => 403,
            AppError::NotFound(_) => 404,
            AppError::BadRequest(_) => 400,
            AppError::RateLimitExceeded => 429,
            AppError::InternalServerError(_) => 500,
            AppError::ValidationError(_) => 400,
            AppError::DeviceMismatch => 401,
        }
    }

    fn description(&self) -> (r: String)
        ensures
            r@ == self.description_spec(),
    {
        match self {
            AppError::Database(_) => owned("An internal database error occurred"),
            AppError::Configuration(_) => owned("Server configuration error"),
            AppError::OAuth(m) => m.clone(),
            AppError::JwtError(_) => owned("Invalid or malformed token"),
            AppError::InvalidToken => owned("The provided token is invalid"),
            AppError::TokenExpired => owned("The token has expired"),
            AppError::Unauthorized => owned("Authentication required"),
            AppError::Forbidden => owned("Access forbidden"),
            AppError::NotFound(m) => m.clone(),
            AppError::BadRequest(m) => m.clone(),
            AppError::RateLimitExceeded => owned("Rate limit exceeded. Please try again later"),
            AppError::InternalServerError(_) => owned("An internal server error occurred"),
            AppError::ValidationError(m) => m.clone(),
            AppError::DeviceMismatch => owned(
                "Session is bound to a different device. Please log in again.",
            ),
        }
    }

    /// The answer to send for this error: its status and body.
    pub fn error_response(&self) -> (r: (u16, ErrorResponse))
        ensures
            r.0 == self.status_spec(),
            r.1.error@ == reason_spec(self.status_spec()),
            r.1.error_description@ == self.description_spec(),
            r.1.error_code matches Some(c) && c@ == self.code_spec(),
            r.1.request_id is None,
    {
        let status = self.status();
        let body = ErrorResponse {
            error: reason_phrase(status),
            error_description: self.description(),
            error_code: Some(owned(self.code())),
            request_id: None,
        };
        (status, body)
    }

    /// The error's message, as its `Display` writes it; the messages of the
    /// database, configuration and JWT errors come from those crates.
    pub fn to_message(&self) -> (r: String)
        ensures
            self is Database ==> "Database error: "@.is_prefix_of(r@),
            self is Configuration ==> "Configuration error: "@.is_prefix_of(r@),
            self is JwtError ==> "JWT error: "@.is_prefix_of(r@),
            self matches AppError::OAuth(m) ==> r@ == "OAuth error: "@ + m@,
            self matches AppError::NotFound(m) ==> r@ == "Not found: "@ + m@,
            self matches AppError::BadRequest(m) ==> r@ == "Bad request: "@ + m@,
            self matches AppError::InternalServerError(m) ==> r@ == "Internal server error: "@
                + m@,
            self matches AppError::ValidationError(m) ==> r@ == "Validation error: "@ + m@,
            self is InvalidToken ==> r@ == "Invalid token"@,
            self is TokenExpired ==> r@ == "Token expired"@,
            self is Unauthorized ==> r@ == "Unauthorized"@,
            self is Forbidden ==> r@ == "Forbidden"@,
            self is RateLimitExceeded ==> r@ == "Rate limit exceeded"@,
            self is DeviceMismatch ==> r@ == "Device mismatch detected"@,
    {
        match self {
            AppError::Database(e) => {
                let mut s = owned("Database error: ");
                s.append(sqlx_error_text(e).as_str());
                assert(s@.take("Database error: "@.len() as int) =~= "Database error: "@);
                s
            },
            AppError::Configuration(e) => {
                let mut s = owned("Configuration error: ");
                s.append(config_error_text(e).as_str());
                assert(s@.take("Configuration error: "@.len() as int) =~= "Configuration error: "@);
                s
            },
            AppError::OAuth(m) => {
                let mut s = owned("OAuth error: ");
                s.append(m.as_str());
                s
            },
            AppError::JwtError(e) => {
                let mut s = owned("JWT error: ");
                s.append(jwt_error_text(e).as_str());
                assert(s@.take("JWT error: "@.len() as int) =~= "JWT error: "@);
                s
            },
            AppError::InvalidToken => owned("Invalid token"),
            AppError::TokenExpired => owned("Token expired"),
            AppError::Unauthorized => owned("Unauthorized"),
            AppError::Forbidden => owned("Forbidden"),
            AppError::NotFound(m) => {
                let mut s = owned("Not found: ");
                s.append(m.as_str());
                s
            },
            AppError::BadRequest(m) => {
                let mut s = owned("Bad request: ");
                s.append(m.as_str());
                s
            },
            AppError::RateLimitExceeded => owned("Rate limit exceeded"),
            AppError::InternalServerError(m) => {
                let mut s = owned("Internal server error: ");
                s.append(m.as_str());
                s
            },
            AppError::ValidationError(m) => {
                let mut s = owned("Validation error: ");
                s.append(m.as_str());
                s
            },
            AppError::DeviceMismatch => owned("Device mismatch detected"),
        }
    }
}

/// sqlx's `Display` of its error. The error is opaque here; nothing is
/// stated of the text.
#[verifier::external_body]
fn sqlx_error_text(e: &sqlx::Error) -> (r: String) {
    e.to_string()
}

/// config's `Display` of its error. The error is opaque here; nothing is
/// stated of the text.
#[verifier::external_body]
fn config_error_text(e: &::config::ConfigError) -> (r: String) {
    e.to_string()
}

/// jsonwebtoken's `Display` of its error. The error is opaque here;
/// nothing is stated of the text.
#[verifier::external_body]
fn jwt_error_text(e: &jsonwebtoken::errors::Error) -> (r: String) {
    e.to_string()
}

impl From<sqlx::Error> for AppError {
    fn from(err: sqlx::Error) -> (r: Self) {
        AppError::Database(err)
    }
}

impl vstd::std_specs::convert::FromSpecImpl<sqlx::Error> for AppError {
    open spec fn obeys_from_spec() -> bool {
        true
    }

    open spec fn from_spec(err: sqlx::Error) -> AppError {
        AppError::Database(err)
    }
}

impl From<::config::ConfigError> for AppError {
    fn from(err: ::config::ConfigError) -> (r: Self) {
        AppError::Configuration(err)
    }
}

impl vstd::std_specs::convert::FromSpecImpl<::config::ConfigError> for AppError {
    open spec fn obeys_from_spec() -> bool {
        true
    }

    open spec fn from_spec(err: ::config::ConfigError) -> AppError {
        AppError::Configuration(err)
    }
}

impl From<jsonwebtoken::errors::Error> for AppError {
    fn from(err: jsonwebtoken::errors::Error) -> (r: Self) {
        AppError::JwtError(err)
    }
}

impl vstd::std_specs::convert::FromSpecImpl<jsonwebtoken::errors::Error> for AppError {
    open spec fn obeys_from_spec() -> bool {
        true
    }

    open spec fn from_spec(err: jsonwebtoken::errors::Error) -> AppError {
        AppError::JwtError(err)
    }
}

/// A JSON error answer (`error`, `error_description`) and its status, as
/// the middlewares and handlers send them.
#[derive(Debug, Clone)]
pub struct ErrorReply {
    pub status: u16,
    pub error: String,
    pub error_description: String,
}

/// Whether a reply has the given status and texts.
pub open spec fn reply_is(r: ErrorReply, status: u16, error: Seq<char>, description: Seq<char>) -> bool {
    r.status == status && r.error@ == error && r.error_description@ == description
}

impl ErrorReply {
    pub fn new(status: u16, error: &str, description: &str) -> (r: Self)
        ensures
            reply_is(r, status, error@, description@),
    {
        ErrorReply { status, error: owned(error), error_description: owned(description) }
    }
}

} // verus!
