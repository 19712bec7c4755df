//! The errors the SDK returns and how an API error is read from a response.
use crate::client::opt_str;
use crate::json::{str_value, JsonValue};
use crate::text::decimal;
use crate::text::spec_decimal;
use vstd::prelude::*;
use vstd::string::StringExecFns;

verus! {

/// Classification of an [`ApiError`], derived from the HTTP status code.
#[derive(Debug, Clone, Copy, PartialEq, Eq, Structural)]
pub enum ErrorKind {
    /// 401
    Authentication,
    /// 403
    Forbidden,
    /// 404
    NotFound,
    /// 422
    Validation,
    /// 429
    RateLimit,
    /// 5xx
    Server,
    /// Any other non-2xx status.
    Api,
}

/// The kind that a status code is classified as.
pub open spec fn kind_of_status(status: u16) -> ErrorKind {
    if status == 401 {
        ErrorKind::Authentication
    } else if status == 403 {
        ErrorKind::Forbidden
    } else if status == 404 {
        ErrorKind::NotFound
    } else if status == 422 {
        ErrorKind::Validation
    } else if status == 429 {
        ErrorKind::RateLimit
    } else if 500 <= status && status <= 599 {
        ErrorKind::Server
    } else {
        ErrorKind::Api
    }
}

/// The wire-format name of a kind.
pub open spec fn kind_name(kind: ErrorKind) -> Seq<char> {
    match kind {
        ErrorKind::Authentication => "authentication"@,
        ErrorKind::Forbidden => "forbidden"@,
        ErrorKind::NotFound => "not_found"@,
        ErrorKind::Validation => "validation"@,
        ErrorKind::RateLimit => "rate_limit"@,
        ErrorKind::Server => "server"@,
        ErrorKind::Api => "api"@,
    }
}

impl ErrorKind {
    /// The kind as its wire-format string (`authentication`, `forbidden`,
    /// `not_found`, `validation`, `rate_limit`, `server`, `api`).
    pub fn as_str(&self) -> (s: &'static str)
        ensures
            s@ == kind_name(*self),
    {
        match self {
            ErrorKind::Authentication => "authentication",
            ErrorKind::Forbidden => "forbidden",
            ErrorKind::NotFound => "not_found",
            ErrorKind::Validation => "validation",
            ErrorKind::RateLimit => "rate_limit",
            ErrorKind::Server => "server",
            ErrorKind::Api => "api",
        }
    }

    /// The kind as an owned string; what `Display` writes.
    pub fn to_string(&self) -> (s: String)
        ensures
            s@ == kind_name(*self),
    {
        String::from_str(self.as_str())
    }

    /// Classifies a non-2xx status code: 401, 403, 404, 422 and 429 have
    /// kinds of their own, 5xx statuses are `Server`, every other status `Api`.
    pub fn from_status(status: u16) -> (k: ErrorKind)
        ensures
            k == kind_of_status(status),
    {
        if status == 401 {
            ErrorKind::Authentication
        } else if status == 403 {
            ErrorKind::Forbidden
        } else if status == 404 {
            ErrorKind::NotFound
        } else if status == 422 {
            ErrorKind::Validation
        } else if status == 429 {
            ErrorKind::RateLimit
        } else if status >= 500 && status <= 599 {
            ErrorKind::Server
        } else {
            ErrorKind::Api
        }
    }
}

/// The reason phrase used when the API's error carries no message.
pub open spec fn status_reason(status: u16) -> Seq<char> {
    if status == 400 {
        "Bad Request"@
    } else if status == 401 {
        "Unauthorized"@
    } else if status == 403 {
        "Forbidden"@
    } else if status == 404 {
        "Not Found"@
    } else if status == 405 {
        "Method Not Allowed"@
    } else if status == 409 {
        "Conflict"@
    } else if status == 410 {
        "Gone"@
    } else if status == 422 {
        "Unprocessable Entity"@
    } else if status == 429 {
        "Too Many Requests"@
    } else if status == 500 {
        "Internal Server Error"@
    } else if status == 502 {
        "Bad Gateway"@
    } else if status == 503 {
        "Service Unavailable"@
    } else if status == 504 {
        "Gateway Timeout"@
    } else {
        "HTTP Error"@
    }
}

/// The reason phrase of a status code, `HTTP Error` for codes without one.
pub fn status_text(status: u16) -> (s: &'static str)
    ensures
        s@ == status_reason(status),
{
    if status == 400 {
        "Bad Request"
    } else if status == 401 {
        "Unauthorized"
    } else if status == 403 {
        "Forbidden"
    } else if status == 404 {
        "Not Found"
    } else if status == 405 {
        "Method Not Allowed"
    } else if status == 409 {
        "Conflict"
    } else if status == 410 {
        "Gone"
    } else if status == 422 {
        "Unprocessable Entity"
    } else if status == 429 {
        "Too Many Requests"
    } else if status == 500 {
        "Internal Server Error"
    } else if status == 502 {
        "Bad Gateway"
    } else if status == 503 {
        "Service Unavailable"
    } else if status == 504 {
        "Gateway Timeout"
    } else {
        "HTTP Error"
    }
}

/// The API error envelope: `{ "error": { "type": ..., "message": ...,
/// "param": ... } }`. Match on [`ApiError::kind`].
#[derive(Debug)]
pub struct ApiError {
    /// HTTP status code.
    pub status: u16,
    /// Classification derived from the status code.
    pub kind: ErrorKind,
    /// The API's `error.type` field.
    pub error_type: Option<String>,
    /// The API's `error.message` field (falls back to the HTTP status text).
    pub message: String,
    /// The API's `error.param` field.
    pub param: Option<String>,
    /// The `X-Request-Id` response header.
    pub request_id: Option<String>,
    /// Seconds from the `Retry-After` header; only set for `rate_limit`.
    pub retry_after: Option<u64>,
    /// The full parsed response body.
    pub body: JsonValue,
}

/// Every error the SDK returns.
#[derive(Debug)]
pub enum Error {
    /// A non-2xx API response.
    Api(Box<ApiError>),
    /// The client could not be built or the call was invalid before any
    /// request was made (missing API key, out-of-range limit).
    Configuration(String),
    /// A transport-level failure (timeout, DNS, connection refused).
    Connection(String),
}

/// The string member `name` of the `error` object of a body.
pub open spec fn error_field(body: JsonValue, name: Seq<char>) -> Option<Seq<char>> {
    match body.field("error"@) {
        Some(payload) => str_value(payload.field(name)),
        None => None,
    }
}

/// What `new_api_error` builds from a non-2xx response.
pub open spec fn api_error_from(
    e: ApiError,
    status: u16,
    request_id: Option<String>,
    retry_after: Option<u64>,
    body: JsonValue,
) -> bool {
    &&& e.status == status
    &&& e.kind == kind_of_status(status)
    &&& opt_str(e.error_type) == error_field(body, "type"@)
    &&& e.message@ == match error_field(body, "message"@) {
        Some(m) => m,
        None => status_reason(status),
    }
    &&& opt_str(e.param) == error_field(body, "param"@)
    &&& e.request_id == request_id
    &&& e.retry_after == if kind_of_status(status) == ErrorKind::RateLimit {
        retry_after
    } else {
        None
    }
    &&& e.body == body
}

fn str_field(value: Option<&JsonValue>, name: &str) -> (r: Option<String>)
    ensures
        opt_str(r) == match value {
            Some(v) => str_value(v.field(name@)),
            None => None,
        },
{
    match value {
        Some(p) => match p.get(name) {
            Some(v) => match v.as_str() {
                Some(s) => Some(s.clone()),
                None => None,
            },
            None => None,
        },
        None => None,
    }
}

/// Builds the [`Error::Api`] for a non-2xx response: the kind comes from
/// the status, `type`, `message` and `param` from the body's `error`
/// object (the message falls back to the status text), and `Retry-After`
/// is kept only for `rate_limit`.
pub fn new_api_error(
    status: u16,
    request_id: Option<String>,
    retry_after: Option<u64>,
    body: JsonValue,
) -> (err: Error)
    ensures
        err is Api,
        api_error_from(*err->Api_0, status, request_id, retry_after, body),
{
    let kind = ErrorKind::from_status(status);
    let payload = body.get("error");
    let error_type = str_field(payload, "type");
    let message = match str_field(payload, "message") {
        Some(m) => m,
        None => String::from_str(status_text(status)),
    };
    let param = str_field(payload, "param");
    let retry_after = if kind == ErrorKind::RateLimit {
        retry_after
    } else {
        None
    };
    Error::Api(
        Box::new(
            ApiError { status, kind, error_type, message, param, request_id, retry_after, body },
        ),
    )
}

impl Error {
    /// What `Display` writes for this error.
    pub open spec fn display(&self) -> Seq<char> {
        match self {
            Error::Api(e) => match e.param {
                Some(param) => "zazu: "@ + e.message@ + " ("@ + spec_decimal(e.status as nat) + " "@
                    + kind_name(e.kind) + ", param "@ + param@ + ")"@,
                None => "zazu: "@ + e.message@ + " ("@ + spec_decimal(e.status as nat) + " "@
                    + kind_name(e.kind) + ")"@,
            },
            Error::Configuration(message) => "zazu: "@ + message@,
            Error::Connection(message) => "zazu: connection error: "@ + message@,
        }
    }

    /// Renders the error as `Display` does: `zazu: <message> (<status>
    /// <kind>[, param <param>])` for API errors, `zazu: <message>` for
    /// configuration errors and `zazu: connection error: <message>` for
    /// transport failures.
    pub fn to_string(&self) -> (s: String)
        ensures
            s@ == self.display(),
    {
        match self {
            Error::Api(e) => {
                let mut s = String::from_str("zazu: ");
                s.append(e.message.as_str());
                s.append(" (");
                let status = decimal(e.status as u64);
                s.append(status.as_str());
                s.append(" ");
                s.append(e.kind.as_str());
                match &e.param {
                    Some(param) => {
                        s.append(", param ");
                        s.append(param.as_str());
                    },
                    None => {},
                }
                s.append(")");
                s
            },
            Error::Configuration(message) => {
                let mut s = String::from_str("zazu: ");
                s.append(message.as_str());
                s
            },
            Error::Connection(message) => {
                let mut s = String::from_str("zazu: connection error: ");
                s.append(message.as_str());
                s
            },
        }
    }
}

/// Different kinds have different wire names, so a kind is recovered from
/// its name.
pub proof fn lemma_kind_names_distinct(a: ErrorKind, b: ErrorKind)
    requires
        kind_name(a) == kind_name(b),
    ensures
        a == b,
{
    reveal_strlit("authentication");
    reveal_strlit("forbidden");
    reveal_strlit("not_found");
    reveal_strlit("validation");
    reveal_strlit("rate_limit");
    reveal_strlit("server");
    reveal_strlit("api");
    assert("authentication"@[0] == 'a' && "authentication"@.len() == 14);
    assert("forbidden"@[0] == 'f' && "forbidden"@.len() == 9);
    assert("not_found"@[0] == 'n' && "not_found"@.len() == 9);
    assert("validation"@[0] == 'v' && "validation"@.len() == 10);
    assert("rate_limit"@[0] == 'r' && "rate_limit"@.len() == 10);
    assert("server"@[0] == 's' && "server"@.len() == 6);
    assert("api"@[0] == 'a' && "api"@.len() == 3);
}

/// An API error carries a `Retry-After` delay only when it is a
/// `rate_limit` error.
pub proof fn lemma_retry_after_only_for_rate_limit(
    e: ApiError,
    status: u16,
    request_id: Option<String>,
    retry_after: Option<u64>,
    body: JsonValue,
)
    requires
        api_error_from(e, status, request_id, retry_after, body),
    ensures
        e.retry_after is Some ==> e.kind == ErrorKind::RateLimit,
        e.kind == ErrorKind::RateLimit ==> e.retry_after == retry_after,
{
}

impl Clone for ApiError {
    fn clone(&self) -> (r: Self)
        ensures
            r.status == self.status,
            r.kind == self.kind,
            r.error_type == self.error_type,
            r.message == self.message,
            r.param == self.param,
            r.request_id == self.request_id,
            r.retry_after == self.retry_after,
            r.body.model() == self.body.model(),
    {
        ApiError {
            status: self.status,
            kind: self.kind,
            error_type: crate::client::clone_opt_string(&self.error_type),
            message: self.message.clone(),
            param: crate::client::clone_opt_string(&self.param),
            request_id: crate::client::clone_opt_string(&self.request_id),
            retry_after: self.retry_after,
            body: self.body.deep_clone(),
        }
    }
}

/// How a non-2xx status is classified, with the ranges written out: every
/// 5xx status (500 through 599) is `Server`; 401, 403, 404, 422 and 429 are
/// `Authentication`, `Forbidden`, `NotFound`, `Validation` and `RateLimit`;
/// every other status (600 and above included) is `Api`.
pub proof fn law_status_kinds(status: u16)
    ensures
        500 <= status <= 599 ==> kind_of_status(status) == ErrorKind::Server,
        status == 401 ==> kind_of_status(status) == ErrorKind::Authentication,
        status == 403 ==> kind_of_status(status) == ErrorKind::Forbidden,
        status == 404 ==> kind_of_status(status) == ErrorKind::NotFound,
        status == 422 ==> kind_of_status(status) == ErrorKind::Validation,
        status == 429 ==> kind_of_status(status) == ErrorKind::RateLimit,
        !(500 <= status <= 599) && status != 401 && status != 403 && status != 404 && status != 422
            && status != 429 ==> kind_of_status(status) == ErrorKind::Api,
        kind_of_status(status) == ErrorKind::Server <==> 500 <= status <= 599,
{
}

} // verus!
