//! Shared value types: the error taxonomy, the backend error body and its
//! mapping onto service errors, and the small result objects returned to the
//! schema layer.
use vstd::prelude::*;

verus! {

/// The closed set of errors that the gateway reports to its callers.
#[derive(Debug, Clone, PartialEq, Eq)]
pub enum ServiceError {
    InvalidContent,
    TooManyAttempts,
    Forbidden,
    IncorrectLogin,
    /// The caller must finish signing up; carries the continuation session id.
    RedirectToSignup { session_id: String, nickname: Option<String> },
    Unknown,
}

/// The error kind that a backend status code stands for, when no signup
/// session accompanies it.
pub open spec fn error_for_code(code: u16) -> ServiceError {
    if code == 401 {
        ServiceError::IncorrectLogin
    } else if code == 422 {
        ServiceError::InvalidContent
    } else if code == 429 {
        ServiceError::TooManyAttempts
    } else if code == 403 {
        ServiceError::Forbidden
    } else {
        ServiceError::Unknown
    }
}

/// The structured error body that every backend service answers with.
pub struct ErrorResponse {
    pub code: u16,
    pub error: String,
    pub message: String,
    pub detail: Option<String>,
    pub session_id: Option<String>,
    pub nickname: Option<String>,
}

impl ErrorResponse {
    /// The service error this body stands for: a present session id asks for
    /// signup whatever the code says; otherwise the code decides.
    pub open spec fn as_service_error(self) -> ServiceError {
        match self.session_id {
            Some(sid) => ServiceError::RedirectToSignup { session_id: sid, nickname: self.nickname },
            None => error_for_code(self.code),
        }
    }

    pub fn into_service_error(self) -> (r: ServiceError)
        ensures
            r == self.as_service_error(),
            self.session_id is Some ==> r is RedirectToSignup,
    {
        if let Some(sid) = self.session_id {
            return ServiceError::RedirectToSignup { session_id: sid, nickname: self.nickname };
        }
        match self.code {
            401 => ServiceError::IncorrectLogin,
            422 => ServiceError::InvalidContent,
            429 => ServiceError::TooManyAttempts,
            403 => ServiceError::Forbidden,
            _ => ServiceError::Unknown,
        }
    }
}

impl ServiceError {
    /// The discriminant that the schema layer reports as the error's `type`.
    pub open spec fn kind_spec(&self) -> Seq<char> {
        match self {
            ServiceError::InvalidContent => "InvalidContent"@,
            ServiceError::TooManyAttempts => "TooManyAttempts"@,
            ServiceError::Forbidden => "Forbidden"@,
            ServiceError::IncorrectLogin => "IncorrectLogin"@,
            ServiceError::RedirectToSignup { .. } => "RedirectToSignup"@,
            ServiceError::Unknown => "Unknown"@,
        }
    }

    pub fn kind(&self) -> (r: &'static str)
        ensures
            r@ == self.kind_spec(),
    {
        match self {
            ServiceError::InvalidContent => "InvalidContent",
            ServiceError::TooManyAttempts => "TooManyAttempts",
            ServiceError::Forbidden => "Forbidden",
            ServiceError::IncorrectLogin => "IncorrectLogin",
            ServiceError::RedirectToSignup { .. } => "RedirectToSignup",
            ServiceError::Unknown => "Unknown",
        }
    }

    /// The human-readable description of the error.
    pub open spec fn description_spec(&self) -> Seq<char> {
        match self {
            ServiceError::InvalidContent => "Invalid form content"@,
            ServiceError::TooManyAttempts => "Too many attempts"@,
            ServiceError::Forbidden => "Forbidden"@,
            ServiceError::IncorrectLogin => "Incorrect login"@,
            ServiceError::RedirectToSignup { .. } => "Redirect to signup"@,
            ServiceError::Unknown => "Unknown Internal Error"@,
        }
    }

    pub fn description(&self) -> (r: &'static str)
        ensures
            r@ == self.description_spec(),
    {
        match self {
            ServiceError::InvalidContent => "Invalid form content",
            ServiceError::TooManyAttempts => "Too many attempts",
            ServiceError::Forbidden => "Forbidden",
            ServiceError::IncorrectLogin => "Incorrect login",
            ServiceError::RedirectToSignup { .. } => "Redirect to signup",
            ServiceError::Unknown => "Unknown Internal Error",
        }
    }

    /// The message of the GraphQL field error that reports this error.
    pub open spec fn field_message_spec(&self) -> Seq<char> {
        match self {
            ServiceError::InvalidContent => "InvalidContent"@,
            ServiceError::TooManyAttempts => "TooManyAttempts"@,
            ServiceError::Forbidden => "Operation Forbideen"@,
            ServiceError::IncorrectLogin => "Incorrect login"@,
            ServiceError::RedirectToSignup { .. } => "RedirectToSignup"@,
            ServiceError::Unknown => "Internal Server Error"@,
        }
    }

    pub fn field_message(&self) -> (r: &'static str)
        ensures
            r@ == self.field_message_spec(),
    {
        match self {
            ServiceError::InvalidContent => "InvalidContent",
            ServiceError::TooManyAttempts => "TooManyAttempts",
            ServiceError::Forbidden => "Operation Forbideen",
            ServiceError::IncorrectLogin => "Incorrect login",
            ServiceError::RedirectToSignup { .. } => "RedirectToSignup",
            ServiceError::Unknown => "Internal Server Error",
        }
    }
}

/// A backend error body that carries a session id always asks for signup,
/// whatever its status code, and hands on the session id and nickname.
pub proof fn lemma_signup_overrides_code(e: ErrorResponse)
    requires
        e.session_id is Some,
    ensures
        e.as_service_error() == (ServiceError::RedirectToSignup {
            session_id: e.session_id->Some_0,
            nickname: e.nickname,
        }),
        forall|code: u16| (ErrorResponse { code, ..e }).as_service_error() == e.as_service_error(),
{
}

/// Without a session id the status code alone decides, and every code has
/// exactly one kind: 401 incorrect login, 422 invalid content, 429 too many
/// attempts, 403 forbidden, any other code unknown.
pub proof fn lemma_code_mapping(e: ErrorResponse)
    requires
        e.session_id is None,
    ensures
        e.code == 401 <==> e.as_service_error() == ServiceError::IncorrectLogin,
        e.code == 422 <==> e.as_service_error() == ServiceError::InvalidContent,
        e.code == 429 <==> e.as_service_error() == ServiceError::TooManyAttempts,
        e.code == 403 <==> e.as_service_error() == ServiceError::Forbidden,
        (e.code != 401 && e.code != 422 && e.code != 429 && e.code != 403) <==> e.as_service_error()
            == ServiceError::Unknown,
        !(e.as_service_error() is RedirectToSignup),
{
}

/// What came back from one outbound backend call, as the transport saw it.
pub enum BackendReply<T> {
    /// No response: connection refused, timeout, or a broken exchange.
    TransportFailed,
    /// A success status; `None` when the body did not decode as expected.
    Success(Option<T>),
    /// A non-success status; `None` when the body was not an error body.
    Failure(Option<ErrorResponse>),
}

/// The result that a backend reply stands for.
pub open spec fn reply_outcome<T>(reply: BackendReply<T>) -> Result<T, ServiceError> {
    match reply {
        BackendReply::Success(Some(v)) => Ok(v),
        BackendReply::Failure(Some(e)) => Err(e.as_service_error()),
        _ => Err(ServiceError::Unknown),
    }
}

/// Turns the reply of one backend call into a typed result or the service
/// error its body stands for. Transport failures and undecodable bodies
/// collapse to `Unknown`.
pub fn settle_reply<T>(reply: BackendReply<T>) -> (r: Result<T, ServiceError>)
    ensures
        r == reply_outcome(reply),
{
    match reply {
        BackendReply::Success(Some(v)) => Ok(v),
        BackendReply::Failure(Some(e)) => Err(e.into_service_error()),
        _ => Err(ServiceError::Unknown),
    }
}

/// The answer of a backend call whose body carries nothing.
#[derive(Debug, Clone, Copy, PartialEq, Eq)]
pub struct EmptyJSON {}

impl EmptyJSON {
    pub fn new() -> (r: EmptyJSON)
        ensures
            r == (EmptyJSON {}),
    {
        EmptyJSON {}
    }
}

/// The acknowledgement of a backend call that answers with an empty body:
/// `true` on success, the mapped error otherwise.
pub fn settle_acknowledgement(reply: BackendReply<EmptyJSON>) -> (r: Result<bool, ServiceError>)
    ensures
        r == match reply_outcome(reply) {
            Ok(_) => Ok::<bool, ServiceError>(true),
            Err(e) => Err(e),
        },
{
    match settle_reply(reply) {
        Ok(_) => Ok(true),
        Err(e) => Err(e),
    }
}

/// A message with auxiliary text.
#[derive(Debug, Clone, PartialEq, Eq)]
pub struct Error {
    pub msg: String,
    pub aux: String,
}

/// The custom claim carried by a vote token.
#[derive(Debug, Clone, PartialEq, Eq)]
pub struct VoteTokenClaim {
    /// Vote identifier, of the form `thvote-{YYYY}-{phone|email}-{ID}`.
    pub vote_id: Option<String>,
}

/// The answer of the submission endpoints.
#[derive(Debug, Clone, PartialEq, Eq)]
pub struct PostResult {
    pub code: i32,
    pub message: String,
}

impl PostResult {
    /// The placeholder result: code 0 and message `none`.
    pub fn new() -> (r: PostResult)
        ensures
            r.code == 0,
            r.message@ == "none"@,
    {
        PostResult { code: 0, message: "none".to_owned() }
    }
}

#[derive(Debug, Clone, Copy, PartialEq, Eq)]
pub enum VoteSection {
    Characters,
    Musics,
    CPs,
    Works,
    Papers,
}

#[derive(Debug, Clone, Copy, PartialEq, Eq)]
pub enum FilterConditionOp {
    Equ,
    Neq,
    Gt,
    Gte,
    Lt,
    Lte,
    Contains,
}

} // verus!
