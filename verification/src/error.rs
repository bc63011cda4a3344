//! The failure taxonomy of the services and what each failure shows a caller.

use vstd::prelude::*;

verus! {

/// Why a session token was refused.
#[derive(Debug, Clone, Copy, PartialEq, Eq, Structural)]
pub enum TokenFault {
    /// Bad signature, unreadable structure or a missing claim.
    Invalid,
    /// The expiry instant has been reached.
    Expired,
    /// The subject claim is not an identifier.
    MalformedSubject,
}

/// A typed failure of a request.
#[derive(Debug, Clone)]
pub enum AppError {
    DatabaseError(String),
    ValidationError(String),
    AuthenticationError(String),
    TokenError(TokenFault),
    NotFound(String),
    Conflict(String),
    InternalError(String),
    Unauthorized(String),
    Forbidden(String),
}

/// Mathematical value of an [`AppError`]: the variant with its text.
pub enum Failure {
    Database(Seq<char>),
    Validation(Seq<char>),
    Authentication(Seq<char>),
    Token(TokenFault),
    NotFound(Seq<char>),
    Conflict(Seq<char>),
    Internal(Seq<char>),
    Unauthorized(Seq<char>),
    Forbidden(Seq<char>),
}

impl View for AppError {
    type V = Failure;

    open spec fn view(&self) -> Failure {
        match self {
            AppError::DatabaseError(m) => Failure::Database(m@),
            AppError::ValidationError(m) => Failure::Validation(m@),
            AppError::AuthenticationError(m) => Failure::Authentication(m@),
            AppError::TokenError(t) => Failure::Token(*t),
            AppError::NotFound(m) => Failure::NotFound(m@),
            AppError::Conflict(m) => Failure::Conflict(m@),
            AppError::InternalError(m) => Failure::Internal(m@),
            AppError::Unauthorized(m) => Failure::Unauthorized(m@),
            AppError::Forbidden(m) => Failure::Forbidden(m@),
        }
    }
}

/// HTTP status class of a failure.
pub open spec fn status_of(f: Failure) -> int {
    match f {
        Failure::Database(_) => 500,
        Failure::Validation(_) => 400,
        Failure::Authentication(_) => 401,
        Failure::Token(_) => 401,
        Failure::NotFound(_) => 404,
        Failure::Conflict(_) => 409,
        Failure::Internal(_) => 500,
        Failure::Unauthorized(_) => 401,
        Failure::Forbidden(_) => 403,
    }
}

/// The message a caller is shown. Storage and internal faults show a fixed
/// text, and every token fault shows the same one.
pub open spec fn shown_message(f: Failure) -> Seq<char> {
    match f {
        Failure::Database(_) => "Database error occurred"@,
        Failure::Validation(m) => m,
        Failure::Authentication(m) => m,
        Failure::Token(_) => "Invalid or expired token"@,
        Failure::NotFound(m) => m,
        Failure::Conflict(m) => m,
        Failure::Internal(_) => "Internal server error"@,
        Failure::Unauthorized(m) => m,
        Failure::Forbidden(m) => m,
    }
}

/// Name of a token fault in the server-side description of a failure.
pub open spec fn fault_name(t: TokenFault) -> Seq<char> {
    match t {
        TokenFault::Invalid => "InvalidToken"@,
        TokenFault::Expired => "ExpiredSignature"@,
        TokenFault::MalformedSubject => "InvalidSubject"@,
    }
}

/// Full server-side description of a failure: a prefix for the kind, then the
/// detail.
pub open spec fn description(f: Failure) -> Seq<char> {
    match f {
        Failure::Database(m) => "Database error: "@ + m,
        Failure::Validation(m) => "Validation error: "@ + m,
        Failure::Authentication(m) => "Authentication failed: "@ + m,
        Failure::Token(t) => "Token error: "@ + fault_name(t),
        Failure::NotFound(m) => "Resource not found: "@ + m,
        Failure::Conflict(m) => "Resource already exists: "@ + m,
        Failure::Internal(m) => "Internal server error: "@ + m,
        Failure::Unauthorized(m) => "Unauthorized: "@ + m,
        Failure::Forbidden(m) => "Forbidden: "@ + m,
    }
}

/// Whether a failure's detail must stay on the server.
pub open spec fn is_server_fault(f: Failure) -> bool {
    f is Database || f is Internal
}

impl TokenFault {
    /// Name of this fault in the server-side description.
    pub fn name(&self) -> (text: &'static str)
        ensures
            text@ == fault_name(*self),
    {
        match self {
            TokenFault::Invalid => "InvalidToken",
            TokenFault::Expired => "ExpiredSignature",
            TokenFault::MalformedSubject => "InvalidSubject",
        }
    }
}

impl AppError {
    /// HTTP status code answered for this failure.
    pub fn status_code(&self) -> (code: u16)
        ensures
            code == status_of(self@),
    {
        match self {
            AppError::DatabaseError(_) => 500,
            AppError::ValidationError(_) => 400,
            AppError::AuthenticationError(_) => 401,
            AppError::TokenError(_) => 401,
            AppError::NotFound(_) => 404,
            AppError::Conflict(_) => 409,
            AppError::InternalError(_) => 500,
            AppError::Unauthorized(_) => 401,
            AppError::Forbidden(_) => 403,
        }
    }

    /// The message placed in the response body.
    pub fn public_message(&self) -> (text: String)
        ensures
            text@ == shown_message(self@),
    {
        match self {
            AppError::DatabaseError(_) => "Database error occurred".to_owned(),
            AppError::ValidationError(m) => m.clone(),
            AppError::AuthenticationError(m) => m.clone(),
            AppError::TokenError(_) => "Invalid or expired token".to_owned(),
            AppError::NotFound(m) => m.clone(),
            AppError::Conflict(m) => m.clone(),
            AppError::InternalError(_) => "Internal server error".to_owned(),
            AppError::Unauthorized(m) => m.clone(),
            AppError::Forbidden(m) => m.clone(),
        }
    }

    /// Whether the detail of this failure is to be logged rather than shown.
    pub fn is_logged(&self) -> (logged: bool)
        ensures
            logged == is_server_fault(self@),
    {
        match self {
            AppError::DatabaseError(_) => true,
            AppError::InternalError(_) => true,
            _ => false,
        }
    }

    /// Full description of this failure, for the server's log.
    pub fn to_text(&self) -> (text: String)
        ensures
            text@ == description(self@),
    {
        match self {
            AppError::DatabaseError(m) => "Database error: ".to_owned().concat(m.as_str()),
            AppError::ValidationError(m) => "Validation error: ".to_owned().concat(m.as_str()),
            AppError::AuthenticationError(m) => "Authentication failed: ".to_owned().concat(
                m.as_str(),
            ),
            AppError::TokenError(t) => "Token error: ".to_owned().concat(t.name()),
            AppError::NotFound(m) => "Resource not found: ".to_owned().concat(m.as_str()),
            AppError::Conflict(m) => "Resource already exists: ".to_owned().concat(m.as_str()),
            AppError::InternalError(m) => "Internal server error: ".to_owned().concat(
                m.as_str(),
            ),
            AppError::Unauthorized(m) => "Unauthorized: ".to_owned().concat(m.as_str()),
            AppError::Forbidden(m) => "Forbidden: ".to_owned().concat(m.as_str()),
        }
    }
}

/// What a caller can observe of a failure: the status code and the message of
/// the response body.
pub open spec fn response_of(f: Failure) -> (int, Seq<char>) {
    (status_of(f), shown_message(f))
}

/// Every refused token is answered alike: status 401 and one fixed message,
/// whichever fault was found.
pub proof fn lemma_token_faults_indistinguishable(a: TokenFault, b: TokenFault)
    ensures
        response_of(Failure::Token(a)) == response_of(Failure::Token(b)),
        status_of(Failure::Token(a)) == 401,
{
}

/// The detail of a storage or internal fault never reaches the caller.
pub proof fn lemma_server_faults_hide_detail(f: Failure, g: Failure)
    requires
        (f is Database && g is Database) || (f is Internal && g is Internal),
    ensures
        response_of(f) == response_of(g),
        status_of(f) == 500,
{
}

} // verus!
