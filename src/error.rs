use vstd::prelude::*;

verus! {

/// The kinds of failure that the flows and the access gate report.
#[derive(Debug, Clone, Copy, PartialEq, Eq, Structural)]
pub enum ErrorKind {
    BadRequest,
    Unauthorized,
    Conflict,
    InternalError,
}

impl ErrorKind {
    /// The HTTP status code that carries this kind of failure.
    pub open spec fn spec_status(self) -> u16 {
        match self {
            ErrorKind::BadRequest => 400,
            ErrorKind::Unauthorized => 401,
            ErrorKind::Conflict => 409,
            ErrorKind::InternalError => 500,
        }
    }

    pub fn status_code(&self) -> (r: u16)
        ensures
            r == self.spec_status(),
    {
        match self {
            ErrorKind::BadRequest => 400,
            ErrorKind::Unauthorized => 401,
            ErrorKind::Conflict => 409,
            ErrorKind::InternalError => 500,
        }
    }
}

/// A failure with its user-facing message.
#[derive(Debug, Clone)]
pub struct AuthError {
    pub kind: ErrorKind,
    pub message: String,
}

impl AuthError {
    pub fn new(kind: ErrorKind, message: &str) -> (r: AuthError)
        ensures
            r.kind == kind,
            r.message@ == message@,
    {
        AuthError { kind, message: message.to_owned() }
    }

    /// The body sent to the client: status "fail" and the message.
    pub fn to_response(&self) -> (r: ErrorResponse)
        ensures
            r.status@ == "fail"@,
            r.message@ == self.message@,
    {
        ErrorResponse { status: "fail", message: self.message.clone() }
    }
}

/// The JSON error body shared by every kind of failure.
#[derive(Debug, Clone)]
pub struct ErrorResponse {
    pub status: &'static str,
    pub message: String,
}

/// Message of a request to a protected route that carries no bearer token.
pub const MSG_MUST_LOGIN: &'static str = "You have to login to access this site";

/// Message of a valid token whose subject is no longer in the store.
pub const MSG_USER_GONE: &'static str = "The user belonging to this token no longer exists";

/// Message of a token whose expiry time has passed.
pub const MSG_EXPIRED: &'static str = "ExpiredSignature";

/// Message of a token whose claims are not those this library issues.
pub const MSG_BAD_CLAIMS: &'static str = "InvalidToken";

/// Message of a registration with an email that is already taken.
pub const MSG_EMAIL_TAKEN: &'static str = "User with that email already exists";

/// Message of a failed login, the same whether the email or the password was wrong.
pub const MSG_BAD_CREDENTIALS: &'static str = "Invalid email or password";

/// Message of a failure inside the password hasher.
pub const MSG_HASH_FAILED: &'static str = "Error while hashing password";

/// Message of a login at a time whose token expiry would not fit.
pub const MSG_CLOCK_RANGE: &'static str = "Server clock is out of range";

/// Message of a store that has run out of user ids.
pub const MSG_IDS_EXHAUSTED: &'static str = "No user id is left to assign";

} // verus!
