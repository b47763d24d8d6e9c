//! The kinds of failure, and what each of them lets a caller see.

use vstd::prelude::*;

verus! {

/// Why an operation on the user store failed.
#[derive(Clone, Copy, Debug, PartialEq, Eq, Structural)]
pub enum Error {
    /// The request had an empty email or an empty password.
    InvalidInput,
    /// A user with this email exists already.
    EmailAlreadyExists,
    /// No user is stored under the email.
    NotFound,
    /// The password does not belong to the stored hash record.
    InvalidCredentials,
    /// A stored hash record could not be parsed.
    InvalidHashFormat,
    /// The hashing algorithm reported an error.
    HashingFailure,
    /// The persistence engine failed for any other reason.
    StorageFailure,
}

/// What a caller outside the service is told about a failure.
///
/// Both ways in which a login can fail fall into one class, so that a reply
/// never reveals whether an email is registered.
#[derive(Clone, Copy, Debug, PartialEq, Eq, Structural)]
pub enum Rejection {
    /// The request was malformed.
    InvalidRequest,
    /// The request conflicts with a user that exists.
    Conflict,
    /// The email and password were not accepted together.
    AuthenticationFailed,
    /// The service failed; the request may be sent again.
    Internal,
}

impl Rejection {
    /// The sanitized text that goes with the class.
    pub open spec fn message_spec(self) -> Seq<char> {
        match self {
            Rejection::InvalidRequest => "email and password must not be empty"@,
            Rejection::Conflict => "email is already registered"@,
            Rejection::AuthenticationFailed => "authentication failed"@,
            Rejection::Internal => "internal error"@,
        }
    }

    /// The status that a transport reports for the class.
    pub open spec fn status_spec(self) -> u16 {
        match self {
            Rejection::InvalidRequest => 400,
            Rejection::Conflict => 409,
            Rejection::AuthenticationFailed => 401,
            Rejection::Internal => 500,
        }
    }

    /// The sanitized text that goes with the class. It names no email, no
    /// password and no internal detail.
    pub fn message(&self) -> (text: &'static str)
        ensures
            text@ == self.message_spec(),
    {
        match self {
            Rejection::InvalidRequest => "email and password must not be empty",
            Rejection::Conflict => "email is already registered",
            Rejection::AuthenticationFailed => "authentication failed",
            Rejection::Internal => "internal error",
        }
    }

    /// The status that a transport reports for the class.
    pub fn status(&self) -> (code: u16)
        ensures
            code == self.status_spec(),
    {
        match self {
            Rejection::InvalidRequest => 400,
            Rejection::Conflict => 409,
            Rejection::AuthenticationFailed => 401,
            Rejection::Internal => 500,
        }
    }
}

impl Error {
    /// Whether the failure is one of the two ways in which a login fails.
    pub open spec fn is_login_failure_spec(self) -> bool {
        self == Error::NotFound || self == Error::InvalidCredentials
    }

    /// The class under which the failure is shown to a caller.
    pub open spec fn rejection_spec(self) -> Rejection {
        match self {
            Error::InvalidInput => Rejection::InvalidRequest,
            Error::EmailAlreadyExists => Rejection::Conflict,
            Error::NotFound => Rejection::AuthenticationFailed,
            Error::InvalidCredentials => Rejection::AuthenticationFailed,
            Error::InvalidHashFormat => Rejection::Internal,
            Error::HashingFailure => Rejection::Internal,
            Error::StorageFailure => Rejection::Internal,
        }
    }

    /// Whether the failure is one of the two ways in which a login fails.
    pub fn is_login_failure(&self) -> (yes: bool)
        ensures
            yes == self.is_login_failure_spec(),
    {
        match self {
            Error::NotFound => true,
            Error::InvalidCredentials => true,
            _ => false,
        }
    }

    /// The class under which the failure is shown to a caller.
    pub fn rejection(&self) -> (class: Rejection)
        ensures
            class == self.rejection_spec(),
    {
        match self {
            Error::InvalidInput => Rejection::InvalidRequest,
            Error::EmailAlreadyExists => Rejection::Conflict,
            Error::NotFound => Rejection::AuthenticationFailed,
            Error::InvalidCredentials => Rejection::AuthenticationFailed,
            Error::InvalidHashFormat => Rejection::Internal,
            Error::HashingFailure => Rejection::Internal,
            Error::StorageFailure => Rejection::Internal,
        }
    }

    /// The text shown to a caller for the failure.
    pub fn message(&self) -> (text: String)
        ensures
            text@ == self.rejection_spec().message_spec(),
    {
        self.rejection().message().to_owned()
    }
}

/// A failed login looks the same from outside whichever half of the email and
/// password pair was wrong: both kinds fall into one class, and only those two
/// fall into it.
pub proof fn lemma_login_failures_look_alike(e: Error)
    ensures
        e.is_login_failure_spec() <==> e.rejection_spec() == Rejection::AuthenticationFailed,
        Error::NotFound.rejection_spec() == Error::InvalidCredentials.rejection_spec(),
        Error::NotFound.rejection_spec().message_spec()
            == Error::InvalidCredentials.rejection_spec().message_spec(),
{
}

} // verus!
