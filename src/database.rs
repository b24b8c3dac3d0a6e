//! The credential gateway: what the datastore's authentication, registration
//! and confirmation procedures answered, turned into typed results.

use vstd::prelude::*;
use crate::credentials::{Credentials, Login};

verus! {

/// Relies on r2d2's error for a connection that could not be checked out of
/// the pool; it is carried, never inspected.
#[verifier::external_type_specification]
#[verifier::external_body]
pub struct ExPoolError(r2d2::Error);

/// Relies on tokio-postgres's error for a query the datastore rejected; it is
/// carried, never inspected.
#[verifier::external_type_specification]
#[verifier::external_body]
pub struct ExQueryError(tokio_postgres::Error);

/// Why a datastore operation failed.
#[derive(Debug)]
pub enum DBError {
    /// No connection could be had from the pool: an infrastructure failure,
    /// worth retrying.
    PoolError(r2d2::Error),
    /// The datastore refused the call itself: a programming or schema error.
    TokioPostgresError(tokio_postgres::Error),
    /// The procedure rejected the request; the message is meant for the user.
    AuthenticationError(String),
    /// The datastore answered in a shape the gateway cannot use.
    OtherError(String),
}

/// What a user is told when no datastore connection could be had.
pub const POOL_FAILURE_MESSAGE: &'static str = "The service is busy, please try again later.";

/// What a user is told when a datastore call failed for an internal reason.
pub const INTERNAL_FAILURE_MESSAGE: &'static str = "Something went wrong on our side.";

/// The detail kept when a successful login came without a role set.
pub const MISSING_ROLES_MESSAGE: &'static str = "authentication succeeded without a role set";

/// The detail kept when a successful registration came without an invitation.
pub const MISSING_INVITATION_MESSAGE: &'static str = "registration succeeded without an invitation";

impl DBError {
    /// The text a user may see for this failure: the procedure's own message
    /// for a rejection, a fixed one otherwise, so that no query text or
    /// internal detail reaches the client.
    pub open spec fn spec_client_message(&self) -> Seq<char> {
        match self {
            DBError::AuthenticationError(m) => m@,
            DBError::PoolError(_) => POOL_FAILURE_MESSAGE@,
            _ => INTERNAL_FAILURE_MESSAGE@,
        }
    }

    pub fn client_message(&self) -> (r: String)
        ensures
            r@ == self.spec_client_message(),
    {
        match self {
            DBError::AuthenticationError(m) => m.clone(),
            DBError::PoolError(_) => String::from_str(POOL_FAILURE_MESSAGE),
            _ => String::from_str(INTERNAL_FAILURE_MESSAGE),
        }
    }

    /// Only a pool failure is worth retrying.
    pub fn is_retryable(&self) -> (r: bool)
        ensures
            r == self is PoolError,
    {
        match self {
            DBError::PoolError(_) => true,
            _ => false,
        }
    }
}

/// The row of the `authenticate(username, password)` procedure.
pub struct AuthenticateAnswer {
    pub success: bool,
    pub message: String,
    pub roles: Option<Vec<i32>>,
}

/// The row of the `register(username, password, confirm)` procedure.
pub struct RegisterAnswer {
    pub success: bool,
    pub message: String,
    pub invitation: Option<String>,
}

/// The row of the `confirm(invitation)` procedure.
pub struct ConfirmAnswer {
    pub success: bool,
    pub message: String,
}

/// The principal and greeting of a login, or why it failed.
pub fn authenticate(info: Login, answer: Result<AuthenticateAnswer, DBError>) -> (r: Result<
    (Credentials, String),
    DBError,
>)
    ensures
        match answer {
            Err(e) => r == Err::<(Credentials, String), DBError>(e),
            Ok(a) => if !a.success {
                r == Err::<(Credentials, String), DBError>(DBError::AuthenticationError(a.message))
            } else {
                match a.roles {
                    Some(roles) => r is Ok && r->Ok_0.0.username == info.username
                        && r->Ok_0.0.roles == roles && r->Ok_0.1 == a.message,
                    None => r is Err && r->Err_0 is OtherError
                        && r->Err_0->OtherError_0@ == MISSING_ROLES_MESSAGE@,
                }
            },
        },
{
    match answer {
        Err(e) => Err(e),
        Ok(a) => if !a.success {
            Err(DBError::AuthenticationError(a.message))
        } else {
            match a.roles {
                Some(roles) => Ok((Credentials { username: info.username, roles }, a.message)),
                None => Err(DBError::OtherError(String::from_str(MISSING_ROLES_MESSAGE))),
            }
        },
    }
}

/// The invitation code of a registration, or why it failed.
pub fn register(answer: Result<RegisterAnswer, DBError>) -> (r: Result<String, DBError>)
    ensures
        match answer {
            Err(e) => r == Err::<String, DBError>(e),
            Ok(a) => if !a.success {
                r == Err::<String, DBError>(DBError::AuthenticationError(a.message))
            } else {
                match a.invitation {
                    Some(code) => r == Ok::<String, DBError>(code),
                    None => r is Err && r->Err_0 is OtherError
                        && r->Err_0->OtherError_0@ == MISSING_INVITATION_MESSAGE@,
                }
            },
        },
{
    match answer {
        Err(e) => Err(e),
        Ok(a) => if !a.success {
            Err(DBError::AuthenticationError(a.message))
        } else {
            match a.invitation {
                Some(code) => Ok(code),
                None => Err(DBError::OtherError(String::from_str(MISSING_INVITATION_MESSAGE))),
            }
        },
    }
}

/// What a confirmation comes to: the datastore's message when it accepted
/// the token, an authentication failure carrying its reason when it did not
/// (whether the token is unknown, expired or already used).
pub open spec fn confirmation_of(answer: Result<ConfirmAnswer, DBError>) -> Result<String, DBError> {
    match answer {
        Err(e) => Err(e),
        Ok(a) => if a.success {
            Ok(a.message)
        } else {
            Err(DBError::AuthenticationError(a.message))
        },
    }
}

/// The message of an account confirmation, or why it failed.
pub fn confirm(answer: Result<ConfirmAnswer, DBError>) -> (r: Result<String, DBError>)
    ensures
        r == confirmation_of(answer),
{
    match answer {
        Err(e) => Err(e),
        Ok(a) => if a.success {
            Ok(a.message)
        } else {
            Err(DBError::AuthenticationError(a.message))
        },
    }
}

} // verus!
