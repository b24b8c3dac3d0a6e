//! What a login leaves in the session, and what the server tells the caller.
//! The session cookie itself is signed and carried by the HTTP layer.

use vstd::prelude::*;
use crate::credentials::Credentials;
use crate::database::DBError;

verus! {

/// The payload kept when a principal could not be serialised: it reads back
/// as no session at all, never as a partial identity.
pub const NULL_IDENTITY: &'static str = "null";

/// The cookie payload for a principal, given its serialised form if
/// serialisation succeeded.
pub fn session_payload(serialized: Option<String>) -> (r: String)
    ensures
        match serialized {
            Some(s) => r == s,
            None => r@ == NULL_IDENTITY@,
        },
{
    match serialized {
        Some(s) => s,
        None => String::from_str(NULL_IDENTITY),
    }
}

/// What a login request ends in: the principal to remember, if any, and the
/// message for the caller.
#[derive(Clone, Debug, PartialEq, Eq)]
pub struct LoginOutcome {
    pub remember: Option<Credentials>,
    pub msg: String,
}

/// A successful login remembers its principal and passes on the datastore's
/// greeting; a failed one remembers nothing and says why, without internal
/// detail.
pub fn login_outcome(result: Result<(Credentials, String), DBError>) -> (r: LoginOutcome)
    ensures
        match result {
            Ok((credentials, msg)) => r.remember == Some(credentials) && r.msg == msg,
            Err(e) => r.remember is None && r.msg@ == e.spec_client_message(),
        },
{
    match result {
        Ok((credentials, msg)) => LoginOutcome { remember: Some(credentials), msg },
        Err(e) => LoginOutcome { remember: None, msg: e.client_message() },
    }
}

/// How the greeting names a caller without a session.
pub const UNKNOWN_CALLER: &'static str = "idk";

/// The reply of the liveness probe: `{greeting}: {who}`, or the failure.
pub fn hello_message(answer: Result<String, DBError>, identity: Option<String>) -> (r: String)
    ensures
        match answer {
            Ok(greeting) => r@ == greeting@ + ": "@ + match identity {
                Some(who) => who@,
                None => UNKNOWN_CALLER@,
            },
            Err(e) => r@ == e.spec_client_message(),
        },
{
    match answer {
        Ok(greeting) => {
            let mut msg = greeting;
            msg.append(": ");
            match identity {
                Some(who) => msg.append(who.as_str()),
                None => msg.append(UNKNOWN_CALLER),
            }
            msg
        },
        Err(e) => e.client_message(),
    }
}

} // verus!
