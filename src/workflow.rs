//! Registration and confirmation of an account. The account moves from
//! unregistered, to pending confirmation once the datastore has registered
//! it, to active once its invitation is confirmed. Each step is decided here
//! from what the datastore or the mail service answered; the server performs
//! the calls.

use vstd::prelude::*;
use crate::config::Config;
use crate::database::{confirmation_of, ConfirmAnswer, DBError};
use crate::email::{confirmation_url, create_email, email_of, Email, CONFIRM_PATH};

verus! {

/// Where an account stands.
#[derive(Clone, Copy, Debug, PartialEq, Eq, Structural)]
pub enum AccountState {
    Unregistered,
    PendingConfirmation,
    Active,
}

/// An answer from outside that moves the workflow on.
#[derive(Debug)]
pub enum AccountEvent {
    /// The registration procedure answered: an invitation code, or why not.
    Registered(Result<String, DBError>),
    /// The mail service answered the dispatch of the confirmation email.
    EmailDispatched(Result<String, String>),
    /// The confirmation procedure answered.
    Confirmed(Result<String, DBError>),
}

/// The state an account is in after `event`. A failed dispatch does not undo
/// a registration the datastore has committed, and a rejected confirmation
/// leaves the account where it was.
pub open spec fn state_after(state: AccountState, event: AccountEvent) -> AccountState {
    match (state, event) {
        (AccountState::Unregistered, AccountEvent::Registered(Ok(_))) => AccountState::PendingConfirmation,
        (AccountState::PendingConfirmation, AccountEvent::Confirmed(Ok(_))) => AccountState::Active,
        _ => state,
    }
}

pub fn next_state(state: AccountState, event: &AccountEvent) -> (r: AccountState)
    ensures
        r == state_after(state, *event),
{
    match (state, event) {
        (AccountState::Unregistered, AccountEvent::Registered(Ok(_))) => AccountState::PendingConfirmation,
        (AccountState::PendingConfirmation, AccountEvent::Confirmed(Ok(_))) => AccountState::Active,
        _ => state,
    }
}

/// What the server does after the registration procedure answered.
#[derive(Debug)]
pub enum RegistrationStep {
    /// Send this confirmation email, then reply with `dispatch_reply`.
    SendEmail(Email),
    /// Reply with this message; nothing is sent.
    Reply(String),
}

/// The reply after a confirmation email went out.
pub const EMAIL_SENT_MESSAGE: &'static str = "Verification email sent!";

/// After the registration procedure answered for `username` (the address
/// the email goes to): on success the confirmation email carrying the
/// invitation, linked under the site's confirmation path; on failure the
/// reason, fit for the user.
pub fn register_step(config: &Config, username: String, answer: Result<String, DBError>) -> (r:
    RegistrationStep)
    ensures
        match answer {
            Ok(invitation) => r is SendEmail && r->SendEmail_0.parts() == email_of(
                config.site_domain@ + CONFIRM_PATH@,
                config.email_domain@,
                username@,
                invitation@,
            ),
            Err(e) => r is Reply && r->Reply_0@ == e.spec_client_message(),
        },
{
    match answer {
        Ok(invitation) => {
            let url = confirmation_url(config.site_domain.as_str());
            RegistrationStep::SendEmail(
                create_email(url, config.email_domain.clone(), username, invitation),
            )
        },
        Err(e) => RegistrationStep::Reply(e.client_message()),
    }
}

/// The reply after the confirmation email's dispatch: the registration
/// stands either way, so a failure is told apart from a rejected
/// registration by carrying the dispatch's own reason.
pub fn dispatch_reply(sent: Result<String, String>) -> (r: String)
    ensures
        match sent {
            Ok(_) => r@ == EMAIL_SENT_MESSAGE@,
            Err(e) => r == e,
        },
{
    match sent {
        Ok(_) => String::from_str(EMAIL_SENT_MESSAGE),
        Err(e) => e,
    }
}

/// The reply to a confirmation: the datastore's message either way, but for
/// an infrastructure failure, which is told without internal detail.
pub fn confirm_reply(answer: Result<String, DBError>) -> (r: String)
    ensures
        match answer {
            Ok(msg) => r == msg,
            Err(e) => r@ == e.spec_client_message(),
        },
{
    match answer {
        Ok(msg) => msg,
        Err(e) => e.client_message(),
    }
}

/// An invitation activates an account once. The datastore accepts the
/// token the first time and, the token being spent, rejects it after: the
/// first confirmation succeeds and activates the pending account, the second
/// is an authentication failure carrying the datastore's reason, and the
/// account stays active.
pub proof fn lemma_confirm_twice(first: ConfirmAnswer, second: ConfirmAnswer)
    requires
        first.success,
        !second.success,
    ensures
        confirmation_of(Ok(first)) == Ok::<String, DBError>(first.message),
        confirmation_of(Ok(second)) == Err::<String, DBError>(
            DBError::AuthenticationError(second.message),
        ),
        state_after(AccountState::PendingConfirmation, AccountEvent::Confirmed(confirmation_of(Ok(first))))
            == AccountState::Active,
        state_after(
            state_after(AccountState::PendingConfirmation, AccountEvent::Confirmed(confirmation_of(Ok(first)))),
            AccountEvent::Confirmed(confirmation_of(Ok(second))),
        ) == AccountState::Active,
{
}

/// A failed dispatch of the confirmation email never undoes a registration:
/// the account stays pending.
pub proof fn lemma_dispatch_keeps_registration(sent: Result<String, String>)
    ensures
        state_after(AccountState::PendingConfirmation, AccountEvent::EmailDispatched(sent))
            == AccountState::PendingConfirmation,
{
}

/// A rejected confirmation leaves every account where it was.
pub proof fn lemma_rejected_confirmation_changes_nothing(state: AccountState, e: DBError)
    ensures
        state_after(state, AccountEvent::Confirmed(Err(e))) == state,
{
}

} // verus!
