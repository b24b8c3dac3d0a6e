//! The confirmation email of a registration, and how its dispatch is judged.

use vstd::prelude::*;

verus! {

/// A message for the transactional mail service.
#[derive(Clone, Debug, PartialEq, Eq)]
pub struct Email {
    pub from: String,
    pub to: String,
    pub subject: String,
    pub text: String,
    pub html: String,
}

pub const SENDER_HEAD: &'static str = "Admin <confirmation@";

pub const SENDER_TAIL: &'static str = ">";

pub const SUBJECT: &'static str = "Please verify your account";

pub const TEXT_HEAD: &'static str = "Hi,\nThanks for signing up! Please confirm your email address by clicking on the link below.\n\n";

pub const TEXT_TAIL: &'static str = "\n\nIf you did not sign up for an account, please disregard this email.";

pub const HTML_HEAD: &'static str = "<!doctype html><html><head><title>Confirmation</title></head><body><p>Hi,<p>Thanks for signing up! Please confirm your email address by clicking on the link below.<p><a href=\"";

pub const HTML_MIDDLE: &'static str = "\">";

pub const HTML_TAIL: &'static str = "</a><p>If you did not sign up for an account, please disregard this email.</body></html>";

/// The path under the site at which invitations are confirmed.
pub const CONFIRM_PATH: &'static str = "/api/confirm";

pub const MAIL_API_HEAD: &'static str = "https://api.mailgun.net/v3/";

pub const MAIL_API_TAIL: &'static str = "/messages";

/// The link that confirms `invitation`: `{base}/{invitation}`.
pub open spec fn link_of(confirmation_url: Seq<char>, invitation: Seq<char>) -> Seq<char> {
    confirmation_url + "/"@ + invitation
}

/// The confirmation email sent to `recipient` for `invitation`, from the
/// confirmation address of `mail_domain`; its plain-text and HTML parts
/// carry the same link.
pub open spec fn email_of(
    confirmation_url: Seq<char>,
    mail_domain: Seq<char>,
    recipient: Seq<char>,
    invitation: Seq<char>,
) -> (Seq<char>, Seq<char>, Seq<char>, Seq<char>, Seq<char>) {
    let link = link_of(confirmation_url, invitation);
    (
        SENDER_HEAD@ + mail_domain + SENDER_TAIL@,
        recipient,
        SUBJECT@,
        TEXT_HEAD@ + link + TEXT_TAIL@,
        HTML_HEAD@ + link + HTML_MIDDLE@ + link + HTML_TAIL@,
    )
}

impl Email {
    /// The five parts of the message, as text.
    pub open spec fn parts(&self) -> (Seq<char>, Seq<char>, Seq<char>, Seq<char>, Seq<char>) {
        (self.from@, self.to@, self.subject@, self.text@, self.html@)
    }
}

/// The base of the confirmation links of a site: `{site}/api/confirm`.
pub fn confirmation_url(site_domain: &str) -> (r: String)
    ensures
        r@ == site_domain@ + CONFIRM_PATH@,
{
    let mut url = String::from_str(site_domain);
    url.append(CONFIRM_PATH);
    url
}

/// The link that confirms `invitation`.
pub fn confirmation_link(confirmation_url: &str, invitation: &str) -> (r: String)
    ensures
        r@ == link_of(confirmation_url@, invitation@),
{
    let mut link = String::from_str(confirmation_url);
    link.append("/");
    link.append(invitation);
    link
}

/// The confirmation email for a new account.
pub fn create_email(confirmation_url: String, mail_domain: String, recipient: String, invitation: String) -> (r:
    Email)
    ensures
        r.parts() == email_of(confirmation_url@, mail_domain@, recipient@, invitation@),
{
    let link = confirmation_link(confirmation_url.as_str(), invitation.as_str());

    let mut from = String::from_str(SENDER_HEAD);
    from.append(mail_domain.as_str());
    from.append(SENDER_TAIL);

    let mut text = String::from_str(TEXT_HEAD);
    text.append(link.as_str());
    text.append(TEXT_TAIL);

    let mut html = String::from_str(HTML_HEAD);
    html.append(link.as_str());
    html.append(HTML_MIDDLE);
    html.append(link.as_str());
    html.append(HTML_TAIL);

    Email { from, to: recipient, subject: String::from_str(SUBJECT), text, html }
}

/// The address of the mail service's sending endpoint for `mail_domain`.
pub fn mail_endpoint(mail_domain: &str) -> (r: String)
    ensures
        r@ == MAIL_API_HEAD@ + mail_domain@ + MAIL_API_TAIL@,
{
    let mut url = String::from_str(MAIL_API_HEAD);
    url.append(mail_domain);
    url.append(MAIL_API_TAIL);
    url
}

/// An HTTP status in the success class.
pub fn is_success_status(status: u16) -> (r: bool)
    ensures
        r == (200 <= status <= 299),
{
    200 <= status && status <= 299
}

pub const DISPATCH_SUCCESS: &'static str = "success";

pub const DISPATCH_REFUSED: &'static str = "failed";

/// How a dispatch went: given the status the mail service answered with, or
/// the transport's error, a confirmation or the reason it failed.
pub fn dispatch_result(sent: Result<u16, String>) -> (r: Result<String, String>)
    ensures
        match sent {
            Ok(status) => if 200 <= status <= 299 {
                r is Ok && r->Ok_0@ == DISPATCH_SUCCESS@
            } else {
                r is Err && r->Err_0@ == DISPATCH_REFUSED@
            },
            Err(e) => r == Err::<String, String>(e),
        },
{
    match sent {
        Ok(status) => if is_success_status(status) {
            Ok(String::from_str(DISPATCH_SUCCESS))
        } else {
            Err(String::from_str(DISPATCH_REFUSED))
        },
        Err(e) => Err(e),
    }
}

} // verus!
