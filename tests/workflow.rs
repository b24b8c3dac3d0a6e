use newsroom::config::{Config, ConfigError, DEFAULT_DOMAIN, DEVELOPMENT_MAIL_KEY, DEVELOPMENT_SECRET};
use newsroom::credentials::{can_write_article, Login};
use newsroom::database::{
    authenticate, confirm, register, AuthenticateAnswer, ConfirmAnswer, DBError, RegisterAnswer,
};
use newsroom::email::{
    confirmation_link, confirmation_url, create_email, dispatch_result, is_success_status,
    mail_endpoint, Email,
};
use newsroom::session::{hello_message, login_outcome, session_payload};
use newsroom::workflow::{
    confirm_reply, dispatch_reply, next_state, register_step, AccountEvent, AccountState,
    RegistrationStep,
};

fn config(site: &str, mail: &str) -> Config {
    Config::new(
        Some("a-signing-secret-of-at-least-32-bytes".to_string()),
        Some("key".to_string()),
        Some(mail.to_string()),
        Some(site.to_string()),
    )
    .unwrap()
}

#[test]
fn create_email_builds_both_parts_around_one_link() {
    let email = create_email(
        "https://news.example/api/confirm".to_string(),
        "mail.example".to_string(),
        "alice@example.org".to_string(),
        "abc123".to_string(),
    );
    let link = "https://news.example/api/confirm/abc123";
    assert_eq!(
        email,
        Email {
            from: "Admin <confirmation@mail.example>".to_string(),
            to: "alice@example.org".to_string(),
            subject: "Please verify your account".to_string(),
            text: format!("Hi,\nThanks for signing up! Please confirm your email address by clicking on the link below.\n\n{}\n\nIf you did not sign up for an account, please disregard this email.", link),
            html: format!("<!doctype html><html><head><title>Confirmation</title></head><body><p>Hi,<p>Thanks for signing up! Please confirm your email address by clicking on the link below.<p><a href=\"{}\">{}</a><p>If you did not sign up for an account, please disregard this email.</body></html>", link, link),
        }
    );
}

#[test]
fn confirmation_urls() {
    assert_eq!(confirmation_url("https://news.example"), "https://news.example/api/confirm");
    assert_eq!(confirmation_link("https://news.example/api/confirm", "tok"), "https://news.example/api/confirm/tok");
    assert_eq!(mail_endpoint("mail.example"), "https://api.mailgun.net/v3/mail.example/messages");
}

#[test]
fn dispatch_success_is_any_2xx() {
    assert!(is_success_status(200));
    assert!(is_success_status(299));
    assert!(!is_success_status(199));
    assert!(!is_success_status(300));
    assert_eq!(dispatch_result(Ok(202)), Ok("success".to_string()));
    assert_eq!(dispatch_result(Ok(401)), Err("failed".to_string()));
    assert_eq!(dispatch_result(Err("timed out".to_string())), Err("timed out".to_string()));
}

#[test]
fn config_falls_back_to_development_values() {
    let c = Config::new(None, None, None, None).unwrap();
    assert_eq!(c.secret_key, DEVELOPMENT_SECRET);
    assert_eq!(c.secret_key, "7890".repeat(8));
    assert_eq!(c.mailgun_key, DEVELOPMENT_MAIL_KEY);
    assert_eq!(c.email_domain, DEFAULT_DOMAIN);
    assert_eq!(c.site_domain, "example.com");
    assert!(c.development_secret);
}

#[test]
fn config_takes_given_values() {
    let c = config("https://news.example", "mail.example");
    assert_eq!(c.site_domain, "https://news.example");
    assert_eq!(c.email_domain, "mail.example");
    assert_eq!(c.mailgun_key, "key");
    assert!(!c.development_secret);
}

#[test]
fn short_secret_is_refused() {
    assert_eq!(Config::new(Some("short".to_string()), None, None, None), Err(ConfigError::SecretTooShort));
    assert!(Config::new(Some("x".repeat(31)), None, None, None).is_err());
    assert!(Config::new(Some("x".repeat(32)), None, None, None).is_ok());
}

#[test]
fn session_payload_degrades_to_null() {
    assert_eq!(session_payload(Some("{\"username\":\"a\",\"roles\":[2]}".to_string())), "{\"username\":\"a\",\"roles\":[2]}");
    assert_eq!(session_payload(None), "null");
}

#[test]
fn login_outcomes() {
    let ok = login_outcome(authenticate(
        Login { username: "alice".to_string(), password: "p1".to_string() },
        Ok(AuthenticateAnswer { success: true, message: "hi".to_string(), roles: Some(vec![2]) }),
    ));
    assert_eq!(ok.msg, "hi");
    assert_eq!(ok.remember.map(|c| c.username), Some("alice".to_string()));
    let failed = login_outcome(Err(DBError::AuthenticationError("invalid login".to_string())));
    assert_eq!(failed.msg, "invalid login");
    assert!(failed.remember.is_none());
}

#[test]
fn hello_names_the_caller() {
    assert_eq!(hello_message(Ok("hello".to_string()), Some("alice".to_string())), "hello: alice");
    assert_eq!(hello_message(Ok("hello".to_string()), None), "hello: idk");
    assert_eq!(hello_message(Err(DBError::AuthenticationError("no".to_string())), None), "no");
}

#[test]
fn account_states_follow_the_answers() {
    let s = next_state(AccountState::Unregistered, &AccountEvent::Registered(Ok("abc".to_string())));
    assert_eq!(s, AccountState::PendingConfirmation);
    let s = next_state(s, &AccountEvent::EmailDispatched(Err("failed".to_string())));
    assert_eq!(s, AccountState::PendingConfirmation);
    let s = next_state(s, &AccountEvent::Confirmed(Err(DBError::AuthenticationError("bad".to_string()))));
    assert_eq!(s, AccountState::PendingConfirmation);
    let s = next_state(s, &AccountEvent::Confirmed(Ok("activated".to_string())));
    assert_eq!(s, AccountState::Active);
    let s = next_state(s, &AccountEvent::Confirmed(Err(DBError::AuthenticationError("used".to_string()))));
    assert_eq!(s, AccountState::Active);
    let s = next_state(
        AccountState::Unregistered,
        &AccountEvent::Registered(Err(DBError::AuthenticationError("taken".to_string()))),
    );
    assert_eq!(s, AccountState::Unregistered);
}

#[test]
fn register_confirm_then_login() {
    let cfg = config("https://news.example", "mail.example");
    let invitation = register(Ok(RegisterAnswer {
        success: true,
        message: "registered".to_string(),
        invitation: Some("abc123".to_string()),
    }));
    let mut state = next_state(AccountState::Unregistered, &AccountEvent::Registered(Ok("abc123".to_string())));
    assert_eq!(state, AccountState::PendingConfirmation);
    match register_step(&cfg, "alice".to_string(), invitation) {
        RegistrationStep::SendEmail(email) => {
            assert_eq!(email.to, "alice");
            assert!(email.text.contains("/api/confirm/abc123"));
            assert!(email.html.contains("https://news.example/api/confirm/abc123"));
        }
        RegistrationStep::Reply(m) => panic!("no email: {}", m),
    }
    assert_eq!(dispatch_reply(Ok("success".to_string())), "Verification email sent!");
    let confirmed = confirm(Ok(ConfirmAnswer { success: true, message: "account activated".to_string() }));
    assert!(confirmed.is_ok());
    state = next_state(state, &AccountEvent::Confirmed(Ok("account activated".to_string())));
    assert_eq!(state, AccountState::Active);
    assert_eq!(confirm_reply(confirmed), "account activated");
    let logged_in = authenticate(
        Login { username: "alice".to_string(), password: "p1".to_string() },
        Ok(AuthenticateAnswer { success: true, message: "welcome".to_string(), roles: Some(vec![2]) }),
    );
    let (credentials, _) = logged_in.unwrap();
    assert_eq!(credentials.roles, vec![2]);
    assert!(can_write_article(&Some(credentials)));
}

#[test]
fn unknown_token_then_login_still_fails() {
    let confirmed = confirm(Ok(ConfirmAnswer { success: false, message: "invalid invitation".to_string() }));
    assert!(matches!(&confirmed, Err(DBError::AuthenticationError(m)) if m == "invalid invitation"));
    let state = next_state(AccountState::PendingConfirmation, &AccountEvent::Confirmed(confirmed));
    assert_eq!(state, AccountState::PendingConfirmation);
    let logged_in = authenticate(
        Login { username: "alice".to_string(), password: "p1".to_string() },
        Ok(AuthenticateAnswer { success: false, message: "account not confirmed".to_string(), roles: None }),
    );
    assert!(matches!(logged_in, Err(DBError::AuthenticationError(m)) if m == "account not confirmed"));
}

#[test]
fn rejected_registration_sends_no_email() {
    let cfg = config("https://news.example", "mail.example");
    let step = register_step(&cfg, "alice".to_string(), Err(DBError::AuthenticationError("taken".to_string())));
    assert!(matches!(step, RegistrationStep::Reply(m) if m == "taken"));
}

#[test]
fn failed_dispatch_reply_carries_its_reason() {
    assert_eq!(dispatch_reply(Err("failed".to_string())), "failed");
    assert_eq!(confirm_reply(Err(DBError::AuthenticationError("expired".to_string()))), "expired");
}
