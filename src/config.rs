//! The server's settings, fixed once at start-up and passed to whatever
//! needs them.

use vstd::prelude::*;

verus! {

/// The fewest bytes a cookie signing secret may have.
pub const MIN_SECRET_BYTES: usize = 32;

/// The signing secret used when none is configured: for development only.
pub const DEVELOPMENT_SECRET: &'static str = "78907890789078907890789078907890";

/// The mail service key used when none is configured.
pub const DEVELOPMENT_MAIL_KEY: &'static str = "00000000000000000000000000000000";

/// The domain used for mail and links when none is configured.
pub const DEFAULT_DOMAIN: &'static str = "example.com";

/// Immutable settings of a running server.
#[derive(Clone, Debug, PartialEq, Eq)]
pub struct Config {
    /// The secret that signs session cookies.
    pub secret_key: String,
    /// The credential of the transactional mail service.
    pub mailgun_key: String,
    /// The domain confirmation mail is sent from.
    pub email_domain: String,
    /// The site's own address, the base of confirmation links.
    pub site_domain: String,
    /// Whether the development secret stands in for a missing one; the
    /// server warns loudly when it does.
    pub development_secret: bool,
}

/// Why the settings cannot be used.
#[derive(Clone, Copy, Debug, PartialEq, Eq, Structural)]
pub enum ConfigError {
    /// The signing secret is shorter than the cookie scheme's key.
    SecretTooShort,
}

/// The configured value, or the fallback where none is given.
pub open spec fn or_default(given: Option<String>, fallback: Seq<char>) -> Seq<char> {
    match given {
        Some(s) => s@,
        None => fallback,
    }
}

fn given_or(given: Option<String>, fallback: &str) -> (r: String)
    ensures
        r@ == or_default(given, fallback@),
{
    match given {
        Some(s) => s,
        None => String::from_str(fallback),
    }
}

impl Config {
    /// Settings from the configured values, each optional; missing ones take
    /// their development fallback. Refused when the signing secret in use is
    /// shorter than `MIN_SECRET_BYTES` bytes.
    pub fn new(
        secret_key: Option<String>,
        mailgun_key: Option<String>,
        email_domain: Option<String>,
        site_domain: Option<String>,
    ) -> (r: Result<Config, ConfigError>)
        ensures
            r is Ok <==> vstd::utf8::encode_utf8(or_default(secret_key, DEVELOPMENT_SECRET@)).len()
                >= MIN_SECRET_BYTES,
            r is Err ==> r == Err::<Config, ConfigError>(ConfigError::SecretTooShort),
            r is Ok ==> {
                &&& r->Ok_0.secret_key@ == or_default(secret_key, DEVELOPMENT_SECRET@)
                &&& r->Ok_0.mailgun_key@ == or_default(mailgun_key, DEVELOPMENT_MAIL_KEY@)
                &&& r->Ok_0.email_domain@ == or_default(email_domain, DEFAULT_DOMAIN@)
                &&& r->Ok_0.site_domain@ == or_default(site_domain, DEFAULT_DOMAIN@)
                &&& r->Ok_0.development_secret == secret_key is None
            },
    {
        let development_secret = secret_key.is_none();
        let secret_key = given_or(secret_key, DEVELOPMENT_SECRET);
        let secret_bytes = secret_key.as_str().as_bytes().len();
        if secret_bytes < MIN_SECRET_BYTES {
            return Err(ConfigError::SecretTooShort);
        }
        Ok(Config {
            secret_key,
            mailgun_key: given_or(mailgun_key, DEVELOPMENT_MAIL_KEY),
            email_domain: given_or(email_domain, DEFAULT_DOMAIN),
            site_domain: given_or(site_domain, DEFAULT_DOMAIN),
            development_secret,
        })
    }
}

} // verus!
