//! Settings the core consumes: upstream credentials and restart policy.
use vstd::prelude::*;

verus! {

/// The upstream's signing credentials.
#[verifier::external_type_specification]
#[verifier::external_body]
pub struct ExToken(egg_mode::Token);

/// Relies on `egg_mode::KeyPair::new` and the `egg_mode::Token::Access`
/// variant: builds a user access token from the application's consumer pair
/// and the user's access pair.
#[verifier::external_body]
fn access_token(
    consumer_key: String,
    consumer_secret: String,
    access_key: String,
    access_secret: String,
) -> egg_mode::Token {
    egg_mode::Token::Access {
        consumer: egg_mode::KeyPair::new(consumer_key, consumer_secret),
        access: egg_mode::KeyPair::new(access_key, access_secret),
    }
}

/// The value of a credential that is known to be set.
fn credential(c: &Option<String>) -> (r: String)
    requires
        c is Some,
    ensures
        r == c->0,
{
    match c {
        Some(v) => v.clone(),
        None => String::new(),
    }
}

/// How log lines are stamped.
#[derive(Clone, Copy, Debug, PartialEq, Eq, Structural)]
pub enum LogTimestamps {
    /// Local time.
    Local,
    /// Coordinated universal time.
    UTC,
    /// No timestamps.
    Off,
}

/// Upstream credentials and the restart policy of the supervisor.
#[derive(Debug)]
pub struct Twitter {
    /// Consumer API key.
    pub consumer_key: Option<String>,
    /// Consumer API secret key.
    pub consumer_secret: Option<String>,
    /// Access token.
    pub access_token: Option<String>,
    /// Access token secret.
    pub access_token_secret: Option<String>,
    /// Restart the consumer whenever an author drops out of the filter, not
    /// only when one is added.
    pub always_restart: bool,
}

impl Default for Twitter {
    /// No credentials, restarts only for new authors.
    fn default() -> (r: Twitter)
        ensures
            r.consumer_key is None,
            r.consumer_secret is None,
            r.access_token is None,
            r.access_token_secret is None,
            !r.always_restart,
    {
        Twitter {
            consumer_key: None,
            consumer_secret: None,
            access_token: None,
            access_token_secret: None,
            always_restart: false,
        }
    }
}

/// `preferred` when it holds a value, `fallback` otherwise.
pub open spec fn either(preferred: Option<String>, fallback: Option<String>) -> Option<String> {
    if preferred is Some {
        preferred
    } else {
        fallback
    }
}

fn first_set(preferred: Option<String>, fallback: Option<String>) -> (r: Option<String>)
    ensures
        r == either(preferred, fallback),
{
    match preferred {
        Some(v) => Some(v),
        None => fallback,
    }
}

impl Twitter {
    /// Combines two sources of settings, `self` taking precedence: each
    /// credential comes from `self` when set there, else from `other`;
    /// `always_restart` holds when either source sets it.
    pub fn merge(self, other: Self) -> (r: Self)
        ensures
            r.consumer_key == either(self.consumer_key, other.consumer_key),
            r.consumer_secret == either(self.consumer_secret, other.consumer_secret),
            r.access_token == either(self.access_token, other.access_token),
            r.access_token_secret == either(self.access_token_secret, other.access_token_secret),
            r.always_restart == (self.always_restart || other.always_restart),
    {
        Twitter {
            consumer_key: first_set(self.consumer_key, other.consumer_key),
            consumer_secret: first_set(self.consumer_secret, other.consumer_secret),
            access_token: first_set(self.access_token, other.access_token),
            access_token_secret: first_set(self.access_token_secret, other.access_token_secret),
            always_restart: self.always_restart || other.always_restart,
        }
    }

    /// The access token built from the four credentials.
    pub fn token(&self) -> egg_mode::Token
        requires
            self.has_credentials_spec(),
    {
        access_token(
            credential(&self.consumer_key),
            credential(&self.consumer_secret),
            credential(&self.access_token),
            credential(&self.access_token_secret),
        )
    }

    /// All four credentials are set.
    pub open spec fn has_credentials_spec(&self) -> bool {
        &&& self.consumer_key is Some
        &&& self.consumer_secret is Some
        &&& self.access_token is Some
        &&& self.access_token_secret is Some
    }

    /// Whether all four credentials are set.
    pub fn has_credentials(&self) -> (r: bool)
        ensures
            r == self.has_credentials_spec(),
    {
        self.consumer_key.is_some() && self.consumer_secret.is_some()
            && self.access_token.is_some() && self.access_token_secret.is_some()
    }
}

} // verus!
