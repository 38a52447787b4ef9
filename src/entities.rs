use vstd::prelude::*;

use crate::errors::FieldValidationError;
use crate::ids::Uuid;
use crate::permissions::{kind_word, ResourceKind, Target};

verus! {

/// What compiling `pattern` as a regular expression and matching it against
/// `text` gives: whether it matches, or nothing when the pattern does not compile.
pub uninterp spec fn regex_match(pattern: Seq<char>, text: Seq<char>) -> Option<bool>;

/// What `str::to_lowercase` makes of a text.
pub uninterp spec fn lower_of(s: Seq<char>) -> Seq<char>;

/// Relies on `lazy_regex::Regex::new`, which fails only on a pattern that does
/// not compile, and on `Regex::is_match`.
#[verifier::external_body]
fn regex_is_match(pattern: &str, text: &str) -> (r: Option<bool>)
    ensures
        r == regex_match(pattern@, text@),
{
    lazy_regex::Regex::new(pattern).ok().map(|re| re.is_match(text))
}

/// Relies on `str::to_lowercase`: the result depends on the characters alone.
#[verifier::external_body]
fn lowercase(s: &str) -> (r: String)
    ensures
        r@ == lower_of(s@),
{
    s.to_lowercase()
}

/// Relies on `chrono::Utc::now` and `DateTime::timestamp_micros`: the current
/// time in microseconds since the Unix epoch.
#[verifier::external_body]
fn now_micros() -> (r: i64) {
    chrono::Utc::now().timestamp_micros()
}

/// The grammar of an e-mail address: a local part of letters, digits and
/// punctuation, an `@`, and a domain of two alphanumeric labels.
pub const EMAIL_PATTERN: &'static str = r#"^[a-zA-Z0-9!#$%&'*+\-/=?^_`{|}~.]+@[a-zA-Z0-9]+\.[a-zA-Z0-9]+$"#;

/// Whether a text is an e-mail address.
pub open spec fn is_email(s: Seq<char>) -> bool {
    regex_match(EMAIL_PATTERN@, s) == Some(true)
}

/// The field name reported for an invalid e-mail address.
pub open spec fn email_field() -> Seq<char> {
    seq!['e', 'm', 'a', 'i', 'l']
}

/// A validated e-mail address, held in lower case.
#[derive(Debug, PartialEq, Eq)]
pub struct Email(String);

impl Email {
    pub closed spec fn view(&self) -> Seq<char> {
        self.0@
    }

    /// Validates an address and normalises it to lower case.
    pub fn new(s: &str) -> (r: Result<Email, FieldValidationError>)
        ensures
            match r {
                Ok(e) => is_email(s@) && e@ == lower_of(s@),
                Err(err) => !is_email(s@) && err.field@ == email_field(),
            },
    {
        match regex_is_match(EMAIL_PATTERN, s) {
            Some(true) => Ok(Email(lowercase(s))),
            _ => {
                proof {
                    reveal_strlit("email");
                }
                Err(
                    FieldValidationError {
                        field: "email".to_string(),
                        message: "invalid email format".to_string(),
                    },
                )
            },
        }
    }

    /// The address.
    pub fn as_str(&self) -> (r: &str)
        ensures
            r@ == self@,
    {
        self.0.as_str()
    }
}

impl Clone for Email {
    fn clone(&self) -> (r: Self)
        ensures
            r == *self,
    {
        Email(self.0.clone())
    }
}

/// A point in time, in microseconds since the Unix epoch (UTC).
#[derive(Debug, Clone, Copy, PartialEq, Eq, Structural)]
pub struct Timestamp {
    pub micros: i64,
}

impl Timestamp {
    /// The current time.
    pub fn now() -> (r: Timestamp) {
        Timestamp { micros: now_micros() }
    }
}

/// The profile of a user: the address it signs in with.
#[derive(Debug, PartialEq, Eq)]
pub struct Profile {
    pub user_id: Uuid,
    pub email: Email,
}

impl Clone for Profile {
    fn clone(&self) -> (r: Self)
        ensures
            r == *self,
    {
        Profile { user_id: self.user_id.clone(), email: self.email.clone() }
    }
}

/// The row that creates a profile.
#[derive(Debug, PartialEq, Eq)]
pub struct CreateProfile {
    pub user_id: Uuid,
    pub email: Email,
}

impl CreateProfile {
    /// The profile that inserting this row makes.
    pub fn to_profile(&self) -> (r: Profile)
        ensures
            r.user_id == self.user_id,
            r.email == self.email,
    {
        Profile { user_id: self.user_id.clone(), email: self.email.clone() }
    }
}

impl Clone for CreateProfile {
    fn clone(&self) -> (r: Self)
        ensures
            r == *self,
    {
        CreateProfile { user_id: self.user_id.clone(), email: self.email.clone() }
    }
}

/// A user account; `auth_id` is the subject given by the authentication provider.
#[derive(Debug, PartialEq, Eq)]
pub struct User {
    pub id: Uuid,
    pub auth_id: String,
    pub created_at: Timestamp,
}

impl User {
    /// A new user with a fresh identifier, created now.
    pub fn new(auth_id: &str) -> (r: User)
        ensures
            r.id.wf(),
            r.auth_id@ == auth_id@,
    {
        User { id: Uuid::new(), auth_id: auth_id.to_string(), created_at: Timestamp::now() }
    }

    /// The resource kind of users.
    pub fn kind() -> (r: Target)
        ensures
            r@ == kind_word(ResourceKind::User),
    {
        proof {
            reveal_strlit("user");
        }
        Target("user".to_string())
    }
}

impl Clone for User {
    fn clone(&self) -> (r: Self)
        ensures
            r == *self,
    {
        User { id: self.id.clone(), auth_id: self.auth_id.clone(), created_at: self.created_at }
    }
}

/// A tenant of the service.
#[derive(Debug, PartialEq, Eq)]
pub struct Tenant {
    pub id: Uuid,
    pub name: String,
    pub created_at: Timestamp,
}

impl Tenant {
    /// A new tenant with a fresh identifier, created now.
    pub fn new(name: &str) -> (r: Tenant)
        ensures
            r.id.wf(),
            r.name@ == name@,
    {
        Tenant { id: Uuid::new(), name: name.to_string(), created_at: Timestamp::now() }
    }

    /// The resource kind of tenants.
    pub fn kind() -> (r: Target)
        ensures
            r@ == kind_word(ResourceKind::Tenant),
    {
        proof {
            reveal_strlit("tenant");
        }
        Target("tenant".to_string())
    }
}

impl Clone for Tenant {
    fn clone(&self) -> (r: Self)
        ensures
            r == *self,
    {
        Tenant { id: self.id.clone(), name: self.name.clone(), created_at: self.created_at }
    }
}

} // verus!
