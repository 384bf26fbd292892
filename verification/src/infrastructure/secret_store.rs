//! The Notion token in the Secret Service keyring: which entry holds it,
//! what is stored, and what each keyring answer means. The token never
//! touches the database file or the disk.
use crate::text::{concat, owned, trim, trimmed};
use vstd::prelude::*;

verus! {

/// The keyring service the token is filed under.
pub const SERVICE: &'static str = "notion-pomodoro-tracker";

/// The keyring user the token is filed under.
pub const USER: &'static str = "notion-api-token";

#[derive(Debug)]
pub enum SecretError {
    Keyring(String),
}

impl SecretError {
    pub open spec fn text(&self) -> Seq<char> {
        match self {
            SecretError::Keyring(m) => "keyring error: "@ + m@,
        }
    }

    /// The error as text.
    pub fn message(&self) -> (s: String)
        ensures
            s@ == self.text(),
    {
        match self {
            SecretError::Keyring(m) => concat("keyring error: ", m.as_str()),
        }
    }
}

/// How a keyring request failed.
pub enum KeyringFailure {
    /// No entry is stored.
    NoEntry,
    /// Any other failure, with its message.
    Other(String),
}

/// A keyring write: the entry and the secret to store in it.
pub struct StoreRequest {
    pub service: &'static str,
    pub user: &'static str,
    pub secret: String,
}

/// What storing `token` writes: the token without surrounding whitespace,
/// in the app's entry.
pub fn store_token(token: &str) -> (r: StoreRequest)
    ensures
        r.service@ == SERVICE@,
        r.user@ == USER@,
        r.secret@ == trimmed(token@),
{
    StoreRequest { service: SERVICE, user: USER, secret: owned(trim(token)) }
}

/// What a read of the entry means: the stored token, none when there is no
/// entry, else the failure.
pub fn load_token(reply: Result<String, KeyringFailure>) -> (r: Result<Option<String>, SecretError>)
    ensures
        match reply {
            Ok(t) => r matches Ok(Some(x)) && x@ == t@,
            Err(KeyringFailure::NoEntry) => r matches Ok(None),
            Err(KeyringFailure::Other(m)) => r matches Err(SecretError::Keyring(x)) && x@ == m@,
        },
{
    match reply {
        Ok(t) => Ok(Some(t)),
        Err(KeyringFailure::NoEntry) => Ok(None),
        Err(KeyringFailure::Other(m)) => Err(SecretError::Keyring(m)),
    }
}

/// What a removal of the entry means: done, also when there was none.
pub fn delete_token(reply: Result<(), KeyringFailure>) -> (r: Result<(), SecretError>)
    ensures
        match reply {
            Ok(()) => r is Ok,
            Err(KeyringFailure::NoEntry) => r is Ok,
            Err(KeyringFailure::Other(m)) => r matches Err(SecretError::Keyring(x)) && x@ == m@,
        },
{
    match reply {
        Ok(()) => Ok(()),
        Err(KeyringFailure::NoEntry) => Ok(()),
        Err(KeyringFailure::Other(m)) => Err(SecretError::Keyring(m)),
    }
}

} // verus!
