//! Validation of the API credentials loaded at startup.
//!
//! The tool needs an API key and an account email.  A credential value is
//! usable only if it is present, non-empty, and not the placeholder `NULL`
//! that ships in the example configuration file.

use vstd::prelude::*;

verus! {

/// Why a single credential value was rejected.
#[derive(Clone, Copy, Debug, PartialEq, Eq, Structural)]
pub enum CredentialFault {
    /// The variable was not set at all.
    Missing,
    /// The variable was set to the empty string.
    Empty,
    /// The variable still holds the placeholder value `NULL`.
    Placeholder,
}

/// Which credential of the pair was rejected, and why.
#[derive(Clone, Copy, Debug, PartialEq, Eq, Structural)]
pub enum ConfigFault {
    ApiKey(CredentialFault),
    Email(CredentialFault),
}

/// A usable credential value: present, non-empty, and not the placeholder.
pub open spec fn credential_ok(v: Seq<char>) -> bool {
    v.len() > 0 && v != "NULL"@
}

/// Checks one credential value as read from the configuration source.
///
/// Returns the value itself exactly when it is usable, and otherwise says
/// which of the three faults applies.  The literal string `NULL` is rejected
/// even though it is non-empty.
pub fn validate_credential(value: Option<String>) -> (r: Result<String, CredentialFault>)
    ensures
        match r {
            Ok(v) => value matches Some(s) && v == s && credential_ok(v@),
            Err(f) => match f {
                CredentialFault::Missing => value is None,
                CredentialFault::Empty => value matches Some(s) && s@.len() == 0,
                CredentialFault::Placeholder => value matches Some(s) && s@ == "NULL"@,
            },
        },
{
    match value {
        None => Err(CredentialFault::Missing),
        Some(v) => {
            if v.as_str().is_empty() {
                Err(CredentialFault::Empty)
            } else {
                let placeholder = String::from_str("NULL");
                if v == placeholder {
                    Err(CredentialFault::Placeholder)
                } else {
                    Ok(v)
                }
            }
        },
    }
}

/// The validated credential pair, held for the whole run and used to build
/// the authentication headers of every outgoing request.
pub struct Credentials {
    pub api_key: String,
    pub email: String,
}

impl Credentials {
    /// Both values of the pair are usable.
    pub open spec fn wf(&self) -> bool {
        credential_ok(self.api_key@) && credential_ok(self.email@)
    }

    /// Validates the pair as read from the configuration source.
    ///
    /// The key is checked first, then the email, so a fault always names
    /// the first value (in that order) that is unusable.
    pub fn new(api_key: Option<String>, email: Option<String>) -> (r: Result<
        Credentials,
        ConfigFault,
    >)
        ensures
            match r {
                Ok(c) => {
                    &&& c.wf()
                    &&& api_key matches Some(k) && c.api_key == k
                    &&& email matches Some(e) && c.email == e
                },
                Err(f) => match f {
                    ConfigFault::ApiKey(kf) => match kf {
                        CredentialFault::Missing => api_key is None,
                        CredentialFault::Empty => api_key matches Some(k) && k@.len() == 0,
                        CredentialFault::Placeholder => api_key matches Some(k) && k@ == "NULL"@,
                    },
                    ConfigFault::Email(ef) => {
                        &&& api_key matches Some(k) && credential_ok(k@)
                        &&& match ef {
                            CredentialFault::Missing => email is None,
                            CredentialFault::Empty => email matches Some(e) && e@.len() == 0,
                            CredentialFault::Placeholder => email matches Some(e) && e@
                                == "NULL"@,
                        }
                    },
                },
            },
    {
        let key = match validate_credential(api_key) {
            Ok(k) => k,
            Err(f) => {
                return Err(ConfigFault::ApiKey(f));
            },
        };
        let mail = match validate_credential(email) {
            Ok(e) => e,
            Err(f) => {
                return Err(ConfigFault::Email(f));
            },
        };
        Ok(Credentials { api_key: key, email: mail })
    }
}

} // verus!
