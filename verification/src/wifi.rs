//! The credentials that the radio is configured with.

use vstd::prelude::*;
use vstd::utf8::encode_utf8;

verus! {

/// Number of bytes that the radio driver holds of a network name.
pub const SSID_CAPACITY: usize = 32;

/// Number of bytes that the radio driver holds of a pre-shared key.
pub const PASSWORD_CAPACITY: usize = 64;

/// Why a pair of strings cannot serve as credentials.
#[derive(Clone, Copy, PartialEq, Eq, Debug, Structural)]
pub enum CredentialsError {
    /// The network name is longer than [`SSID_CAPACITY`] bytes.
    SsidTooLong,
    /// The pre-shared key is longer than [`PASSWORD_CAPACITY`] bytes.
    PasswordTooLong,
}

/// Number of bytes that a text takes as UTF-8.
pub open spec fn byte_length(text: Seq<char>) -> nat {
    encode_utf8(text).len()
}

/// What [`Credentials::new`] makes of a network name and a key. Only their
/// lengths in bytes matter, and the name is looked at first; an empty name
/// and an empty key pass.
pub open spec fn admission(ssid: Seq<char>, password: Seq<char>) -> Result<(), CredentialsError> {
    if byte_length(ssid) > SSID_CAPACITY {
        Err(CredentialsError::SsidTooLong)
    } else if byte_length(password) > PASSWORD_CAPACITY {
        Err(CredentialsError::PasswordTooLong)
    } else {
        Ok(())
    }
}

/// An empty network name with an empty key passes: that they join no
/// network shows when the radio tries to, not here.
pub proof fn lemma_empty_credentials_pass()
    ensures
        admission(Seq::empty(), Seq::empty()) is Ok,
{
}

/// A network name and a pre-shared key that the radio driver can hold.
pub struct Credentials {
    ssid: String,
    password: String,
}

impl Credentials {
    /// The network name.
    pub closed spec fn ssid_text(&self) -> Seq<char> {
        self.ssid@
    }

    /// The pre-shared key.
    pub closed spec fn password_text(&self) -> Seq<char> {
        self.password@
    }

    #[verifier::type_invariant]
    spec fn fits(&self) -> bool {
        &&& byte_length(self.ssid@) <= SSID_CAPACITY
        &&& byte_length(self.password@) <= PASSWORD_CAPACITY
    }

    /// Takes a network name and a key as credentials, unless one of them is
    /// too long for the radio driver.
    pub fn new(ssid: &str, password: &str) -> (made: Result<Credentials, CredentialsError>)
        ensures
            match made {
                Ok(credentials) => {
                    &&& admission(ssid@, password@) is Ok
                    &&& credentials.ssid_text() == ssid@
                    &&& credentials.password_text() == password@
                },
                Err(error) => admission(ssid@, password@) == Err::<(), CredentialsError>(error),
            },
    {
        if ssid.as_bytes().len() > SSID_CAPACITY {
            Err(CredentialsError::SsidTooLong)
        } else if password.as_bytes().len() > PASSWORD_CAPACITY {
            Err(CredentialsError::PasswordTooLong)
        } else {
            Ok(Credentials { ssid: ssid.to_owned(), password: password.to_owned() })
        }
    }

    /// The network name, at most [`SSID_CAPACITY`] bytes long.
    pub fn ssid(&self) -> (ssid: &str)
        ensures
            ssid@ == self.ssid_text(),
            byte_length(ssid@) <= SSID_CAPACITY,
    {
        proof {
            use_type_invariant(self);
        }
        self.ssid.as_str()
    }

    /// The pre-shared key, at most [`PASSWORD_CAPACITY`] bytes long.
    pub fn password(&self) -> (password: &str)
        ensures
            password@ == self.password_text(),
            byte_length(password@) <= PASSWORD_CAPACITY,
    {
        proof {
            use_type_invariant(self);
        }
        self.password.as_str()
    }
}

} // verus!
