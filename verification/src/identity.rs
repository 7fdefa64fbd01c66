//! The network a station is asked to join.

use vstd::prelude::*;
use vstd::utf8::encode_utf8;
use crate::failure::FailureReason;

verus! {

/// Longest network name the radio takes, in bytes.
pub const MAX_NAME_BYTES: usize = 32;

/// Shortest shared secret the radio takes, in bytes, unless it is empty.
pub const MIN_SECRET_BYTES: usize = 8;

/// Longest shared secret the radio takes, in bytes.
pub const MAX_SECRET_BYTES: usize = 64;

/// Length of a text in bytes, as the radio counts it.
pub open spec fn byte_len(text: Seq<char>) -> nat {
    encode_utf8(text).len()
}

/// A network name is not empty and fits the radio's name field.
pub open spec fn valid_name(name: Seq<char>) -> bool {
    1 <= byte_len(name) <= MAX_NAME_BYTES
}

/// A shared secret is empty (an open network) or of the length the radio takes.
pub open spec fn valid_secret(secret: Seq<char>) -> bool {
    byte_len(secret) == 0 || MIN_SECRET_BYTES <= byte_len(secret) <= MAX_SECRET_BYTES
}

/// Counts the bytes of a text.
pub fn byte_count(text: &String) -> (count: usize)
    ensures
        count == byte_len(text@),
{
    text.as_str().as_bytes().len()
}

/// What a [`TargetIdentity`] stands for.
pub struct IdentityView {
    pub name: Seq<char>,
    pub secret: Seq<char>,
}

impl IdentityView {
    /// Both parts are of a length the radio takes.
    pub open spec fn valid(self) -> bool {
        valid_name(self.name) && valid_secret(self.secret)
    }
}

/// Name and shared secret of the target network. A value of this type is
/// always valid: [`TargetIdentity::new`] is the only way to make one. It has no
/// `Debug`, so that the secret does not end up in a log.
pub struct TargetIdentity {
    name: String,
    secret: String,
}

impl View for TargetIdentity {
    type V = IdentityView;

    closed spec fn view(&self) -> IdentityView {
        IdentityView { name: self.name@, secret: self.secret@ }
    }
}

impl TargetIdentity {
    /// Holds of every value of the type.
    #[verifier::type_invariant]
    pub open spec fn well_formed(&self) -> bool {
        self@.valid()
    }

    /// Checks the two lengths and keeps the texts as given.
    pub fn new(name: String, secret: String) -> (made: Result<TargetIdentity, FailureReason>)
        ensures
            made is Ok <==> valid_name(name@) && valid_secret(secret@),
            made matches Ok(identity) ==> identity@ == (IdentityView { name: name@, secret: secret@ }),
            made matches Err(reason) ==> reason == FailureReason::ConfigurationError,
    {
        let name_bytes: usize = byte_count(&name);
        let secret_bytes: usize = byte_count(&secret);
        let name_fits = 1 <= name_bytes && name_bytes <= MAX_NAME_BYTES;
        let secret_fits = secret_bytes == 0 || (MIN_SECRET_BYTES <= secret_bytes
            && secret_bytes <= MAX_SECRET_BYTES);
        if name_fits && secret_fits {
            Ok(TargetIdentity { name, secret })
        } else {
            Err(FailureReason::ConfigurationError)
        }
    }

    /// The network name.
    pub fn name(&self) -> (name: &String)
        ensures
            name@ == self@.name,
            valid_name(name@),
    {
        proof {
            use_type_invariant(self);
        }
        &self.name
    }

    /// The shared secret; empty for an open network.
    pub fn secret(&self) -> (secret: &String)
        ensures
            secret@ == self@.secret,
            valid_secret(secret@),
    {
        proof {
            use_type_invariant(self);
        }
        &self.secret
    }
}

impl Clone for TargetIdentity {
    fn clone(&self) -> (copy: Self)
        ensures
            copy@ == self@,
    {
        proof {
            use_type_invariant(self);
        }
        TargetIdentity { name: self.name.clone(), secret: self.secret.clone() }
    }
}

} // verus!
