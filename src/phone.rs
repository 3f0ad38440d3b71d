use vstd::prelude::*;

verus! {

/// Why a phone number was refused.
#[derive(Debug, Clone, PartialEq, Eq)]
pub enum PhoneError {
    /// The number could not be parsed; the message says why.
    Failure(String),
    /// The number was parsed, but is invalid for its country.
    Invalid,
}

impl PhoneError {
    /// The message that the error renders.
    pub open spec fn message(self) -> Seq<char> {
        match self {
            PhoneError::Failure(m) => m@,
            PhoneError::Invalid => "invalid phone number"@,
        }
    }

    pub fn to_message(&self) -> (r: String)
        ensures
            r@ == self.message(),
    {
        match self {
            PhoneError::Failure(m) => m.clone(),
            PhoneError::Invalid => String::from_str("invalid phone number"),
        }
    }
}

impl From<String> for PhoneError {
    /// A parse failure, carrying its message.
    fn from(error: String) -> (r: PhoneError) {
        PhoneError::Failure(error)
    }
}

impl vstd::std_specs::convert::FromSpecImpl<String> for PhoneError {
    open spec fn obeys_from_spec() -> bool {
        true
    }

    open spec fn from_spec(error: String) -> PhoneError {
        PhoneError::Failure(error)
    }
}

} // verus!
