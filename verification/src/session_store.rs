//! The errors of a session store.
use vstd::prelude::*;
use vstd::string::StringExecFns;

verus! {

/// Why a session store could not do what was asked.
#[derive(Debug, Clone)]
pub enum Error {
    /// Encoding the session failed, with the reason.
    Encode(String),
    /// Decoding the session failed, with the reason.
    Decode(String),
    /// The store's back end failed, with its message.
    Backend(String),
}

/// The message of a store error.
pub open spec fn store_error_message(e: Error) -> Seq<char> {
    match e {
        Error::Encode(m) => "Encoding failed with: "@ + m@,
        Error::Decode(m) => "Decoding failed with: "@ + m@,
        Error::Backend(m) => m@,
    }
}

impl Error {
    /// The message of the error: the reason after "Encoding failed with: "
    /// or "Decoding failed with: ", and a back-end message as it is.
    pub fn to_string(&self) -> (s: String)
        ensures
            s@ == store_error_message(*self),
    {
        match self {
            Error::Encode(m) => {
                let mut s = "Encoding failed with: ".to_owned();
                s.append(m.as_str());
                s
            },
            Error::Decode(m) => {
                let mut s = "Decoding failed with: ".to_owned();
                s.append(m.as_str());
                s
            },
            Error::Backend(m) => m.clone(),
        }
    }
}

} // verus!
