//! The failures of a run.

use crate::contentstack::ContentstackError;
use vstd::prelude::*;

verus! {

/// `std::io::Error`, the failure of reading or writing. It is carried as it
/// is: nothing is known of what it holds.
#[verifier::external_type_specification]
#[verifier::external_body]
pub struct ExIoError(std::io::Error);

/// Why a run failed: the stack could not be read, or the result could not
/// be written.
#[derive(Debug)]
pub enum Error {
    Contentstack(Box<ContentstackError>),
    Io(std::io::Error),
}

impl Error {
    /// What the message of each kind of failure begins with.
    pub open spec fn lead(self) -> Seq<char> {
        match self {
            Error::Contentstack(_) => "Contentstack error: "@,
            Error::Io(_) => "IO error: "@,
        }
    }

    /// The message for the user: the lead of the kind, then the message of
    /// the failure beneath.
    pub fn to_string(&self) -> (r: String)
        ensures
            self.lead().is_prefix_of(r@),
            match *self {
                Error::Contentstack(e) => e.own_message() matches Some(m) ==> r@ == self.lead()
                    + m,
                Error::Io(_) => true,
            },
    {
        match self {
            Error::Contentstack(e) => {
                let mut r = String::from_str("Contentstack error: ");
                let inner = e.to_string();
                r.append(inner.as_str());
                r
            },
            Error::Io(e) => {
                let mut r = String::from_str("IO error: ");
                let inner = e.to_string();
                r.append(inner.as_str());
                r
            },
        }
    }

    /// The message of the failure beneath this one. There always is one.
    pub fn source(&self) -> (r: Option<String>)
        ensures
            r is Some,
            match *self {
                Error::Contentstack(e) => e.own_message() matches Some(m) ==> r->Some_0@ == m,
                Error::Io(_) => true,
            },
    {
        match self {
            Error::Contentstack(e) => Some(e.to_string()),
            Error::Io(e) => Some(e.to_string()),
        }
    }
}

impl From<ContentstackError> for Error {
    fn from(error: ContentstackError) -> (r: Error) {
        Error::Contentstack(Box::new(error))
    }
}

impl vstd::std_specs::convert::FromSpecImpl<ContentstackError> for Error {
    open spec fn obeys_from_spec() -> bool {
        true
    }

    open spec fn from_spec(error: ContentstackError) -> Error {
        Error::Contentstack(Box::new(error))
    }
}

impl From<std::io::Error> for Error {
    fn from(error: std::io::Error) -> (r: Error) {
        Error::Io(error)
    }
}

impl vstd::std_specs::convert::FromSpecImpl<std::io::Error> for Error {
    open spec fn obeys_from_spec() -> bool {
        true
    }

    open spec fn from_spec(error: std::io::Error) -> Error {
        Error::Io(error)
    }
}

} // verus!
