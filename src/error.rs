//! Why a configuration could not be built.

use vstd::prelude::*;
use vstd::string::StringExecFns;

verus! {

#[derive(Clone, Copy, Debug, PartialEq, Eq, Structural)]
pub enum ErrorKind {
    /// A required key has no value in any source.
    MissingField,
    /// A URL field does not parse as an absolute URL.
    InvalidUrl,
    /// An email field has no `@` with text on both sides.
    InvalidEmail,
    /// The public base URL is absolute but not an `http` or `https` URL with a
    /// path: the service is reached over HTTP, and its derived URLs replace
    /// the path of such a URL.
    UnsupportedUrl,
    /// The authentication section lacks what its mode requires.
    AuthValidation,
}

/// The opening of an error's description, by kind; the key follows it.
pub open spec fn kind_text(kind: ErrorKind) -> Seq<char> {
    match kind {
        ErrorKind::MissingField => "missing configuration value: "@,
        ErrorKind::InvalidUrl => "not an absolute URL: "@,
        ErrorKind::InvalidEmail => "not an email address: "@,
        ErrorKind::UnsupportedUrl => "not an http or https base URL: "@,
        ErrorKind::AuthValidation => "Missing required fields for OAuth in "@,
    }
}

/// A configuration error, with the key it concerns.
#[derive(Debug)]
pub struct ConfigError {
    pub kind: ErrorKind,
    pub key: String,
}

impl ConfigError {
    pub fn new(kind: ErrorKind, key: &str) -> (r: ConfigError)
        ensures
            r.kind == kind,
            r.key@ == key@,
    {
        ConfigError { kind, key: key.to_string() }
    }

    /// A sentence describing the error and naming its key.
    pub fn message(&self) -> (r: String)
        ensures
            r@ == kind_text(self.kind) + self.key@,
    {
        let mut m = match self.kind {
            ErrorKind::MissingField => String::from_str("missing configuration value: "),
            ErrorKind::InvalidUrl => String::from_str("not an absolute URL: "),
            ErrorKind::InvalidEmail => String::from_str("not an email address: "),
            ErrorKind::UnsupportedUrl => String::from_str("not an http or https base URL: "),
            ErrorKind::AuthValidation => String::from_str("Missing required fields for OAuth in "),
        };
        m.append(self.key.as_str());
        m
    }
}

} // verus!
