use vstd::prelude::*;

verus! {

/// An error raised only while building a client: an invalid host URL or a
/// transport that could not be constructed. Fatal to construction; the
/// caller receives no usable client. Carries a human-readable message.
#[derive(Debug)]
pub struct ConstructorError {
    message: String,
}

impl ConstructorError {
    /// The message carried by this error.
    pub closed spec fn spec_message(&self) -> Seq<char> {
        self.message@
    }

    pub fn new(message: String) -> (e: Self)
        ensures
            e.spec_message() == message@,
    {
        ConstructorError { message }
    }

    pub fn message(&self) -> (m: &str)
        ensures
            m@ == self.spec_message(),
    {
        self.message.as_str()
    }
}

/// An error raised per call: a malformed constructed URL, a transport-level
/// failure, or a JSON payload that does not decode into the expected result
/// shape. Carries a human-readable message and no recoverable payload.
#[derive(Debug)]
pub struct APIError {
    message: String,
}

impl APIError {
    /// The message carried by this error.
    pub closed spec fn spec_message(&self) -> Seq<char> {
        self.message@
    }

    pub fn new(message: String) -> (e: Self)
        ensures
            e.spec_message() == message@,
    {
        APIError { message }
    }

    pub fn message(&self) -> (m: &str)
        ensures
            m@ == self.spec_message(),
    {
        self.message.as_str()
    }
}

} // verus!
