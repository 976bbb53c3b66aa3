//! The envelope in which results travel to the target side.

use vstd::prelude::*;

verus! {

/// Description of a failure of an exported function.
#[derive(Debug, PartialEq)]
pub struct Error {
    /// The failure as developers read it.
    pub debug: String,
    /// The failure as users read it.
    pub message: String,
}

/// The wire container of a result: a value, an error, or neither for a
/// successful call that delivers nothing.
#[derive(Debug, PartialEq)]
pub struct Returned<T> {
    pub error: Option<Error>,
    pub value: Option<T>,
}

impl Error {
    pub fn new(debug: String, message: String) -> (r: Error)
        ensures
            r.debug == debug,
            r.message == message,
    {
        Error { debug, message }
    }
}

impl<T> Returned<T> {
    /// An envelope never holds a value and an error at once.
    pub open spec fn wf(&self) -> bool {
        !(self.error is Some && self.value is Some)
    }

    /// Whether the envelope carries a failure.
    pub fn is_failure(&self) -> (r: bool)
        ensures
            r == self.error is Some,
    {
        self.error.is_some()
    }

    /// The envelope of a fallible call that may deliver nothing.
    pub fn from_result_option(src: Result<Option<T>, Error>) -> (r: Self)
        ensures
            r.wf(),
            match src {
                Ok(value) => r.error is None && r.value == value,
                Err(err) => r.error == Some(err) && r.value is None,
            },
    {
        match src {
            Ok(value) => Returned { error: None, value },
            Err(err) => Returned { error: Some(err), value: None },
        }
    }

    /// The envelope of a fallible call.
    pub fn from_result(src: Result<T, Error>) -> (r: Self)
        ensures
            r.wf(),
            match src {
                Ok(value) => r.error is None && r.value == Some(value),
                Err(err) => r.error == Some(err) && r.value is None,
            },
    {
        match src {
            Ok(value) => Returned { error: None, value: Some(value) },
            Err(err) => Returned { error: Some(err), value: None },
        }
    }

    /// The envelope of a call that may deliver nothing.
    pub fn from_option(value: Option<T>) -> (r: Self)
        ensures
            r.wf(),
            r.error is None,
            r.value == value,
    {
        Returned { error: None, value }
    }

    /// The envelope of a call that delivers a value.
    pub fn from_value(src: T) -> (r: Self)
        ensures
            r.wf(),
            r.error is None,
            r.value == Some(src),
    {
        Returned { error: None, value: Some(src) }
    }

    /// The envelope of a successful call that delivers nothing.
    pub fn default() -> (r: Self)
        ensures
            r.wf(),
            r.error is None,
            r.value is None,
    {
        Returned { error: None, value: None }
    }
}

} // verus!
