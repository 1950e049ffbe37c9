//! The errors that loading a structure from the environment can report.

use crate::text::same_text;
use vstd::prelude::*;
use vstd::std_specs::cmp::PartialEqSpecImpl;
use vstd::string::StringExecFns;

verus! {

/// What went wrong while a field was loaded.
#[derive(Debug, Clone, Copy)]
pub enum Error {
    /// The variable `name` is not set.
    EnvVarMissing { name: &'static str },
    /// The variable `name` is set, but its text is not a value of the field's type.
    ParseError { name: &'static str },
}

impl Error {
    /// The name of the variable the error is about.
    pub open spec fn var(self) -> Seq<char> {
        match self {
            Error::EnvVarMissing { name } => name@,
            Error::ParseError { name } => name@,
        }
    }

    /// Two errors are the same when they are of the same kind and name the
    /// same variable.
    pub open spec fn same(self, other: Error) -> bool {
        &&& self is EnvVarMissing <==> other is EnvVarMissing
        &&& self.var() == other.var()
    }

    /// What the message says.
    pub open spec fn message_text(self) -> Seq<char> {
        match self {
            Error::EnvVarMissing { name } => "Env variable is missing: "@ + name@,
            Error::ParseError { name } => "Failed to parse env variable: "@ + name@,
        }
    }

    /// The message for the person who runs the program: it says what went
    /// wrong and names the variable.
    pub fn message(&self) -> (text: String)
        ensures
            text@ == self.message_text(),
    {
        match self {
            Error::EnvVarMissing { name } => String::from_str("Env variable is missing: ").concat(
                name,
            ),
            Error::ParseError { name } => String::from_str("Failed to parse env variable: ").concat(
                name,
            ),
        }
    }

    /// The name of the variable the error is about.
    pub fn name(&self) -> (name: &'static str)
        ensures
            name@ == self.var(),
    {
        match self {
            Error::EnvVarMissing { name } => name,
            Error::ParseError { name } => name,
        }
    }
}

impl PartialEq for Error {
    fn eq(&self, other: &Error) -> (equal: bool) {
        match (self, other) {
            (Error::EnvVarMissing { name: a }, Error::EnvVarMissing { name: b }) => same_text(a, b),
            (Error::ParseError { name: a }, Error::ParseError { name: b }) => same_text(a, b),
            _ => false,
        }
    }
}

impl PartialEqSpecImpl for Error {
    open spec fn obeys_eq_spec() -> bool {
        true
    }

    open spec fn eq_spec(&self, other: &Error) -> bool {
        self.same(*other)
    }
}

impl Eq for Error {

}

} // verus!
