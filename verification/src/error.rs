//! The ways in which encoding a value fails.

use vstd::prelude::*;
use vstd::string::StringExecFns;

verus! {

/// Why a value could not be encoded as URL parameters.
#[derive(Debug)]
pub enum Error {
    /// A failure outside the encoder, such as output that is not valid
    /// text, given by its message.
    Extern(String),
    /// The value at the top level is of the named kind, which has no keys.
    UnsupportedAtTopLevel(&'static str),
    /// A value of the named kind stands where only a simple value may.
    UnsupportedNestedStruct(&'static str),
    /// A failure reported by the value itself, given by its message.
    Custom(String),
}

/// The mathematical content of an [`Error`]: its variant and its text.
pub enum Fault {
    /// A failure outside the encoder, by its message.
    Extern(Seq<char>),
    /// A value without keys at the top level, by the name of its kind.
    UnsupportedAtTopLevel(Seq<char>),
    /// A value in place of a simple value, by the name of its kind.
    UnsupportedNestedStruct(Seq<char>),
    /// A failure reported by the value itself, by its message.
    Custom(Seq<char>),
}

impl View for Error {
    type V = Fault;

    open spec fn view(&self) -> Fault {
        match self {
            Error::Extern(message) => Fault::Extern(message@),
            Error::UnsupportedAtTopLevel(kind) => Fault::UnsupportedAtTopLevel(kind@),
            Error::UnsupportedNestedStruct(kind) => Fault::UnsupportedNestedStruct(kind@),
            Error::Custom(message) => Fault::Custom(message@),
        }
    }
}

impl Fault {
    /// The text that describes the fault to a reader.
    pub open spec fn message(self) -> Seq<char> {
        match self {
            Fault::Extern(message) => message,
            Fault::UnsupportedAtTopLevel(kind) => "Tried to serialize a "@ + kind
                + " at the top level. Only key-value shapes are supported at the top level of a query parameter."@,
            Fault::UnsupportedNestedStruct(kind) => "Tried to serialize a "@ + kind
                + " in place of a value. Only simple values are supported on the right-hand side of a parameter."@,
            Fault::Custom(message) => message,
        }
    }
}

impl Error {
    /// An error that carries a message of the caller's own.
    pub fn custom(msg: &str) -> (e: Error)
        ensures
            e@ == Fault::Custom(msg@),
    {
        Error::Custom(String::from_str(msg))
    }

    /// The text that describes the error to a reader.
    pub fn message(&self) -> (text: String)
        ensures
            text@ == self@.message(),
    {
        match self {
            Error::Extern(message) => message.clone(),
            Error::UnsupportedAtTopLevel(kind) => {
                let mut text = String::from_str("Tried to serialize a ");
                text.append(kind);
                text.append(
                    " at the top level. Only key-value shapes are supported at the top level of a query parameter.",
                );
                text
            },
            Error::UnsupportedNestedStruct(kind) => {
                let mut text = String::from_str("Tried to serialize a ");
                text.append(kind);
                text.append(
                    " in place of a value. Only simple values are supported on the right-hand side of a parameter.",
                );
                text
            },
            Error::Custom(message) => message.clone(),
        }
    }
}

} // verus!
