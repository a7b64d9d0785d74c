//! Why a document fails to decode, and the text shown for each failure.

use vstd::prelude::*;

verus! {

/// Why a document failed to decode into a form or a config.
#[derive(Debug)]
pub enum DecodeError {
    /// The text is not well-formed YAML; carries the parser's message.
    Syntax(String),
    /// The document's root is not a mapping.
    NotAMapping,
    /// A key the schema requires is absent; carries the key.
    MissingField(String),
    /// A key holds a value of the wrong shape; carries the key.
    WrongType(String),
    /// The `type` tag of a body entry names no known field kind; carries the tag.
    UnknownFieldType(String),
}

/// The mathematical image of a `DecodeError`.
pub enum DecodeErrorV {
    Syntax(Seq<char>),
    NotAMapping,
    MissingField(Seq<char>),
    WrongType(Seq<char>),
    UnknownFieldType(Seq<char>),
}

impl DeepView for DecodeError {
    type V = DecodeErrorV;

    open spec fn deep_view(&self) -> DecodeErrorV {
        match self {
            DecodeError::Syntax(m) => DecodeErrorV::Syntax(m@),
            DecodeError::NotAMapping => DecodeErrorV::NotAMapping,
            DecodeError::MissingField(k) => DecodeErrorV::MissingField(k@),
            DecodeError::WrongType(k) => DecodeErrorV::WrongType(k@),
            DecodeError::UnknownFieldType(t) => DecodeErrorV::UnknownFieldType(t@),
        }
    }
}

/// A `Result` carried over to the images of its two sides.
pub open spec fn result_dv<T: DeepView, E: DeepView>(r: Result<T, E>) -> Result<T::V, E::V> {
    match r {
        Ok(t) => Ok(t.deep_view()),
        Err(e) => Err(e.deep_view()),
    }
}

/// The line of text that describes an error.
pub open spec fn spec_message(e: DecodeErrorV) -> Seq<char> {
    match e {
        DecodeErrorV::Syntax(m) => "invalid YAML: "@ + m,
        DecodeErrorV::NotAMapping => "the document is not a mapping"@,
        DecodeErrorV::MissingField(k) => "missing field `"@ + k + "`"@,
        DecodeErrorV::WrongType(k) => "invalid value for `"@ + k + "`"@,
        DecodeErrorV::UnknownFieldType(t) => "unknown field type `"@ + t + "`"@,
    }
}

impl DecodeError {
    /// A line of text describing the failure, for display by a caller.
    pub fn message(&self) -> (r: String)
        ensures
            r@ == spec_message(self.deep_view()),
    {
        match self {
            DecodeError::Syntax(m) => {
                let mut s = "invalid YAML: ".to_owned();
                s.append(m.as_str());
                s
            }
            DecodeError::NotAMapping => "the document is not a mapping".to_owned(),
            DecodeError::MissingField(k) => {
                let mut s = "missing field `".to_owned();
                s.append(k.as_str());
                s.append("`");
                s
            }
            DecodeError::WrongType(k) => {
                let mut s = "invalid value for `".to_owned();
                s.append(k.as_str());
                s.append("`");
                s
            }
            DecodeError::UnknownFieldType(t) => {
                let mut s = "unknown field type `".to_owned();
                s.append(t.as_str());
                s.append("`");
                s
            }
        }
    }
}

} // verus!
