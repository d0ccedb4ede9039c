//! What can go wrong while a request is decoded.

use vstd::prelude::*;
use vstd::string::StringExecFns;
use crate::schema::FieldName;

verus! {

/// The first place where a decoded record departs from the shape that a
/// schema generation prescribes.
#[derive(Debug, Clone, Copy, PartialEq, Eq, Structural)]
pub enum Mismatch {
    /// The generation has no variant of the record's name.
    UnknownVariant,
    /// The variant requires the field and the record holds nothing there.
    MissingField(FieldName),
    /// The record holds, under the name of a field of the variant, a value
    /// that is not of the field's type.
    WrongType(FieldName),
}

/// Why a request could not be decoded. Either error ends the one call that
/// met it and nothing else.
#[derive(Debug, Clone, PartialEq, Eq)]
pub enum RequestError {
    /// The version tag names no schema generation that this crate knows.
    UnsupportedVersion {
        /// The tag that was given.
        tag: u32,
    },
    /// The record does not have the shape of a request of its generation.
    MalformedRequest {
        /// The variant name that the record was tagged with.
        variant: String,
        /// Where the record first departs from the schema.
        mismatch: Mismatch,
    },
}

/// Mathematical content of a [`RequestError`].
pub enum RequestErrorView {
    UnsupportedVersion { tag: u32 },
    MalformedRequest { variant: Seq<char>, mismatch: Mismatch },
}

impl View for RequestError {
    type V = RequestErrorView;

    open spec fn view(&self) -> RequestErrorView {
        match self {
            RequestError::UnsupportedVersion { tag } => RequestErrorView::UnsupportedVersion {
                tag: *tag,
            },
            RequestError::MalformedRequest { variant, mismatch } => {
                RequestErrorView::MalformedRequest { variant: variant@, mismatch: *mismatch }
            },
        }
    }
}

impl RequestErrorView {
    /// The error in words.
    pub open spec fn description(self) -> Seq<char> {
        match self {
            RequestErrorView::UnsupportedVersion { .. } => "unsupported schema version"@,
            RequestErrorView::MalformedRequest { variant, mismatch: Mismatch::UnknownVariant } => {
                "unknown variant `"@ + variant + "`"@
            },
            RequestErrorView::MalformedRequest {
                variant,
                mismatch: Mismatch::MissingField(field),
            } => "variant `"@ + variant + "`: missing field `"@ + field.wire_name() + "`"@,
            RequestErrorView::MalformedRequest {
                variant,
                mismatch: Mismatch::WrongType(field),
            } => "variant `"@ + variant + "`: wrong type of field `"@ + field.wire_name() + "`"@,
        }
    }
}

impl RequestError {
    /// The error for a record whose variant name the generation does not
    /// have.
    pub fn unknown_variant(variant: &str) -> (error: RequestError)
        ensures
            error@ == (RequestErrorView::MalformedRequest {
                variant: variant@,
                mismatch: Mismatch::UnknownVariant,
            }),
    {
        RequestError::MalformedRequest {
            variant: String::from_str(variant),
            mismatch: Mismatch::UnknownVariant,
        }
    }

    /// The error for a record of the given variant that lacks a field
    /// which the variant requires.
    pub fn missing_field(variant: &str, field: FieldName) -> (error: RequestError)
        ensures
            error@ == (RequestErrorView::MalformedRequest {
                variant: variant@,
                mismatch: Mismatch::MissingField(field),
            }),
    {
        RequestError::MalformedRequest {
            variant: String::from_str(variant),
            mismatch: Mismatch::MissingField(field),
        }
    }

    /// The error for a record of the given variant that holds, under the
    /// name of a field of the variant, a value of another type.
    pub fn wrong_type(variant: &str, field: FieldName) -> (error: RequestError)
        ensures
            error@ == (RequestErrorView::MalformedRequest {
                variant: variant@,
                mismatch: Mismatch::WrongType(field),
            }),
    {
        RequestError::MalformedRequest {
            variant: String::from_str(variant),
            mismatch: Mismatch::WrongType(field),
        }
    }

    /// The error in words, with the name of the variant at fault where
    /// there is one.
    pub fn description(&self) -> (text: String)
        ensures
            text@ == self@.description(),
    {
        match self {
            RequestError::UnsupportedVersion { .. } => String::from_str(
                "unsupported schema version",
            ),
            RequestError::MalformedRequest { variant, mismatch } => match mismatch {
                Mismatch::UnknownVariant => {
                    let mut text = String::from_str("unknown variant `");
                    text.append(variant.as_str());
                    text.append("`");
                    text
                },
                Mismatch::MissingField(field) => {
                    let mut text = String::from_str("variant `");
                    text.append(variant.as_str());
                    text.append("`: missing field `");
                    text.append(field.name());
                    text.append("`");
                    text
                },
                Mismatch::WrongType(field) => {
                    let mut text = String::from_str("variant `");
                    text.append(variant.as_str());
                    text.append("`: wrong type of field `");
                    text.append(field.name());
                    text.append("`");
                    text
                },
            },
        }
    }
}

} // verus!
