//! Decoding failures.

use vstd::prelude::*;
use crate::wire::{WireValue, WireView};

verus! {

/// The record a field belongs to.
#[derive(Debug, Clone, Copy, PartialEq, Eq)]
pub enum RecordKind {
    ForumGroup,
    Forum,
    TimelineForum,
    Thread,
    ThreadReply,
    UserCookie,
}

/// Why a wire value could not be decoded.
#[derive(Debug, PartialEq, Eq)]
pub enum DecodeError {
    /// The JSON kind of the value cannot stand for the wanted target.
    UnsupportedShape,
    /// A non-empty string that is not a base-10 signed 64-bit integer.
    NotAnInteger,
    /// A number with a fraction or exponent, or beyond the signed 64-bit range.
    NumberOutOfRange,
    /// A non-empty string that is not a base-10 integer, where a flag was wanted.
    NotABoolean,
    /// An integer other than 0 and 1, where a flag was wanted.
    BooleanOutOfRange,
    /// A string that should hold JSON text and does not.
    EnvelopeParseFailure,
    /// A field that is present and malformed: the record, the key as it
    /// stands in the document, the value found there, and what is wrong
    /// with it.
    FieldDecodeFailure {
        record: RecordKind,
        field: String,
        raw: WireValue,
        cause: Box<DecodeError>,
    },
    /// A required key that the document lacks.
    MissingRequiredField { record: RecordKind, field: String },
}

/// The mathematical content of a [`DecodeError`].
pub enum DecodeErrorView {
    UnsupportedShape,
    NotAnInteger,
    NumberOutOfRange,
    NotABoolean,
    BooleanOutOfRange,
    EnvelopeParseFailure,
    FieldDecodeFailure {
        record: RecordKind,
        field: Seq<char>,
        raw: WireView,
        cause: Box<DecodeErrorView>,
    },
    MissingRequiredField { record: RecordKind, field: Seq<char> },
}

impl View for DecodeError {
    type V = DecodeErrorView;

    open spec fn view(&self) -> DecodeErrorView
        decreases self,
    {
        match self {
            DecodeError::UnsupportedShape => DecodeErrorView::UnsupportedShape,
            DecodeError::NotAnInteger => DecodeErrorView::NotAnInteger,
            DecodeError::NumberOutOfRange => DecodeErrorView::NumberOutOfRange,
            DecodeError::NotABoolean => DecodeErrorView::NotABoolean,
            DecodeError::BooleanOutOfRange => DecodeErrorView::BooleanOutOfRange,
            DecodeError::EnvelopeParseFailure => DecodeErrorView::EnvelopeParseFailure,
            DecodeError::FieldDecodeFailure { record, field, raw, cause } => {
                DecodeErrorView::FieldDecodeFailure {
                    record: *record,
                    field: field@,
                    raw: raw@,
                    cause: Box::new((**cause)@),
                }
            },
            DecodeError::MissingRequiredField { record, field } => {
                DecodeErrorView::MissingRequiredField { record: *record, field: field@ }
            },
        }
    }
}

impl DecodeErrorView {
    /// The failure itself, with the fields it was found under taken off.
    pub open spec fn root(self) -> DecodeErrorView
        decreases self,
    {
        match self {
            DecodeErrorView::FieldDecodeFailure { cause, .. } => cause.root(),
            _ => self,
        }
    }
}

impl DecodeError {
    /// A copy of this failure with the same content.
    pub fn duplicate(&self) -> (copy: DecodeError)
        ensures
            copy@ == self@,
        decreases self,
    {
        match self {
            DecodeError::UnsupportedShape => DecodeError::UnsupportedShape,
            DecodeError::NotAnInteger => DecodeError::NotAnInteger,
            DecodeError::NumberOutOfRange => DecodeError::NumberOutOfRange,
            DecodeError::NotABoolean => DecodeError::NotABoolean,
            DecodeError::BooleanOutOfRange => DecodeError::BooleanOutOfRange,
            DecodeError::EnvelopeParseFailure => DecodeError::EnvelopeParseFailure,
            DecodeError::FieldDecodeFailure { record, field, raw, cause } => {
                DecodeError::FieldDecodeFailure {
                    record: *record,
                    field: field.clone(),
                    raw: raw.duplicate(),
                    cause: Box::new(cause.duplicate()),
                }
            },
            DecodeError::MissingRequiredField { record, field } => {
                DecodeError::MissingRequiredField { record: *record, field: field.clone() }
            },
        }
    }

    /// The failure itself, with the fields it was found under taken off.
    pub fn root(&self) -> (innermost: &DecodeError)
        ensures
            innermost@ == self@.root(),
        decreases self,
    {
        match self {
            DecodeError::FieldDecodeFailure { cause, .. } => cause.root(),
            _ => self,
        }
    }
}

impl Clone for DecodeError {
    fn clone(&self) -> (copy: Self)
        ensures
            copy@ == self@,
    {
        self.duplicate()
    }
}

} // verus!
