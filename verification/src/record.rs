//! A decoded record: what a codec has read out of a payload, before it is
//! known whether that is a request.
//!
//! The codec reads bytes and knows the names and types of the fields. It
//! reports, for each field name, what the payload holds there; whether that
//! makes a request of some generation is decided here.

use vstd::prelude::*;
use crate::error::{Mismatch, RequestError, RequestErrorView};
use crate::schema::{FieldName, FieldsView, RequestKind};
use crate::verification::{KeylessInfo, KeylessInfoView, KeylessPrefixInfo, KeylessPrefixInfoView};
use std::collections::HashMap;

verus! {

/// What a record holds under one field name.
#[derive(Debug, Clone, PartialEq, Eq)]
pub enum Slot<T> {
    /// Nothing: the payload has no such field.
    Absent,
    /// The payload has the field and says that it has no value.
    Null,
    /// Something that is not of the field's type.
    Mistyped,
    /// A value of the field's type.
    Given(T),
}

impl<T> Slot<T> {
    /// The value under the name, where one of the field's type is given.
    pub open spec fn value(self) -> Option<T> {
        match self {
            Slot::Given(value) => Some(value),
            _ => None,
        }
    }

    /// The value of a field that the variant requires: the value given,
    /// or else what is wrong with the record at this field. A field that
    /// must have a value and is said to have none is of the wrong type.
    pub fn required(self, variant: &str, field: FieldName) -> (result: Result<T, RequestError>)
        ensures
            match self {
                Slot::Given(value) => result == Ok::<T, RequestError>(value),
                Slot::Absent => result matches Err(error) && error@
                    == (RequestErrorView::MalformedRequest {
                    variant: variant@,
                    mismatch: Mismatch::MissingField(field),
                }),
                Slot::Null | Slot::Mistyped => result matches Err(error) && error@
                    == (RequestErrorView::MalformedRequest {
                    variant: variant@,
                    mismatch: Mismatch::WrongType(field),
                }),
            },
    {
        match self {
            Slot::Given(value) => Ok(value),
            Slot::Absent => Err(RequestError::missing_field(variant, field)),
            Slot::Null | Slot::Mistyped => Err(RequestError::wrong_type(variant, field)),
        }
    }

    /// The value of a field that may be left out: the value given, if one
    /// is, or else what is wrong with the record at this field. To say
    /// that such a field has no value is to leave it out.
    pub fn optional(self, variant: &str, field: FieldName) -> (result: Result<
        Option<T>,
        RequestError,
    >)
        ensures
            match self {
                Slot::Given(value) => result == Ok::<Option<T>, RequestError>(Some(value)),
                Slot::Absent | Slot::Null => result == Ok::<Option<T>, RequestError>(None),
                Slot::Mistyped => result matches Err(error) && error@
                    == (RequestErrorView::MalformedRequest {
                    variant: variant@,
                    mismatch: Mismatch::WrongType(field),
                }),
            },
    {
        match self {
            Slot::Given(value) => Ok(Some(value)),
            Slot::Absent | Slot::Null => Ok(None),
            Slot::Mistyped => Err(RequestError::wrong_type(variant, field)),
        }
    }
}

impl<T: DeepView> DeepView for Slot<T> {
    type V = Slot<T::V>;

    open spec fn deep_view(&self) -> Slot<T::V> {
        match self {
            Slot::Absent => Slot::Absent,
            Slot::Null => Slot::Null,
            Slot::Mistyped => Slot::Mistyped,
            Slot::Given(value) => Slot::Given(value.deep_view()),
        }
    }
}

/// The fields of a record: one slot for each field name that a variant of
/// some generation has. There is none for the host of a DNS lookup: no
/// generation has a variant with such a field, so no record can carry one.
///
/// An empty slot and a slot that holds an empty collection are different
/// things: the first says that nothing was given, the second that an empty
/// collection was.
#[derive(Debug, Clone, PartialEq, Eq)]
pub struct RecordFields {
    pub image: Slot<String>,
    pub pub_keys: Slot<Vec<String>>,
    pub keyless: Slot<Vec<KeylessInfo>>,
    pub keyless_prefix: Slot<Vec<KeylessPrefixInfo>>,
    pub owner: Slot<String>,
    pub repo: Slot<String>,
    pub annotations: Slot<HashMap<String, String>>,
}

/// Mathematical content of the fields of a record.
pub struct RecordView {
    pub image: Slot<Seq<char>>,
    pub pub_keys: Slot<Seq<Seq<char>>>,
    pub keyless: Slot<Seq<KeylessInfoView>>,
    pub keyless_prefix: Slot<Seq<KeylessPrefixInfoView>>,
    pub owner: Slot<Seq<char>>,
    pub repo: Slot<Seq<char>>,
    pub annotations: Slot<Map<Seq<char>, Seq<char>>>,
}

impl View for RecordFields {
    type V = RecordView;

    open spec fn view(&self) -> RecordView {
        RecordView {
            image: self.image.deep_view(),
            pub_keys: self.pub_keys.deep_view(),
            keyless: self.keyless.deep_view(),
            keyless_prefix: self.keyless_prefix.deep_view(),
            owner: self.owner.deep_view(),
            repo: self.repo.deep_view(),
            annotations: self.annotations.deep_view(),
        }
    }
}

impl Default for RecordFields {
    /// The fields of a record that holds nothing.
    fn default() -> (fields: RecordFields)
        ensures
            fields@ == RecordView::empty(),
    {
        RecordFields {
            image: Slot::Absent,
            pub_keys: Slot::Absent,
            keyless: Slot::Absent,
            keyless_prefix: Slot::Absent,
            owner: Slot::Absent,
            repo: Slot::Absent,
            annotations: Slot::Absent,
        }
    }
}

impl RecordView {
    /// The record that holds nothing under any name.
    pub open spec fn empty() -> RecordView {
        RecordView {
            image: Slot::Absent,
            pub_keys: Slot::Absent,
            keyless: Slot::Absent,
            keyless_prefix: Slot::Absent,
            owner: Slot::Absent,
            repo: Slot::Absent,
            annotations: Slot::Absent,
        }
    }

    /// Whether the record holds a value of the field's type under the name.
    pub open spec fn is_given(self, field: FieldName) -> bool {
        match field {
            FieldName::Image => self.image is Given,
            FieldName::PubKeys => self.pub_keys is Given,
            FieldName::Keyless => self.keyless is Given,
            FieldName::KeylessPrefix => self.keyless_prefix is Given,
            FieldName::Owner => self.owner is Given,
            FieldName::Repo => self.repo is Given,
            FieldName::Annotations => self.annotations is Given,
            FieldName::Host => false,
        }
    }

    /// Whether the record says under the name that there is no value.
    pub open spec fn is_null(self, field: FieldName) -> bool {
        match field {
            FieldName::Image => self.image is Null,
            FieldName::PubKeys => self.pub_keys is Null,
            FieldName::Keyless => self.keyless is Null,
            FieldName::KeylessPrefix => self.keyless_prefix is Null,
            FieldName::Owner => self.owner is Null,
            FieldName::Repo => self.repo is Null,
            FieldName::Annotations => self.annotations is Null,
            FieldName::Host => false,
        }
    }

    /// Whether the record holds something of another type under the name.
    pub open spec fn is_mistyped(self, field: FieldName) -> bool {
        match field {
            FieldName::Image => self.image is Mistyped,
            FieldName::PubKeys => self.pub_keys is Mistyped,
            FieldName::Keyless => self.keyless is Mistyped,
            FieldName::KeylessPrefix => self.keyless_prefix is Mistyped,
            FieldName::Owner => self.owner is Mistyped,
            FieldName::Repo => self.repo is Mistyped,
            FieldName::Annotations => self.annotations is Mistyped,
            FieldName::Host => false,
        }
    }

    /// What is wrong with the record, read as a request of the given
    /// variant, at one field of the variant. A value of another type is
    /// wrong at any field. At a field that the variant requires, so is the
    /// statement that there is no value, which is no value of the field's
    /// type, and so is the absence of the field.
    pub open spec fn mismatch_at(self, kind: RequestKind, field: FieldName) -> Option<Mismatch> {
        if self.is_mistyped(field) || (self.is_null(field) && kind.is_required(field)) {
            Some(Mismatch::WrongType(field))
        } else if kind.is_required(field) && !self.is_given(field) {
            Some(Mismatch::MissingField(field))
        } else {
            None
        }
    }

    /// What is wrong with the record, read as a request of the given
    /// variant, at the first field of the variant, in the variant's own
    /// order, at which something is.
    pub open spec fn first_mismatch(self, kind: RequestKind) -> Option<Mismatch> {
        let declared = kind.fields();
        if exists|i: int|
            0 <= i < declared.len() && (#[trigger] self.mismatch_at(kind, declared[i])) is Some {
            let first = choose|i: int|
                0 <= i < declared.len() && (#[trigger] self.mismatch_at(kind, declared[i])) is Some
                    && forall|j: int|
                    0 <= j < i ==> (#[trigger] self.mismatch_at(kind, declared[j])) is None;
            self.mismatch_at(kind, declared[first])
        } else {
            None
        }
    }

    /// The fields of the request of the given variant that the record
    /// holds: under each name of a field of the variant, the value given
    /// there, if one is. What the record holds under other names is left
    /// aside.
    pub open spec fn fields_of(self, kind: RequestKind) -> FieldsView {
        FieldsView {
            image: if kind.has_field(FieldName::Image) {
                self.image.value()
            } else {
                None
            },
            pub_keys: if kind.has_field(FieldName::PubKeys) {
                self.pub_keys.value()
            } else {
                None
            },
            keyless: if kind.has_field(FieldName::Keyless) {
                self.keyless.value()
            } else {
                None
            },
            keyless_prefix: if kind.has_field(FieldName::KeylessPrefix) {
                self.keyless_prefix.value()
            } else {
                None
            },
            owner: if kind.has_field(FieldName::Owner) {
                self.owner.value()
            } else {
                None
            },
            repo: if kind.has_field(FieldName::Repo) {
                self.repo.value()
            } else {
                None
            },
            annotations: if kind.has_field(FieldName::Annotations) {
                self.annotations.value()
            } else {
                None
            },
            host: None,
        }
    }
}

impl FieldsView {
    /// The record that holds these fields, all but a host: there is no
    /// slot for one.
    pub open spec fn as_record(self) -> RecordView {
        RecordView {
            image: slot_of(self.image),
            pub_keys: slot_of(self.pub_keys),
            keyless: slot_of(self.keyless),
            keyless_prefix: slot_of(self.keyless_prefix),
            owner: slot_of(self.owner),
            repo: slot_of(self.repo),
            annotations: slot_of(self.annotations),
        }
    }
}

/// The slot that holds the given value, or nothing.
pub open spec fn slot_of<T>(value: Option<T>) -> Slot<T> {
    match value {
        Some(value) => Slot::Given(value),
        None => Slot::Absent,
    }
}

/// The first mismatch, found by going through the variant's fields in
/// order: no variant has more than four.
pub proof fn lemma_first_mismatch_in_order(record: RecordView, kind: RequestKind)
    ensures
        1 <= kind.fields().len() <= 4,
        record.first_mismatch(kind) == {
            let declared = kind.fields();
            if record.mismatch_at(kind, declared[0]) is Some {
                record.mismatch_at(kind, declared[0])
            } else if declared.len() > 1 && record.mismatch_at(kind, declared[1]) is Some {
                record.mismatch_at(kind, declared[1])
            } else if declared.len() > 2 && record.mismatch_at(kind, declared[2]) is Some {
                record.mismatch_at(kind, declared[2])
            } else if declared.len() > 3 && record.mismatch_at(kind, declared[3]) is Some {
                record.mismatch_at(kind, declared[3])
            } else {
                None
            }
        },
{
    let declared = kind.fields();
    let wrong = |i: int| 0 <= i < declared.len() && record.mismatch_at(kind, declared[i]) is Some;
    let first = |i: int|
        wrong(i) && forall|j: int|
            0 <= j < i ==> (#[trigger] record.mismatch_at(kind, declared[j])) is None;
    if wrong(0) {
        assert(first(0));
    } else if wrong(1) {
        assert(first(1));
    } else if wrong(2) {
        assert(first(2));
    } else if wrong(3) {
        assert(first(3));
    }
}

} // verus!
