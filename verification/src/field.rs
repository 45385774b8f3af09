//! The fields of a record: how a key is looked up in an object and how the
//! value found there is decoded.
//!
//! A record is decoded in two rounds. First every declared key that the
//! object holds is decoded, in the order of the record's declaration, and
//! the first malformed value is reported. Only then is a required key that
//! the object lacks reported. So a malformed field is never hidden behind a
//! missing one.

use vstd::prelude::*;
use crate::error::{DecodeError, DecodeErrorView, RecordKind};
use crate::model::{maybe, optional_outcome, outcome};
use crate::scalar::{boolean_of, integer_of, normalize_boolean, normalize_integer, SNBool, SNum};
use crate::wire::{distinct_keys, member_views, Members, WireValue, WireView};

verus! {

/// Whether `index` is the first place at which `key` occurs in `members`.
pub open spec fn first_at(members: Members, key: Seq<char>, index: int) -> bool {
    &&& 0 <= index < members.len()
    &&& members[index].0 == key
    &&& forall|j: int| 0 <= j < index ==> (#[trigger] members[j]).0 != key
}

/// The document under `key`, at its first occurrence; `None` where the
/// object lacks the key.
pub open spec fn member(members: Members, key: Seq<char>) -> Option<WireView> {
    if exists|i: int| first_at(members, key, i) {
        Some(members[choose|i: int| first_at(members, key, i)].1)
    } else {
        None
    }
}

/// A key is found where it first occurs.
pub proof fn lemma_member_at(members: Members, key: Seq<char>, index: int)
    requires
        first_at(members, key, index),
    ensures
        member(members, key) == Some(members[index].1),
{
    let chosen = choose|i: int| first_at(members, key, i);
    if chosen < index {
        assert(members[chosen].0 != key);
    } else if index < chosen {
        assert(members[index].0 != key);
    }
}

/// A key that occurs nowhere is not found.
pub proof fn lemma_member_absent(members: Members, key: Seq<char>)
    requires
        forall|j: int| 0 <= j < members.len() ==> (#[trigger] members[j]).0 != key,
    ensures
        member(members, key) is None,
{
}

/// In an object that holds no key twice, every member is the one found under
/// its key: reading a key at its first occurrence reads its only one.
pub proof fn every_member_is_found(members: Members, index: int)
    requires
        distinct_keys(members),
        0 <= index < members.len(),
    ensures
        member(members, members[index].0) == Some(members[index].1),
{
    assert(first_at(members, members[index].0, index));
    lemma_member_at(members, members[index].0, index);
}

/// The key under which a field with two names is read: the first name
/// unless only the second occurs.
pub open spec fn key_in_use(members: Members, key: Seq<char>, alias: Seq<char>) -> Seq<char> {
    if member(members, key) is None && member(members, alias) is Some {
        alias
    } else {
        key
    }
}

/// The document of a field with two names: that under the first name where
/// it occurs, else that under the second.
pub open spec fn member_either(members: Members, key: Seq<char>, alias: Seq<char>) -> Option<
    WireView,
> {
    member(members, key_in_use(members, key, alias))
}

/// Where an object holds both names of a field, the first name is read; the
/// second is read only where the first does not occur.
pub proof fn first_name_wins(members: Members, key: Seq<char>, alias: Seq<char>)
    ensures
        member(members, key) is Some ==> key_in_use(members, key, alias) == key && member_either(
            members,
            key,
            alias,
        ) == member(members, key),
        member(members, key) is None ==> member_either(members, key, alias) == member(
            members,
            alias,
        ),
{
}

/// Whether a document is one of the two "nothing here" markers: `null` or
/// the empty string.
pub open spec fn is_blank(value: WireView) -> bool {
    value is Null || value == WireView::String(Seq::<char>::empty())
}

/// The failure of the field `key` of `record`, which holds `raw`.
pub open spec fn field_failure(
    record: RecordKind,
    key: Seq<char>,
    raw: WireView,
    cause: DecodeErrorView,
) -> DecodeErrorView {
    DecodeErrorView::FieldDecodeFailure { record, field: key, raw, cause: Box::new(cause) }
}

/// How a field fares whose every present value is decoded: nothing where the
/// key is missing, else what `decoder` makes of the value, a failure being
/// reported with the field's name.
pub open spec fn held<T>(
    found: Option<WireView>,
    decoder: spec_fn(WireView) -> Result<T, DecodeErrorView>,
    record: RecordKind,
    key: Seq<char>,
) -> Result<Option<T>, DecodeErrorView> {
    match found {
        None => Ok(None),
        Some(value) => match decoder(value) {
            Ok(decoded) => Ok(Some(decoded)),
            Err(cause) => Err(field_failure(record, key, value, cause)),
        },
    }
}

/// How an optional scalar or list field fares: `null` and the empty string
/// count as absent, any other value is decoded.
pub open spec fn held_unless_blank<T>(
    found: Option<WireView>,
    decoder: spec_fn(WireView) -> Result<T, DecodeErrorView>,
    record: RecordKind,
    key: Seq<char>,
) -> Result<Option<T>, DecodeErrorView> {
    match found {
        Some(value) => if is_blank(value) {
            Ok(None)
        } else {
            held(found, decoder, record, key)
        },
        None => Ok(None),
    }
}

/// How an optional text field fares: `null` counts as absent, while the
/// empty string is a text that is present and empty.
pub open spec fn held_unless_null<T>(
    found: Option<WireView>,
    decoder: spec_fn(WireView) -> Result<T, DecodeErrorView>,
    record: RecordKind,
    key: Seq<char>,
) -> Result<Option<T>, DecodeErrorView> {
    match found {
        Some(value) => if value is Null {
            Ok(None)
        } else {
            held(found, decoder, record, key)
        },
        None => Ok(None),
    }
}

/// What a text field makes of a document: only a string is a text.
pub open spec fn text_of(value: WireView) -> Result<Seq<char>, DecodeErrorView> {
    match value {
        WireView::String(text) => Ok(text),
        _ => Err(DecodeErrorView::UnsupportedShape),
    }
}

/// The failure of a field, if it failed.
pub open spec fn fault_of<T>(field: Result<T, DecodeErrorView>) -> Option<DecodeErrorView> {
    match field {
        Ok(_) => None,
        Err(error) => Some(error),
    }
}

/// The failure of a required field that decoded to nothing: its key is
/// missing.
pub open spec fn missing<T>(
    field: Result<Option<T>, DecodeErrorView>,
    record: RecordKind,
    key: Seq<char>,
) -> Option<DecodeErrorView> {
    if field == Ok::<Option<T>, DecodeErrorView>(None) {
        Some(DecodeErrorView::MissingRequiredField { record, field: key })
    } else {
        None
    }
}

/// The earlier of two failures: `first` if there is one, else `second`.
pub open spec fn earlier(first: Option<DecodeErrorView>, second: Option<DecodeErrorView>) -> Option<
    DecodeErrorView,
> {
    match first {
        Some(_) => first,
        None => second,
    }
}

/// Failures in the order in which a record reports them.
pub trait Precedence: Sized {
    /// This failure if there is one, else `later`.
    spec fn before(self, later: Self) -> Self;
}

impl Precedence for Option<DecodeErrorView> {
    open spec fn before(self, later: Self) -> Self {
        earlier(self, later)
    }
}

/// Looks a key up in the members of an object.
pub fn find<'a>(members: &'a Vec<(String, WireValue)>, key: &str) -> (found: Option<&'a WireValue>)
    ensures
        maybe(found) == member(member_views(members@), key@),
{
    let wanted = key.to_owned();
    let mut i: usize = 0;
    while i < members.len()
        invariant
            i <= members.len(),
            wanted@ == key@,
            forall|j: int| 0 <= j < i ==> (#[trigger] member_views(members@)[j]).0 != key@,
        decreases members.len() - i,
    {
        if members[i].0 == wanted {
            proof {
                lemma_member_at(member_views(members@), key@, i as int);
            }
            return Some(&members[i].1);
        }
        i += 1;
    }
    proof {
        lemma_member_absent(member_views(members@), key@);
    }
    None
}

/// Looks up a field that has two names. Returns the name in use and the
/// document under it.
pub fn find_either<'a, 'b>(
    members: &'a Vec<(String, WireValue)>,
    key: &'b str,
    alias: &'b str,
) -> (found: (&'b str, Option<&'a WireValue>))
    ensures
        found.0@ == key_in_use(member_views(members@), key@, alias@),
        maybe(found.1) == member_either(member_views(members@), key@, alias@),
{
    match find(members, key) {
        Some(value) => (key, Some(value)),
        None => match find(members, alias) {
            Some(value) => (alias, Some(value)),
            None => (key, None),
        },
    }
}

/// The failure of the field `key` of `record`, which holds `raw`.
pub fn fail_field(record: RecordKind, key: &str, raw: &WireValue, cause: DecodeError) -> (error:
    DecodeError)
    ensures
        error@ == field_failure(record, key@, raw@, cause@),
{
    DecodeError::FieldDecodeFailure {
        record,
        field: key.to_owned(),
        raw: raw.duplicate(),
        cause: Box::new(cause),
    }
}

/// Whether a document is `null` or the empty string.
pub fn blank(value: &WireValue) -> (yes: bool)
    ensures
        yes == is_blank(value@),
{
    match value {
        WireValue::Null => true,
        WireValue::String(text) => {
            let empty = text.as_str().is_empty();
            assert(empty ==> text@ =~= Seq::<char>::empty());
            empty
        },
        _ => false,
    }
}

/// Decodes an integer field whose every present value counts.
pub fn integer_field(found: Option<&WireValue>, record: RecordKind, key: &str) -> (field: Result<
    Option<SNum>,
    DecodeError,
>)
    ensures
        optional_outcome(field) == held(maybe(found), |v: WireView| integer_of(v), record, key@),
{
    match found {
        None => Ok(None),
        Some(value) => match normalize_integer(value) {
            Ok(number) => Ok(Some(number)),
            Err(cause) => Err(fail_field(record, key, value, cause)),
        },
    }
}

/// Decodes an optional integer field.
pub fn optional_integer_field(found: Option<&WireValue>, record: RecordKind, key: &str) -> (field:
    Result<Option<SNum>, DecodeError>)
    ensures
        optional_outcome(field) == held_unless_blank(
            maybe(found),
            |v: WireView| integer_of(v),
            record,
            key@,
        ),
{
    match found {
        None => Ok(None),
        Some(value) => if blank(value) {
            Ok(None)
        } else {
            integer_field(found, record, key)
        },
    }
}

/// Decodes an optional flag field.
pub fn optional_boolean_field(found: Option<&WireValue>, record: RecordKind, key: &str) -> (field:
    Result<Option<SNBool>, DecodeError>)
    ensures
        optional_outcome(field) == held_unless_blank(
            maybe(found),
            |v: WireView| boolean_of(v),
            record,
            key@,
        ),
{
    match found {
        None => Ok(None),
        Some(value) => if blank(value) {
            Ok(None)
        } else {
            match normalize_boolean(value) {
                Ok(flag) => Ok(Some(flag)),
                Err(cause) => Err(fail_field(record, key, value, cause)),
            }
        },
    }
}

/// Decodes a document as a text.
pub fn decode_text(value: &WireValue) -> (text: Result<String, DecodeError>)
    ensures
        outcome(text) == text_of(value@),
{
    match value {
        WireValue::String(text) => Ok(text.clone()),
        _ => Err(DecodeError::UnsupportedShape),
    }
}

/// Decodes a text field whose every present value counts.
pub fn text_field(found: Option<&WireValue>, record: RecordKind, key: &str) -> (field: Result<
    Option<String>,
    DecodeError,
>)
    ensures
        optional_outcome(field) == held(maybe(found), |v: WireView| text_of(v), record, key@),
{
    match found {
        None => Ok(None),
        Some(value) => match decode_text(value) {
            Ok(text) => Ok(Some(text)),
            Err(cause) => Err(fail_field(record, key, value, cause)),
        },
    }
}

/// Decodes an optional text field.
pub fn optional_text_field(found: Option<&WireValue>, record: RecordKind, key: &str) -> (field:
    Result<Option<String>, DecodeError>)
    ensures
        optional_outcome(field) == held_unless_null(
            maybe(found),
            |v: WireView| text_of(v),
            record,
            key@,
        ),
{
    match found {
        None => Ok(None),
        Some(value) => match value {
            WireValue::Null => Ok(None),
            _ => text_field(found, record, key),
        },
    }
}

/// Insists on a required field: what it decoded to, or the report that its
/// key is missing.
pub fn require<T>(field: Option<T>, record: RecordKind, key: &str) -> (value: Result<
    T,
    DecodeError,
>)
    ensures
        match field {
            Some(decoded) => value == Ok::<T, DecodeError>(decoded),
            None => value is Err && value->Err_0@ == (DecodeErrorView::MissingRequiredField {
                record,
                field: key@,
            }),
        },
{
    match field {
        Some(decoded) => Ok(decoded),
        None => Err(DecodeError::MissingRequiredField { record, field: key.to_owned() }),
    }
}

} // verus!
