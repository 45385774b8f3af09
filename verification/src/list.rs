//! Lists: a JSON array decoded item by item, as a field of a record or on
//! its own.

use vstd::prelude::*;
use crate::encode::list_wire;
use crate::envelope::{deserialize_string_wrapped_json, envelope_of};
use crate::error::{DecodeError, DecodeErrorView, RecordKind};
use crate::field::{blank, fail_field, field_failure, held, held_unless_blank};
use crate::model::{list_outcome, maybe, optional_list_outcome, outcome, views};
use crate::scalar::{integer_of, normalize_integer, SNum};
use crate::wire::{lemma_array_view, WireValue, WireView};

verus! {

/// What decoding each of `items` in turn gives: the decoded items, or the
/// failure of the first item that fails.
pub open spec fn list_of<T>(
    items: Seq<WireView>,
    decoder: spec_fn(WireView) -> Result<T, DecodeErrorView>,
) -> Result<Seq<T>, DecodeErrorView>
    decreases items.len(),
{
    if items.len() == 0 {
        Ok(Seq::empty())
    } else {
        match list_of(items.drop_last(), decoder) {
            Err(error) => Err(error),
            Ok(front) => match decoder(items.last()) {
                Ok(item) => Ok(front.push(item)),
                Err(error) => Err(error),
            },
        }
    }
}

/// What decoding a document as a list gives: only an array is a list.
pub open spec fn array_of<T>(
    value: WireView,
    decoder: spec_fn(WireView) -> Result<T, DecodeErrorView>,
) -> Result<Seq<T>, DecodeErrorView> {
    match value {
        WireView::Array(items) => list_of(items, decoder),
        _ => Err(DecodeErrorView::UnsupportedShape),
    }
}

/// Once a leading part of a list has failed, the whole list fails the same
/// way.
pub proof fn lemma_list_failure_stays<T>(
    items: Seq<WireView>,
    decoder: spec_fn(WireView) -> Result<T, DecodeErrorView>,
    upto: int,
)
    requires
        0 <= upto <= items.len(),
        list_of(items.take(upto), decoder) is Err,
    ensures
        list_of(items, decoder) == list_of(items.take(upto), decoder),
    decreases items.len() - upto,
{
    if upto == items.len() {
        assert(items.take(upto) =~= items);
    } else {
        assert(items.take(upto + 1).drop_last() =~= items.take(upto));
        lemma_list_failure_stays(items, decoder, upto + 1);
    }
}

/// A list decodes to `values` where each item decodes to the value at its
/// place.
pub proof fn lemma_list_of_each<T>(
    items: Seq<WireView>,
    decoder: spec_fn(WireView) -> Result<T, DecodeErrorView>,
    values: Seq<T>,
)
    requires
        items.len() == values.len(),
        forall|i: int| 0 <= i < items.len() ==> decoder(#[trigger] items[i]) == Ok::<
            T,
            DecodeErrorView,
        >(values[i]),
    ensures
        list_of(items, decoder) == Ok::<Seq<T>, DecodeErrorView>(values),
    decreases items.len(),
{
    if items.len() == 0 {
        assert(values =~= Seq::<T>::empty());
    } else {
        lemma_list_of_each(items.drop_last(), decoder, values.drop_last());
        assert(values.drop_last().push(values.last()) =~= values);
    }
}

/// A written list decodes to the list it was written from, where every
/// item does.
pub proof fn lemma_written_list_decodes<T>(
    values: Seq<T>,
    form: spec_fn(T) -> WireView,
    decoder: spec_fn(WireView) -> Result<T, DecodeErrorView>,
)
    requires
        forall|i: int|
            0 <= i < values.len() ==> decoder(form(#[trigger] values[i])) == Ok::<
                T,
                DecodeErrorView,
            >(values[i]),
    ensures
        array_of(list_wire(values, form), decoder) == Ok::<Seq<T>, DecodeErrorView>(values),
{
    let items = list_wire(values, form)->Array_0;
    assert forall|i: int| 0 <= i < items.len() implies decoder(#[trigger] items[i]) == Ok::<
        T,
        DecodeErrorView,
    >(values[i]) by {
        assert(items[i] == form(values[i]));
    }
    lemma_list_of_each(items, decoder, values);
}

/// Decodes each item of a list with `decoder`, which `model` describes.
pub(crate) fn decode_items<T: View, F: Fn(&WireValue) -> Result<T, DecodeError>>(
    items: &Vec<WireValue>,
    decoder: F,
    Ghost(model): Ghost<spec_fn(WireView) -> Result<T::V, DecodeErrorView>>,
) -> (decoded: Result<Vec<T>, DecodeError>)
    requires
        forall|v: &WireValue| call_requires(decoder, (v,)),
        forall|v: &WireValue, r: Result<T, DecodeError>|
            call_ensures(decoder, (v,), r) ==> outcome(r) == model(v@),
    ensures
        list_outcome(decoded) == list_of(views(items@), model),
{
    let mut decoded: Vec<T> = Vec::new();
    let mut i: usize = 0;
    proof {
        assert(views(decoded@) =~= Seq::<T::V>::empty());
        assert(views(items@).take(0).len() == 0);
    }
    while i < items.len()
        invariant
            i <= items.len(),
            forall|v: &WireValue| call_requires(decoder, (v,)),
            forall|v: &WireValue, r: Result<T, DecodeError>|
                call_ensures(decoder, (v,), r) ==> outcome(r) == model(v@),
            list_of(views(items@).take(i as int), model) == Ok::<Seq<T::V>, DecodeErrorView>(
                views(decoded@),
            ),
        decreases items.len() - i,
    {
        proof {
            assert(views(items@).take(i + 1).drop_last() =~= views(items@).take(i as int));
        }
        match decoder(&items[i]) {
            Ok(item) => {
                let ghost before = views(decoded@);
                decoded.push(item);
                assert(views(decoded@) =~= before.push(item@));
            },
            Err(error) => {
                proof {
                    lemma_list_failure_stays(views(items@), model, i + 1);
                }
                return Err(error);
            },
        }
        i += 1;
    }
    proof {
        assert(views(items@).take(i as int) =~= views(items@));
    }
    Ok(decoded)
}

/// Decodes a document as a list of canonical integers.
pub fn decode_integer_list(value: &WireValue) -> (decoded: Result<Vec<SNum>, DecodeError>)
    ensures
        list_outcome(decoded) == array_of(value@, |v: WireView| integer_of(v)),
{
    match value {
        WireValue::Array(items) => {
            proof {
                lemma_array_view(*items);
            }
            decode_items(items, normalize_integer, Ghost(|v: WireView| integer_of(v)))
        },
        _ => Err(DecodeError::UnsupportedShape),
    }
}

/// Decodes a document as a list whose items `decoder` decodes, which
/// `model` describes.
pub(crate) fn decode_array<T: View, F: Fn(&WireValue) -> Result<T, DecodeError>>(
    value: &WireValue,
    decoder: F,
    Ghost(model): Ghost<spec_fn(WireView) -> Result<T::V, DecodeErrorView>>,
) -> (decoded: Result<Vec<T>, DecodeError>)
    requires
        forall|v: &WireValue| call_requires(decoder, (v,)),
        forall|v: &WireValue, r: Result<T, DecodeError>|
            call_ensures(decoder, (v,), r) ==> outcome(r) == model(v@),
    ensures
        list_outcome(decoded) == array_of(value@, model),
{
    match value {
        WireValue::Array(items) => {
            proof {
                lemma_array_view(*items);
            }
            decode_items(items, decoder, Ghost(model))
        },
        _ => Err(DecodeError::UnsupportedShape),
    }
}

/// Decodes a list field whose every present value counts.
pub(crate) fn list_field<T: View, F: Fn(&WireValue) -> Result<T, DecodeError>>(
    found: Option<&WireValue>,
    record: RecordKind,
    key: &str,
    decoder: F,
    Ghost(model): Ghost<spec_fn(WireView) -> Result<T::V, DecodeErrorView>>,
) -> (field: Result<Option<Vec<T>>, DecodeError>)
    requires
        forall|v: &WireValue| call_requires(decoder, (v,)),
        forall|v: &WireValue, r: Result<T, DecodeError>|
            call_ensures(decoder, (v,), r) ==> outcome(r) == model(v@),
    ensures
        optional_list_outcome(field) == held(
            maybe(found),
            |v: WireView| array_of(v, model),
            record,
            key@,
        ),
{
    match found {
        None => Ok(None),
        Some(value) => match decode_array(value, decoder, Ghost(model)) {
            Ok(items) => Ok(Some(items)),
            Err(cause) => Err(fail_field(record, key, value, cause)),
        },
    }
}

/// Decodes an optional list field.
pub(crate) fn optional_list_field<T: View, F: Fn(&WireValue) -> Result<T, DecodeError>>(
    found: Option<&WireValue>,
    record: RecordKind,
    key: &str,
    decoder: F,
    Ghost(model): Ghost<spec_fn(WireView) -> Result<T::V, DecodeErrorView>>,
) -> (field: Result<Option<Vec<T>>, DecodeError>)
    requires
        forall|v: &WireValue| call_requires(decoder, (v,)),
        forall|v: &WireValue, r: Result<T, DecodeError>|
            call_ensures(decoder, (v,), r) ==> outcome(r) == model(v@),
    ensures
        optional_list_outcome(field) == held_unless_blank(
            maybe(found),
            |v: WireView| array_of(v, model),
            record,
            key@,
        ),
{
    match found {
        None => Ok(None),
        Some(value) => if blank(value) {
            Ok(None)
        } else {
            list_field(found, record, key, decoder, Ghost(model))
        },
    }
}

/// How a field in an envelope fares: nothing where the key is missing, else
/// what the envelope decodes to, a failure being reported with the field's
/// name.
pub open spec fn held_envelope<T>(
    found: Option<WireView>,
    decoder: spec_fn(WireView) -> Result<T, DecodeErrorView>,
    record: RecordKind,
    key: Seq<char>,
) -> Result<Option<T>, DecodeErrorView> {
    match found {
        None => Ok(None),
        Some(value) => match envelope_of(value, decoder) {
            Ok(decoded) => Ok(decoded),
            Err(cause) => Err(field_failure(record, key, value, cause)),
        },
    }
}

/// Decodes a field that holds a list of integers in an envelope.
pub fn integer_list_envelope_field(
    found: Option<&WireValue>,
    record: RecordKind,
    key: &str,
) -> (field: Result<Option<Vec<SNum>>, DecodeError>)
    ensures
        optional_list_outcome(field) == held_envelope(
            maybe(found),
            |p: WireView| array_of(p, |v: WireView| integer_of(v)),
            record,
            key@,
        ),
{
    match found {
        None => Ok(None),
        Some(value) => match deserialize_string_wrapped_json(value, decode_integer_list) {
            Ok(items) => Ok(items),
            Err(cause) => Err(fail_field(record, key, value, cause)),
        },
    }
}

} // verus!
