//! The wire form of canonical values, for documents that are sent back.
//!
//! A canonical integer is written as a number, a flag as a boolean, a text
//! as a string, and an absent value as `null`.

use vstd::prelude::*;
use crate::model::{maybe, maybe_views, views};
use crate::scalar::{SNBool, SNum};
use crate::wire::{lemma_array_view, WireNumber, WireValue, WireView};

verus! {

/// The wire form of an integer.
pub open spec fn integer_wire(n: i64) -> WireView {
    WireView::Number(WireNumber::of_i64(n))
}

/// The wire form of a flag.
pub open spec fn flag_wire(flag: bool) -> WireView {
    WireView::Bool(flag)
}

/// The wire form of a text.
pub open spec fn text_wire(text: Seq<char>) -> WireView {
    WireView::String(text)
}

/// The wire form of an optional value: `null` where it is absent.
pub open spec fn optional_wire<T>(value: Option<T>, form: spec_fn(T) -> WireView) -> WireView {
    match value {
        Some(held) => form(held),
        None => WireView::Null,
    }
}

/// The wire form of a list: the array of the wire forms of its items.
pub open spec fn list_wire<T>(items: Seq<T>, form: spec_fn(T) -> WireView) -> WireView {
    WireView::Array(Seq::new(items.len(), |i: int| form(items[i])))
}

/// A written list holds no key twice where none of its items does.
pub proof fn lemma_list_wire_well_formed<T>(items: Seq<T>, form: spec_fn(T) -> WireView)
    requires
        forall|i: int| 0 <= i < items.len() ==> form(#[trigger] items[i]).well_formed(),
    ensures
        list_wire(items, form).well_formed(),
{
    let written = list_wire(items, form)->Array_0;
    assert forall|i: int| 0 <= i < written.len() implies (#[trigger] written[i]).well_formed() by {
        assert(written[i] == form(items[i]));
    }
}

/// Writes an integer.
pub fn encode_integer(n: SNum) -> (wire: WireValue)
    ensures
        wire@ == integer_wire(n@),
{
    WireValue::Number(WireNumber::from_i64(n.into_inner()))
}

/// Writes a flag.
pub fn encode_flag(flag: SNBool) -> (wire: WireValue)
    ensures
        wire@ == flag_wire(flag@),
{
    WireValue::Bool(flag.into_inner())
}

/// Writes a text.
pub fn encode_text(text: &String) -> (wire: WireValue)
    ensures
        wire@ == text_wire(text@),
{
    WireValue::String(text.clone())
}

/// Writes an optional integer.
pub fn encode_optional_integer(n: Option<SNum>) -> (wire: WireValue)
    ensures
        wire@ == optional_wire(maybe(n), |n: i64| integer_wire(n)),
{
    match n {
        Some(n) => encode_integer(n),
        None => WireValue::Null,
    }
}

/// Writes an optional flag.
pub fn encode_optional_flag(flag: Option<SNBool>) -> (wire: WireValue)
    ensures
        wire@ == optional_wire(maybe(flag), |flag: bool| flag_wire(flag)),
{
    match flag {
        Some(flag) => encode_flag(flag),
        None => WireValue::Null,
    }
}

/// Writes an optional text.
pub fn encode_optional_text(text: &Option<String>) -> (wire: WireValue)
    ensures
        wire@ == optional_wire(maybe(*text), |text: Seq<char>| text_wire(text)),
{
    match text {
        Some(text) => encode_text(text),
        None => WireValue::Null,
    }
}

/// Writes a list of integers.
pub fn encode_integer_list(items: &Vec<SNum>) -> (wire: WireValue)
    ensures
        wire@ == list_wire(views(items@), |n: i64| integer_wire(n)),
{
    let mut written: Vec<WireValue> = Vec::new();
    let mut i: usize = 0;
    while i < items.len()
        invariant
            i <= items.len(),
            written.len() == i,
            forall|j: int| 0 <= j < i ==> (#[trigger] written@[j])@ == integer_wire(items@[j]@),
        decreases items.len() - i,
    {
        written.push(encode_integer(items[i]));
        i += 1;
    }
    proof {
        lemma_array_view(written);
        assert(views(written@) =~= list_wire(
            views(items@),
            |n: i64| integer_wire(n),
        )->Array_0);
    }
    WireValue::Array(written)
}

/// Writes an optional list of integers.
pub fn encode_optional_integer_list(items: &Option<Vec<SNum>>) -> (wire: WireValue)
    ensures
        wire@ == optional_wire(
            maybe_views(*items),
            |items: Seq<i64>| list_wire(items, |n: i64| integer_wire(n)),
        ),
{
    match items {
        Some(items) => encode_integer_list(items),
        None => WireValue::Null,
    }
}

/// Writes each item of a list with `encoder`, which `form` describes.
pub(crate) fn encode_items<T: View, F: Fn(&T) -> WireValue>(
    items: &Vec<T>,
    encoder: F,
    Ghost(form): Ghost<spec_fn(T::V) -> WireView>,
) -> (wire: WireValue)
    requires
        forall|item: &T| call_requires(encoder, (item,)),
        forall|item: &T, written: WireValue|
            call_ensures(encoder, (item,), written) ==> written@ == form(item@),
    ensures
        wire@ == list_wire(views(items@), form),
{
    let mut written: Vec<WireValue> = Vec::new();
    let mut i: usize = 0;
    while i < items.len()
        invariant
            i <= items.len(),
            written.len() == i,
            forall|item: &T| call_requires(encoder, (item,)),
            forall|item: &T, written: WireValue|
                call_ensures(encoder, (item,), written) ==> written@ == form(item@),
            forall|j: int| 0 <= j < i ==> (#[trigger] written@[j])@ == form(items@[j]@),
        decreases items.len() - i,
    {
        written.push(encoder(&items[i]));
        i += 1;
    }
    proof {
        lemma_array_view(written);
        assert(views(written@) =~= list_wire(views(items@), form)->Array_0);
    }
    WireValue::Array(written)
}

/// Writes an optional list with `encoder`, which `form` describes.
pub(crate) fn encode_optional_items<T: View, F: Fn(&T) -> WireValue>(
    items: &Option<Vec<T>>,
    encoder: F,
    Ghost(form): Ghost<spec_fn(T::V) -> WireView>,
) -> (wire: WireValue)
    requires
        forall|item: &T| call_requires(encoder, (item,)),
        forall|item: &T, written: WireValue|
            call_ensures(encoder, (item,), written) ==> written@ == form(item@),
    ensures
        wire@ == optional_wire(maybe_views(*items), |items: Seq<T::V>| list_wire(items, form)),
{
    match items {
        Some(items) => encode_items(items, encoder, Ghost(form)),
        None => WireValue::Null,
    }
}

/// One member of an object: a key and the document under it.
pub fn member_of(key: &str, value: WireValue) -> (member: (String, WireValue))
    ensures
        member.0@ == key@,
        member.1 == value,
{
    (key.to_owned(), value)
}

} // verus!
