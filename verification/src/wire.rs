//! Wire values: JSON documents as they arrive, before any normalization.

use vstd::prelude::*;
use crate::model::views;

verus! {

/// A JSON number, held by the three readings that the reader of the text
/// gives of it. Which reading counts is decided by [`WireNumber::integer`],
/// not by the reader.
#[derive(Debug, Clone, Copy, PartialEq, Eq)]
pub struct WireNumber {
    /// The number as a signed 64-bit integer, where the reader gives one.
    pub signed: Option<i64>,
    /// The number as an unsigned 64-bit integer, where the reader gives one.
    pub unsigned: Option<u64>,
    /// The bits of the number as a double, where the reader gives one. A
    /// number that the library writes itself has none.
    pub bits: Option<u64>,
}

impl WireNumber {
    /// The integer this number denotes: the signed reading where there is
    /// one, else the unsigned reading where there is one. A number with
    /// neither is no integer to the library: it was written with a fraction
    /// or an exponent, or lies beyond both 64-bit ranges.
    pub open spec fn integer(self) -> Option<int> {
        match self.signed {
            Some(n) => Some(n as int),
            None => match self.unsigned {
                Some(n) => Some(n as int),
                None => None,
            },
        }
    }

    /// The number that the library writes for an integer: its signed
    /// reading, its unsigned reading where it is not negative, and no bits.
    pub open spec fn of_i64(n: i64) -> WireNumber {
        WireNumber {
            signed: Some(n),
            unsigned: if n >= 0 {
                Some(n as u64)
            } else {
                None
            },
            bits: None,
        }
    }

    /// The number that the library writes for an integer.
    pub fn from_i64(n: i64) -> (number: Self)
        ensures
            number == Self::of_i64(n),
            number.integer() == Some(n as int),
    {
        WireNumber {
            signed: Some(n),
            unsigned: if n >= 0 {
                Some(n as u64)
            } else {
                None
            },
            bits: None,
        }
    }
}

/// A JSON document.
#[derive(Debug, PartialEq, Eq)]
pub enum WireValue {
    Null,
    Bool(bool),
    Number(WireNumber),
    String(String),
    Array(Vec<WireValue>),
    /// The members, in the order in which they are held. A key that occurs
    /// twice is read at its first occurrence.
    Object(Vec<(String, WireValue)>),
}

/// The mathematical content of a [`WireValue`].
pub enum WireView {
    Null,
    Bool(bool),
    Number(WireNumber),
    String(Seq<char>),
    Array(Seq<WireView>),
    Object(Seq<(Seq<char>, WireView)>),
}

/// The content of a document: the same tree, with texts as sequences of
/// characters and lists as sequences.
pub open spec fn content_of(value: WireValue) -> WireView
    decreases value,
{
    match value {
        WireValue::Null => WireView::Null,
        WireValue::Bool(b) => WireView::Bool(b),
        WireValue::Number(n) => WireView::Number(n),
        WireValue::String(s) => WireView::String(s@),
        WireValue::Array(items) => WireView::Array(
            Seq::new(
                items@.len(),
                |i: int|
                    if 0 <= i < items@.len() {
                        content_of(items@[i])
                    } else {
                        WireView::Null
                    },
            ),
        ),
        WireValue::Object(members) => WireView::Object(
            Seq::new(
                members@.len(),
                |i: int|
                    if 0 <= i < members@.len() {
                        (members@[i].0@, content_of(members@[i].1))
                    } else {
                        (Seq::empty(), WireView::Null)
                    },
            ),
        ),
    }
}

impl View for WireValue {
    type V = WireView;

    open spec fn view(&self) -> WireView {
        content_of(*self)
    }
}

/// The members of an object as keys and documents.
pub type Members = Seq<(Seq<char>, WireView)>;

/// The views of the members of an object, in order.
pub open spec fn member_views(members: Seq<(String, WireValue)>) -> Members {
    Seq::new(members.len(), |i: int| (members[i].0@, members[i].1@))
}

/// Whether no key occurs twice among the members of an object.
pub open spec fn distinct_keys(members: Members) -> bool {
    forall|i: int, j: int|
        0 <= i < j < members.len() ==> (#[trigger] members[i]).0 != (#[trigger] members[j]).0
}

impl WireView {
    /// Whether the document is one that a JSON map can hold: in each of its
    /// objects, at every depth, no key occurs twice.
    ///
    /// The members of an object are held as a list, which by itself would
    /// admit a key twice. Documents read from text and documents that the
    /// library writes are well formed. A decoder reads any document and
    /// takes a key at its first occurrence; in a well-formed document that
    /// is its only one.
    pub open spec fn well_formed(self) -> bool
        decreases self,
    {
        match self {
            WireView::Array(items) => forall|i: int|
                0 <= i < items.len() ==> (#[trigger] items[i]).well_formed(),
            WireView::Object(members) => distinct_keys(members) && forall|i: int|
                0 <= i < members.len() ==> (#[trigger] members[i]).1.well_formed(),
            _ => true,
        }
    }
}

/// The view of an array is the array of the views of its items.
pub proof fn lemma_array_view(items: Vec<WireValue>)
    ensures
        WireValue::Array(items)@ == WireView::Array(views(items@)),
{
    assert(WireValue::Array(items)@->Array_0 =~= views(items@));
}

/// The view of an object is the object of the views of its members.
pub proof fn lemma_object_view(members: Vec<(String, WireValue)>)
    ensures
        WireValue::Object(members)@ == WireView::Object(member_views(members@)),
{
    assert(WireValue::Object(members)@->Object_0 =~= member_views(members@));
}

impl WireValue {
    /// A copy of this document with the same content.
    pub fn duplicate(&self) -> (copy: WireValue)
        ensures
            copy@ == self@,
        decreases self,
    {
        match self {
            WireValue::Null => WireValue::Null,
            WireValue::Bool(b) => WireValue::Bool(*b),
            WireValue::Number(n) => WireValue::Number(*n),
            WireValue::String(s) => WireValue::String(s.clone()),
            WireValue::Array(items) => {
                let mut copies: Vec<WireValue> = Vec::new();
                let mut i: usize = 0;
                while i < items.len()
                    invariant
                        *self == WireValue::Array(*items),
                        i <= items.len(),
                        copies.len() == i,
                        forall|j: int| 0 <= j < i ==> copies@[j]@ == items@[j]@,
                    decreases items.len() - i,
                {
                    assert(decreases_to!(*self => self->Array_0));
                    copies.push(items[i].duplicate());
                    i += 1;
                }
                let copy = WireValue::Array(copies);
                assert(copy@->Array_0 =~= self@->Array_0);

                copy
            },
            WireValue::Object(members) => {
                let mut copies: Vec<(String, WireValue)> = Vec::new();
                let mut i: usize = 0;
                while i < members.len()
                    invariant
                        *self == WireValue::Object(*members),
                        i <= members.len(),
                        copies.len() == i,
                        forall|j: int|
                            0 <= j < i ==> copies@[j].0@ == members@[j].0@ && copies@[j].1@
                                == members@[j].1@,
                    decreases members.len() - i,
                {
                    assert(decreases_to!(*self => self->Object_0));
                    assert(decreases_to!(members[i as int] => members[i as int].1));
                    copies.push((members[i].0.clone(), members[i].1.duplicate()));
                    i += 1;
                }
                let copy = WireValue::Object(copies);
                assert(copy@->Object_0 =~= self@->Object_0);
                copy
            },
        }
    }
}

/// Whether the key of the member at `at` occurs among the members before it.
fn key_occurs_before(members: &Vec<(String, WireValue)>, at: usize) -> (found: bool)
    requires
        at < members.len(),
    ensures
        found == exists|i: int| 0 <= i < at && (#[trigger] member_views(members@)[i]).0
            == member_views(members@)[at as int].0,
{
    let mut i: usize = 0;
    while i < at
        invariant
            i <= at < members.len(),
            forall|k: int|
                0 <= k < i ==> (#[trigger] member_views(members@)[k]).0 != member_views(
                    members@,
                )[at as int].0,
        decreases at - i,
    {
        if members[i].0 == members[at].0 {
            assert(member_views(members@)[i as int].0 == member_views(members@)[at as int].0);
            return true;
        }
        i += 1;
    }
    false
}

impl WireValue {
    /// Whether no object of the document, at any depth, holds a key twice.
    pub fn is_well_formed(&self) -> (well: bool)
        ensures
            well == self@.well_formed(),
        decreases self,
    {
        match self {
            WireValue::Array(items) => {
                proof {
                    lemma_array_view(*items);
                }
                let mut i: usize = 0;
                while i < items.len()
                    invariant
                        *self == WireValue::Array(*items),
                        self@ == WireView::Array(views(items@)),
                        i <= items.len(),
                        forall|k: int| 0 <= k < i ==> (#[trigger] views(items@)[k]).well_formed(),
                    decreases items.len() - i,
                {
                    assert(decreases_to!(*self => self->Array_0));
                    if !items[i].is_well_formed() {
                        assert(views(items@)[i as int] == items@[i as int]@);
                        assert(!self@->Array_0[i as int].well_formed());
                        return false;
                    }
                    i += 1;
                }
                true
            },
            WireValue::Object(members) => {
                proof {
                    lemma_object_view(*members);
                }
                let mut i: usize = 0;
                while i < members.len()
                    invariant
                        *self == WireValue::Object(*members),
                        self@ == WireView::Object(member_views(members@)),
                        i <= members.len(),
                        forall|k: int|
                            0 <= k < i ==> (#[trigger] member_views(members@)[k]).1.well_formed(),
                        forall|j: int, k: int|
                            0 <= j < k < i ==> (#[trigger] member_views(members@)[j]).0 != (
                            #[trigger] member_views(members@)[k]).0,
                    decreases members.len() - i,
                {
                    assert(decreases_to!(*self => self->Object_0));
                    assert(decreases_to!(members[i as int] => members[i as int].1));
                    if key_occurs_before(members, i) {
                        return false;
                    }
                    if !members[i].1.is_well_formed() {
                        assert(!member_views(members@)[i as int].1.well_formed());
                        return false;
                    }
                    i += 1;
                }
                true
            },
            _ => true,
        }
    }
}

impl Clone for WireValue {
    fn clone(&self) -> (copy: Self)
        ensures
            copy@ == self@,
    {
        self.duplicate()
    }
}

} // verus!
