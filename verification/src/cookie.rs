//! The identity a user posts under.

use vstd::prelude::*;
use crate::encode::{encode_text, member_of, text_wire};
use crate::error::{DecodeError, DecodeErrorView, RecordKind};
use crate::field::{
    fault_of, find, held, lemma_member_at, member, missing, require, text_field, text_of,
    Precedence,
};
use crate::model::outcome;
use crate::wire::{
    distinct_keys, lemma_object_view, member_views, Members, WireValue, WireView,
};

verus! {

/// A user cookie: the identity a user posts under.
#[derive(Debug, Default, Clone, PartialEq, Eq)]
pub struct UserCookie {
    /// The name the user gave the cookie.
    pub name: String,
    pub hash_name: String,
    /// The cookie itself, under the key `cookie`.
    pub value: String,
}

/// The content of a [`UserCookie`].
pub struct UserCookieView {
    pub name: Seq<char>,
    pub hash_name: Seq<char>,
    pub value: Seq<char>,
}

impl View for UserCookie {
    type V = UserCookieView;

    open spec fn view(&self) -> UserCookieView {
        UserCookieView {
            name: self.name@,
            hash_name: self.hash_name@,
            value: self.value@,
        }
    }
}

/// The cookie that the members of an object spell, or the first failure among
/// its fields: malformed values first, in the order of declaration, then
/// missing required keys.
pub open spec fn user_cookie_of_members(m: Members) -> Result<UserCookieView, DecodeErrorView> {
    let record = RecordKind::UserCookie;
    let name = held(member(m, "name"@), |v: WireView| text_of(v), record, "name"@);
    let hash_name = held(member(m, "hash_name"@), |v: WireView| text_of(v), record, "hash_name"@);
    let value = held(member(m, "cookie"@), |v: WireView| text_of(v), record, "cookie"@);
    let fault = fault_of(name)
        .before(fault_of(hash_name))
        .before(fault_of(value))
        .before(missing(name, record, "name"@))
        .before(missing(hash_name, record, "hash_name"@))
        .before(missing(value, record, "cookie"@));
    match fault {
        Some(error) => Err(error),
        None => Ok(
            UserCookieView {
                name: name->Ok_0->Some_0,
                hash_name: hash_name->Ok_0->Some_0,
                value: value->Ok_0->Some_0,
            },
        ),
    }
}

/// What decoding a document as a cookie gives: only an object is a record.
pub open spec fn user_cookie_of(value: WireView) -> Result<UserCookieView, DecodeErrorView> {
    match value {
        WireView::Object(m) => user_cookie_of_members(m),
        _ => Err(DecodeErrorView::UnsupportedShape),
    }
}

/// The wire form of a cookie: an object with one member for each field, under
/// the field's first name.
pub open spec fn user_cookie_wire(record: UserCookieView) -> WireView {
    WireView::Object(
        seq![
            ("name"@, text_wire(record.name)),
            ("hash_name"@, text_wire(record.hash_name)),
            ("cookie"@, text_wire(record.value)),
        ],
    )
}

/// A cookie that is written and decoded again is the same cookie.
pub proof fn user_cookie_round_trip(record: UserCookieView)
    ensures
        user_cookie_of(user_cookie_wire(record)) == Ok::<UserCookieView, DecodeErrorView>(record),
{
    lemma_user_cookie_wire_members(record);
}

/// The keys of a cookie, spelled out: how long each is and how it begins.
proof fn lemma_user_cookie_keys()
    ensures
        "name"@.len() == 4 && "name"@[0] == 'n',
        "hash_name"@.len() == 9 && "hash_name"@[0] == 'h',
        "cookie"@.len() == 6 && "cookie"@[0] == 'c',
{
    reveal_strlit("name");
    reveal_strlit("hash_name");
    reveal_strlit("cookie");
}

/// Each key of a written cookie is found, with the wire form of its field.
proof fn lemma_user_cookie_wire_members(record: UserCookieView)
    ensures
        member(user_cookie_wire(record)->Object_0, "name"@) == Some(text_wire(record.name)),
        member(user_cookie_wire(record)->Object_0, "hash_name"@) == Some(
            text_wire(record.hash_name),
        ),
        member(user_cookie_wire(record)->Object_0, "cookie"@) == Some(text_wire(record.value)),
{
    lemma_user_cookie_keys();
    let m = user_cookie_wire(record)->Object_0;
    lemma_member_at(m, "name"@, 0);
    lemma_member_at(m, "hash_name"@, 1);
    lemma_member_at(m, "cookie"@, 2);
}

/// The wire form of a cookie holds no key twice, at any depth.
pub proof fn user_cookie_wire_is_well_formed(record: UserCookieView)
    ensures
        user_cookie_wire(record).well_formed(),
{
    lemma_user_cookie_keys();
    let m = user_cookie_wire(record)->Object_0;
    assert(distinct_keys(m));
    assert forall|i: int| 0 <= i < m.len() implies (#[trigger] m[i]).1.well_formed() by {}
}

impl UserCookie {
    /// Builds a cookie that owns copies of the three texts.
    pub fn new(name: &str, hash_name: &str, value: &str) -> (cookie: Self)
        ensures
            cookie.name@ == name@,
            cookie.hash_name@ == hash_name@,
            cookie.value@ == value@,
    {
        UserCookie {
            name: name.to_owned(),
            hash_name: hash_name.to_owned(),
            value: value.to_owned(),
        }
    }

    /// Decodes a cookie from its wire object.
    pub fn decode(value: &WireValue) -> (result: Result<UserCookie, DecodeError>)
        ensures
            outcome(result) == user_cookie_of(value@),
    {
        let members = match value {
            WireValue::Object(members) => members,
            _ => {
                return Err(DecodeError::UnsupportedShape);
            },
        };
        proof {
            lemma_object_view(*members);
        }
        let record = RecordKind::UserCookie;
        let name = text_field(find(members, "name"), record, "name")?;
        let hash_name = text_field(find(members, "hash_name"), record, "hash_name")?;
        let value = text_field(find(members, "cookie"), record, "cookie")?;
        let name = require(name, record, "name")?;
        let hash_name = require(hash_name, record, "hash_name")?;
        let value = require(value, record, "cookie")?;
        Ok(UserCookie { name, hash_name, value })
    }

    /// Writes the cookie as a wire object.
    pub fn encode(&self) -> (wire: WireValue)
        ensures
            wire@ == user_cookie_wire(self@),
            wire@.well_formed(),
            // Decoding what was written gives the record back.
            user_cookie_of(wire@) == Ok::<UserCookieView, DecodeErrorView>(self@),
    {
        let mut members: Vec<(String, WireValue)> = Vec::new();
        members.push(member_of("name", encode_text(&self.name)));
        members.push(member_of("hash_name", encode_text(&self.hash_name)));
        members.push(member_of("cookie", encode_text(&self.value)));
        proof {
            lemma_object_view(members);
            assert(member_views(members@) =~= user_cookie_wire(self@)->Object_0);
            user_cookie_round_trip(self@);
            user_cookie_wire_is_well_formed(self@);
        }
        WireValue::Object(members)
    }
}
} // verus!
