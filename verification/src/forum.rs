//! The records of the forum listing: groups, forums and timelines.
//!
//! Each record declares which key feeds which field and which fields are
//! required. Decoding a record reads an object; keys that the record does
//! not declare are ignored.

use vstd::prelude::*;
use crate::encode::{
    encode_integer, encode_items, encode_optional_flag, encode_optional_integer,
    encode_optional_text, encode_text, flag_wire, integer_wire, lemma_list_wire_well_formed,
    list_wire, member_of, optional_wire, text_wire,
};
use crate::error::{DecodeError, DecodeErrorView, RecordKind};
use crate::field::{
    fault_of, find, held, held_unless_blank, held_unless_null, integer_field, lemma_member_at,
    member, missing, optional_boolean_field, optional_integer_field, optional_text_field,
    require, text_field, text_of, Precedence,
};
use crate::list::{array_of, decode_array, lemma_written_list_decodes, list_field};
use crate::model::{list_outcome, maybe, outcome, views};
use crate::scalar::{boolean_of, integer_of, SNBool, SNum};
use crate::wire::{
    distinct_keys, lemma_object_view, member_views, Members, WireValue, WireView,
};

verus! {

/// A single forum (board).
#[derive(Debug, Clone, PartialEq, Eq)]
pub struct Forum {
    /// The forum's number, under the key `id`.
    pub fid: SNum,
    /// The forum's notice, as HTML.
    pub msg: String,
    pub name: String,
    pub auto_delete: Option<SNBool>,
    /// Under the key `createdAt`.
    pub created_at: Option<String>,
    /// The number of the group the forum belongs to.
    pub fgroup: Option<SNum>,
    pub forum_fuse_id: Option<SNum>,
    /// The seconds a user waits between two posts.
    pub interval: Option<SNum>,
    pub permission_level: Option<SNBool>,
    pub safe_mode: Option<SNBool>,
    /// Under the key `showName`.
    pub show_name: Option<String>,
    pub sort: Option<SNum>,
    /// A single lower-case letter.
    pub status: Option<String>,
    pub thread_count: Option<SNum>,
    /// Under the key `updateAt`.
    pub update_at: Option<String>,
}

/// The content of a [`Forum`].
pub struct ForumView {
    pub fid: i64,
    pub msg: Seq<char>,
    pub name: Seq<char>,
    pub auto_delete: Option<bool>,
    pub created_at: Option<Seq<char>>,
    pub fgroup: Option<i64>,
    pub forum_fuse_id: Option<i64>,
    pub interval: Option<i64>,
    pub permission_level: Option<bool>,
    pub safe_mode: Option<bool>,
    pub show_name: Option<Seq<char>>,
    pub sort: Option<i64>,
    pub status: Option<Seq<char>>,
    pub thread_count: Option<i64>,
    pub update_at: Option<Seq<char>>,
}

impl View for Forum {
    type V = ForumView;

    open spec fn view(&self) -> ForumView {
        ForumView {
            fid: self.fid@,
            msg: self.msg@,
            name: self.name@,
            auto_delete: maybe(self.auto_delete),
            created_at: maybe(self.created_at),
            fgroup: maybe(self.fgroup),
            forum_fuse_id: maybe(self.forum_fuse_id),
            interval: maybe(self.interval),
            permission_level: maybe(self.permission_level),
            safe_mode: maybe(self.safe_mode),
            show_name: maybe(self.show_name),
            sort: maybe(self.sort),
            status: maybe(self.status),
            thread_count: maybe(self.thread_count),
            update_at: maybe(self.update_at),
        }
    }
}

/// The forum that the members of an object spell, or the first failure among
/// its fields: malformed values first, in the order of declaration, then
/// missing required keys.
pub open spec fn forum_of_members(m: Members) -> Result<ForumView, DecodeErrorView> {
    let record = RecordKind::Forum;
    let fid = held(member(m, "id"@), |v: WireView| integer_of(v), record, "id"@);
    let msg = held(member(m, "msg"@), |v: WireView| text_of(v), record, "msg"@);
    let name = held(member(m, "name"@), |v: WireView| text_of(v), record, "name"@);
    let auto_delete = held_unless_blank(
        member(m, "auto_delete"@),
        |v: WireView| boolean_of(v),
        record,
        "auto_delete"@,
    );
    let created_at = held_unless_null(
        member(m, "createdAt"@),
        |v: WireView| text_of(v),
        record,
        "createdAt"@,
    );
    let fgroup = held_unless_blank(
        member(m, "fgroup"@),
        |v: WireView| integer_of(v),
        record,
        "fgroup"@,
    );
    let forum_fuse_id = held_unless_blank(
        member(m, "forum_fuse_id"@),
        |v: WireView| integer_of(v),
        record,
        "forum_fuse_id"@,
    );
    let interval = held_unless_blank(
        member(m, "interval"@),
        |v: WireView| integer_of(v),
        record,
        "interval"@,
    );
    let permission_level = held_unless_blank(
        member(m, "permission_level"@),
        |v: WireView| boolean_of(v),
        record,
        "permission_level"@,
    );
    let safe_mode = held_unless_blank(
        member(m, "safe_mode"@),
        |v: WireView| boolean_of(v),
        record,
        "safe_mode"@,
    );
    let show_name = held_unless_null(
        member(m, "showName"@),
        |v: WireView| text_of(v),
        record,
        "showName"@,
    );
    let sort = held_unless_blank(member(m, "sort"@), |v: WireView| integer_of(v), record, "sort"@);
    let status = held_unless_null(
        member(m, "status"@),
        |v: WireView| text_of(v),
        record,
        "status"@,
    );
    let thread_count = held_unless_blank(
        member(m, "thread_count"@),
        |v: WireView| integer_of(v),
        record,
        "thread_count"@,
    );
    let update_at = held_unless_null(
        member(m, "updateAt"@),
        |v: WireView| text_of(v),
        record,
        "updateAt"@,
    );
    let fault = fault_of(fid)
        .before(fault_of(msg))
        .before(fault_of(name))
        .before(fault_of(auto_delete))
        .before(fault_of(created_at))
        .before(fault_of(fgroup))
        .before(fault_of(forum_fuse_id))
        .before(fault_of(interval))
        .before(fault_of(permission_level))
        .before(fault_of(safe_mode))
        .before(fault_of(show_name))
        .before(fault_of(sort))
        .before(fault_of(status))
        .before(fault_of(thread_count))
        .before(fault_of(update_at))
        .before(missing(fid, record, "id"@))
        .before(missing(msg, record, "msg"@))
        .before(missing(name, record, "name"@));
    match fault {
        Some(error) => Err(error),
        None => Ok(
            ForumView {
                fid: fid->Ok_0->Some_0,
                msg: msg->Ok_0->Some_0,
                name: name->Ok_0->Some_0,
                auto_delete: auto_delete->Ok_0,
                created_at: created_at->Ok_0,
                fgroup: fgroup->Ok_0,
                forum_fuse_id: forum_fuse_id->Ok_0,
                interval: interval->Ok_0,
                permission_level: permission_level->Ok_0,
                safe_mode: safe_mode->Ok_0,
                show_name: show_name->Ok_0,
                sort: sort->Ok_0,
                status: status->Ok_0,
                thread_count: thread_count->Ok_0,
                update_at: update_at->Ok_0,
            },
        ),
    }
}

/// What decoding a document as a forum gives: only an object is a record.
pub open spec fn forum_of(value: WireView) -> Result<ForumView, DecodeErrorView> {
    match value {
        WireView::Object(m) => forum_of_members(m),
        _ => Err(DecodeErrorView::UnsupportedShape),
    }
}

/// The wire form of a forum: an object with one member for each field, under
/// the field's first name.
pub open spec fn forum_wire(record: ForumView) -> WireView {
    WireView::Object(
        seq![
            ("id"@, integer_wire(record.fid)),
            ("msg"@, text_wire(record.msg)),
            ("name"@, text_wire(record.name)),
            ("auto_delete"@, optional_wire(record.auto_delete, |flag: bool| flag_wire(flag))),
            ("createdAt"@, optional_wire(record.created_at, |text: Seq<char>| text_wire(text))),
            ("fgroup"@, optional_wire(record.fgroup, |n: i64| integer_wire(n))),
            ("forum_fuse_id"@, optional_wire(record.forum_fuse_id, |n: i64| integer_wire(n))),
            ("interval"@, optional_wire(record.interval, |n: i64| integer_wire(n))),
            (
                "permission_level"@,
                optional_wire(record.permission_level, |flag: bool| flag_wire(flag)),
            ),
            ("safe_mode"@, optional_wire(record.safe_mode, |flag: bool| flag_wire(flag))),
            ("showName"@, optional_wire(record.show_name, |text: Seq<char>| text_wire(text))),
            ("sort"@, optional_wire(record.sort, |n: i64| integer_wire(n))),
            ("status"@, optional_wire(record.status, |text: Seq<char>| text_wire(text))),
            ("thread_count"@, optional_wire(record.thread_count, |n: i64| integer_wire(n))),
            ("updateAt"@, optional_wire(record.update_at, |text: Seq<char>| text_wire(text))),
        ],
    )
}

/// A forum that is written and decoded again is the same forum.
pub proof fn forum_round_trip(record: ForumView)
    ensures
        forum_of(forum_wire(record)) == Ok::<ForumView, DecodeErrorView>(record),
{
    lemma_forum_wire_members(record);
}

/// The keys of a forum, spelled out: how long each is and how it begins.
proof fn lemma_forum_keys()
    ensures
        "id"@.len() == 2 && "id"@[0] == 'i',
        "msg"@.len() == 3 && "msg"@[0] == 'm',
        "name"@.len() == 4 && "name"@[0] == 'n',
        "auto_delete"@.len() == 11 && "auto_delete"@[0] == 'a',
        "createdAt"@.len() == 9 && "createdAt"@[0] == 'c',
        "fgroup"@.len() == 6 && "fgroup"@[0] == 'f',
        "forum_fuse_id"@.len() == 13 && "forum_fuse_id"@[0] == 'f',
        "interval"@.len() == 8 && "interval"@[0] == 'i',
        "permission_level"@.len() == 16 && "permission_level"@[0] == 'p',
        "safe_mode"@.len() == 9 && "safe_mode"@[0] == 's',
        "showName"@.len() == 8 && "showName"@[0] == 's',
        "sort"@.len() == 4 && "sort"@[0] == 's',
        "status"@.len() == 6 && "status"@[0] == 's',
        "thread_count"@.len() == 12 && "thread_count"@[0] == 't',
        "updateAt"@.len() == 8 && "updateAt"@[0] == 'u',
{
    reveal_strlit("id");
    reveal_strlit("msg");
    reveal_strlit("name");
    reveal_strlit("auto_delete");
    reveal_strlit("createdAt");
    reveal_strlit("fgroup");
    reveal_strlit("forum_fuse_id");
    reveal_strlit("interval");
    reveal_strlit("permission_level");
    reveal_strlit("safe_mode");
    reveal_strlit("showName");
    reveal_strlit("sort");
    reveal_strlit("status");
    reveal_strlit("thread_count");
    reveal_strlit("updateAt");
}

/// Each key of a written forum is found, with the wire form of its field.
proof fn lemma_forum_wire_members(record: ForumView)
    ensures
        member(forum_wire(record)->Object_0, "id"@) == Some(integer_wire(record.fid)),
        member(forum_wire(record)->Object_0, "msg"@) == Some(text_wire(record.msg)),
        member(forum_wire(record)->Object_0, "name"@) == Some(text_wire(record.name)),
        member(forum_wire(record)->Object_0, "auto_delete"@) == Some(
            optional_wire(record.auto_delete, |flag: bool| flag_wire(flag)),
        ),
        member(forum_wire(record)->Object_0, "createdAt"@) == Some(
            optional_wire(record.created_at, |text: Seq<char>| text_wire(text)),
        ),
        member(forum_wire(record)->Object_0, "fgroup"@) == Some(
            optional_wire(record.fgroup, |n: i64| integer_wire(n)),
        ),
        member(forum_wire(record)->Object_0, "forum_fuse_id"@) == Some(
            optional_wire(record.forum_fuse_id, |n: i64| integer_wire(n)),
        ),
        member(forum_wire(record)->Object_0, "interval"@) == Some(
            optional_wire(record.interval, |n: i64| integer_wire(n)),
        ),
        member(forum_wire(record)->Object_0, "permission_level"@) == Some(
            optional_wire(record.permission_level, |flag: bool| flag_wire(flag)),
        ),
        member(forum_wire(record)->Object_0, "safe_mode"@) == Some(
            optional_wire(record.safe_mode, |flag: bool| flag_wire(flag)),
        ),
        member(forum_wire(record)->Object_0, "showName"@) == Some(
            optional_wire(record.show_name, |text: Seq<char>| text_wire(text)),
        ),
        member(forum_wire(record)->Object_0, "sort"@) == Some(
            optional_wire(record.sort, |n: i64| integer_wire(n)),
        ),
        member(forum_wire(record)->Object_0, "status"@) == Some(
            optional_wire(record.status, |text: Seq<char>| text_wire(text)),
        ),
        member(forum_wire(record)->Object_0, "thread_count"@) == Some(
            optional_wire(record.thread_count, |n: i64| integer_wire(n)),
        ),
        member(forum_wire(record)->Object_0, "updateAt"@) == Some(
            optional_wire(record.update_at, |text: Seq<char>| text_wire(text)),
        ),
{
    lemma_forum_keys();
    let m = forum_wire(record)->Object_0;
    lemma_member_at(m, "id"@, 0);
    lemma_member_at(m, "msg"@, 1);
    lemma_member_at(m, "name"@, 2);
    lemma_member_at(m, "auto_delete"@, 3);
    lemma_member_at(m, "createdAt"@, 4);
    lemma_member_at(m, "fgroup"@, 5);
    lemma_member_at(m, "forum_fuse_id"@, 6);
    lemma_member_at(m, "interval"@, 7);
    lemma_member_at(m, "permission_level"@, 8);
    lemma_member_at(m, "safe_mode"@, 9);
    lemma_member_at(m, "showName"@, 10);
    lemma_member_at(m, "sort"@, 11);
    lemma_member_at(m, "status"@, 12);
    lemma_member_at(m, "thread_count"@, 13);
    lemma_member_at(m, "updateAt"@, 14);
}

/// The wire form of a forum holds no key twice, at any depth.
pub proof fn forum_wire_is_well_formed(record: ForumView)
    ensures
        forum_wire(record).well_formed(),
{
    lemma_forum_keys();
    let m = forum_wire(record)->Object_0;
    assert(distinct_keys(m));
    assert forall|i: int| 0 <= i < m.len() implies (#[trigger] m[i]).1.well_formed() by {}
}

impl Forum {
    /// Decodes a forum from its wire object.
    pub fn decode(value: &WireValue) -> (result: Result<Forum, DecodeError>)
        ensures
            outcome(result) == forum_of(value@),
    {
        let members = match value {
            WireValue::Object(members) => members,
            _ => {
                return Err(DecodeError::UnsupportedShape);
            },
        };
        proof {
            lemma_object_view(*members);
        }
        let record = RecordKind::Forum;
        let fid = integer_field(find(members, "id"), record, "id")?;
        let msg = text_field(find(members, "msg"), record, "msg")?;
        let name = text_field(find(members, "name"), record, "name")?;
        let auto_delete = optional_boolean_field(
            find(members, "auto_delete"),
            record,
            "auto_delete",
        )?;
        let created_at = optional_text_field(find(members, "createdAt"), record, "createdAt")?;
        let fgroup = optional_integer_field(find(members, "fgroup"), record, "fgroup")?;
        let forum_fuse_id = optional_integer_field(
            find(members, "forum_fuse_id"),
            record,
            "forum_fuse_id",
        )?;
        let interval = optional_integer_field(find(members, "interval"), record, "interval")?;
        let permission_level = optional_boolean_field(
            find(members, "permission_level"),
            record,
            "permission_level",
        )?;
        let safe_mode = optional_boolean_field(find(members, "safe_mode"), record, "safe_mode")?;
        let show_name = optional_text_field(find(members, "showName"), record, "showName")?;
        let sort = optional_integer_field(find(members, "sort"), record, "sort")?;
        let status = optional_text_field(find(members, "status"), record, "status")?;
        let thread_count = optional_integer_field(
            find(members, "thread_count"),
            record,
            "thread_count",
        )?;
        let update_at = optional_text_field(find(members, "updateAt"), record, "updateAt")?;
        let fid = require(fid, record, "id")?;
        let msg = require(msg, record, "msg")?;
        let name = require(name, record, "name")?;
        Ok(
            Forum {
                fid,
                msg,
                name,
                auto_delete,
                created_at,
                fgroup,
                forum_fuse_id,
                interval,
                permission_level,
                safe_mode,
                show_name,
                sort,
                status,
                thread_count,
                update_at,
            },
        )
    }

    /// Writes the forum as a wire object.
    pub fn encode(&self) -> (wire: WireValue)
        ensures
            wire@ == forum_wire(self@),
            wire@.well_formed(),
            // Decoding what was written gives the record back.
            forum_of(wire@) == Ok::<ForumView, DecodeErrorView>(self@),
    {
        let mut members: Vec<(String, WireValue)> = Vec::new();
        members.push(member_of("id", encode_integer(self.fid)));
        members.push(member_of("msg", encode_text(&self.msg)));
        members.push(member_of("name", encode_text(&self.name)));
        members.push(member_of("auto_delete", encode_optional_flag(self.auto_delete)));
        members.push(member_of("createdAt", encode_optional_text(&self.created_at)));
        members.push(member_of("fgroup", encode_optional_integer(self.fgroup)));
        members.push(member_of("forum_fuse_id", encode_optional_integer(self.forum_fuse_id)));
        members.push(member_of("interval", encode_optional_integer(self.interval)));
        members.push(member_of("permission_level", encode_optional_flag(self.permission_level)));
        members.push(member_of("safe_mode", encode_optional_flag(self.safe_mode)));
        members.push(member_of("showName", encode_optional_text(&self.show_name)));
        members.push(member_of("sort", encode_optional_integer(self.sort)));
        members.push(member_of("status", encode_optional_text(&self.status)));
        members.push(member_of("thread_count", encode_optional_integer(self.thread_count)));
        members.push(member_of("updateAt", encode_optional_text(&self.update_at)));
        proof {
            lemma_object_view(members);
            assert(member_views(members@) =~= forum_wire(self@)->Object_0);
            forum_round_trip(self@);
            forum_wire_is_well_formed(self@);
        }
        WireValue::Object(members)
    }
}

/// A group of forums. The group owns its forums, in the order of the document.
#[derive(Debug, Clone, PartialEq, Eq)]
pub struct ForumGroup {
    pub forums: Vec<Forum>,
    pub id: SNum,
    pub name: String,
    pub sort: SNum,
    pub status: String,
}

/// The content of a [`ForumGroup`].
pub struct ForumGroupView {
    pub forums: Seq<ForumView>,
    pub id: i64,
    pub name: Seq<char>,
    pub sort: i64,
    pub status: Seq<char>,
}

impl View for ForumGroup {
    type V = ForumGroupView;

    open spec fn view(&self) -> ForumGroupView {
        ForumGroupView {
            forums: views(self.forums@),
            id: self.id@,
            name: self.name@,
            sort: self.sort@,
            status: self.status@,
        }
    }
}

/// The forum group that the members of an object spell, or the first failure among
/// its fields: malformed values first, in the order of declaration, then
/// missing required keys.
pub open spec fn forum_group_of_members(m: Members) -> Result<ForumGroupView, DecodeErrorView> {
    let record = RecordKind::ForumGroup;
    let forums = held(
        member(m, "forums"@),
        |v: WireView| array_of(v, |item: WireView| forum_of(item)),
        record,
        "forums"@,
    );
    let id = held(member(m, "id"@), |v: WireView| integer_of(v), record, "id"@);
    let name = held(member(m, "name"@), |v: WireView| text_of(v), record, "name"@);
    let sort = held(member(m, "sort"@), |v: WireView| integer_of(v), record, "sort"@);
    let status = held(member(m, "status"@), |v: WireView| text_of(v), record, "status"@);
    let fault = fault_of(forums)
        .before(fault_of(id))
        .before(fault_of(name))
        .before(fault_of(sort))
        .before(fault_of(status))
        .before(missing(forums, record, "forums"@))
        .before(missing(id, record, "id"@))
        .before(missing(name, record, "name"@))
        .before(missing(sort, record, "sort"@))
        .before(missing(status, record, "status"@));
    match fault {
        Some(error) => Err(error),
        None => Ok(
            ForumGroupView {
                forums: forums->Ok_0->Some_0,
                id: id->Ok_0->Some_0,
                name: name->Ok_0->Some_0,
                sort: sort->Ok_0->Some_0,
                status: status->Ok_0->Some_0,
            },
        ),
    }
}

/// What decoding a document as a forum group gives: only an object is a record.
pub open spec fn forum_group_of(value: WireView) -> Result<ForumGroupView, DecodeErrorView> {
    match value {
        WireView::Object(m) => forum_group_of_members(m),
        _ => Err(DecodeErrorView::UnsupportedShape),
    }
}

/// The wire form of a forum group: an object with one member for each field, under
/// the field's first name.
pub open spec fn forum_group_wire(record: ForumGroupView) -> WireView {
    WireView::Object(
        seq![
            ("forums"@, list_wire(record.forums, |item: ForumView| forum_wire(item))),
            ("id"@, integer_wire(record.id)),
            ("name"@, text_wire(record.name)),
            ("sort"@, integer_wire(record.sort)),
            ("status"@, text_wire(record.status)),
        ],
    )
}

/// A forum group that is written and decoded again is the same forum group.
pub proof fn forum_group_round_trip(record: ForumGroupView)
    ensures
        forum_group_of(forum_group_wire(record)) == Ok::<ForumGroupView, DecodeErrorView>(record),
{
    lemma_forum_group_wire_members(record);
    assert forall|i: int| 0 <= i < record.forums.len() implies forum_of(
        forum_wire(#[trigger] record.forums[i]),
    ) == Ok::<ForumView, DecodeErrorView>(record.forums[i]) by {
        forum_round_trip(record.forums[i]);
    }
    lemma_written_list_decodes(
        record.forums,
        |item: ForumView| forum_wire(item),
        |item: WireView| forum_of(item),
    );
}

/// The keys of a forum group, spelled out: how long each is and how it begins.
proof fn lemma_forum_group_keys()
    ensures
        "forums"@.len() == 6 && "forums"@[0] == 'f',
        "id"@.len() == 2 && "id"@[0] == 'i',
        "name"@.len() == 4 && "name"@[0] == 'n',
        "sort"@.len() == 4 && "sort"@[0] == 's',
        "status"@.len() == 6 && "status"@[0] == 's',
{
    reveal_strlit("forums");
    reveal_strlit("id");
    reveal_strlit("name");
    reveal_strlit("sort");
    reveal_strlit("status");
}

/// Each key of a written forum group is found, with the wire form of its field.
proof fn lemma_forum_group_wire_members(record: ForumGroupView)
    ensures
        member(forum_group_wire(record)->Object_0, "forums"@) == Some(
            list_wire(record.forums, |item: ForumView| forum_wire(item)),
        ),
        member(forum_group_wire(record)->Object_0, "id"@) == Some(integer_wire(record.id)),
        member(forum_group_wire(record)->Object_0, "name"@) == Some(text_wire(record.name)),
        member(forum_group_wire(record)->Object_0, "sort"@) == Some(integer_wire(record.sort)),
        member(forum_group_wire(record)->Object_0, "status"@) == Some(text_wire(record.status)),
{
    lemma_forum_group_keys();
    let m = forum_group_wire(record)->Object_0;
    lemma_member_at(m, "forums"@, 0);
    lemma_member_at(m, "id"@, 1);
    lemma_member_at(m, "name"@, 2);
    lemma_member_at(m, "sort"@, 3);
    lemma_member_at(m, "status"@, 4);
}

/// The wire form of a forum group holds no key twice, at any depth.
pub proof fn forum_group_wire_is_well_formed(record: ForumGroupView)
    ensures
        forum_group_wire(record).well_formed(),
{
    lemma_forum_group_keys();
    let m = forum_group_wire(record)->Object_0;
    assert forall|i: int| 0 <= i < record.forums.len() implies forum_wire(
        #[trigger] record.forums[i],
    ).well_formed() by {
        forum_wire_is_well_formed(record.forums[i]);
    }
    lemma_list_wire_well_formed(record.forums, |item: ForumView| forum_wire(item));
    assert(m[0].1.well_formed());
    assert(distinct_keys(m));
    assert forall|i: int| 0 <= i < m.len() implies (#[trigger] m[i]).1.well_formed() by {}
}

impl ForumGroup {
    /// Decodes a forum group from its wire object.
    pub fn decode(value: &WireValue) -> (result: Result<ForumGroup, DecodeError>)
        ensures
            outcome(result) == forum_group_of(value@),
    {
        let members = match value {
            WireValue::Object(members) => members,
            _ => {
                return Err(DecodeError::UnsupportedShape);
            },
        };
        proof {
            lemma_object_view(*members);
        }
        let record = RecordKind::ForumGroup;
        let forums = list_field(
            find(members, "forums"),
            record,
            "forums",
            Forum::decode,
            Ghost(|item: WireView| forum_of(item)),
        )?;
        let id = integer_field(find(members, "id"), record, "id")?;
        let name = text_field(find(members, "name"), record, "name")?;
        let sort = integer_field(find(members, "sort"), record, "sort")?;
        let status = text_field(find(members, "status"), record, "status")?;
        let forums = require(forums, record, "forums")?;
        let id = require(id, record, "id")?;
        let name = require(name, record, "name")?;
        let sort = require(sort, record, "sort")?;
        let status = require(status, record, "status")?;
        Ok(ForumGroup { forums, id, name, sort, status })
    }

    /// Writes the forum group as a wire object.
    pub fn encode(&self) -> (wire: WireValue)
        ensures
            wire@ == forum_group_wire(self@),
            wire@.well_formed(),
            // Decoding what was written gives the record back.
            forum_group_of(wire@) == Ok::<ForumGroupView, DecodeErrorView>(self@),
    {
        let mut members: Vec<(String, WireValue)> = Vec::new();
        members.push(
            member_of(
                "forums",
                encode_items(
                    &self.forums,
                    Forum::encode,
                    Ghost(|item: ForumView| forum_wire(item)),
                ),
            ),
        );
        members.push(member_of("id", encode_integer(self.id)));
        members.push(member_of("name", encode_text(&self.name)));
        members.push(member_of("sort", encode_integer(self.sort)));
        members.push(member_of("status", encode_text(&self.status)));
        proof {
            lemma_object_view(members);
            assert(member_views(members@) =~= forum_group_wire(self@)->Object_0);
            forum_group_round_trip(self@);
            forum_group_wire_is_well_formed(self@);
        }
        WireValue::Object(members)
    }
}

/// A timeline: a merged listing of several forums.
#[derive(Debug, Clone, PartialEq, Eq)]
pub struct TimelineForum {
    /// The timeline's number, under the key `id`.
    pub tid: SNum,
    pub name: String,
    pub display_name: String,
    pub notice: String,
    pub max_page: SNum,
}

/// The content of a [`TimelineForum`].
pub struct TimelineForumView {
    pub tid: i64,
    pub name: Seq<char>,
    pub display_name: Seq<char>,
    pub notice: Seq<char>,
    pub max_page: i64,
}

impl View for TimelineForum {
    type V = TimelineForumView;

    open spec fn view(&self) -> TimelineForumView {
        TimelineForumView {
            tid: self.tid@,
            name: self.name@,
            display_name: self.display_name@,
            notice: self.notice@,
            max_page: self.max_page@,
        }
    }
}

/// The timeline that the members of an object spell, or the first failure among
/// its fields: malformed values first, in the order of declaration, then
/// missing required keys.
pub open spec fn timeline_forum_of_members(m: Members) -> Result<
    TimelineForumView,
    DecodeErrorView,
> {
    let record = RecordKind::TimelineForum;
    let tid = held(member(m, "id"@), |v: WireView| integer_of(v), record, "id"@);
    let name = held(member(m, "name"@), |v: WireView| text_of(v), record, "name"@);
    let display_name = held(
        member(m, "display_name"@),
        |v: WireView| text_of(v),
        record,
        "display_name"@,
    );
    let notice = held(member(m, "notice"@), |v: WireView| text_of(v), record, "notice"@);
    let max_page = held(member(m, "max_page"@), |v: WireView| integer_of(v), record, "max_page"@);
    let fault = fault_of(tid)
        .before(fault_of(name))
        .before(fault_of(display_name))
        .before(fault_of(notice))
        .before(fault_of(max_page))
        .before(missing(tid, record, "id"@))
        .before(missing(name, record, "name"@))
        .before(missing(display_name, record, "display_name"@))
        .before(missing(notice, record, "notice"@))
        .before(missing(max_page, record, "max_page"@));
    match fault {
        Some(error) => Err(error),
        None => Ok(
            TimelineForumView {
                tid: tid->Ok_0->Some_0,
                name: name->Ok_0->Some_0,
                display_name: display_name->Ok_0->Some_0,
                notice: notice->Ok_0->Some_0,
                max_page: max_page->Ok_0->Some_0,
            },
        ),
    }
}

/// What decoding a document as a timeline gives: only an object is a record.
pub open spec fn timeline_forum_of(value: WireView) -> Result<TimelineForumView, DecodeErrorView> {
    match value {
        WireView::Object(m) => timeline_forum_of_members(m),
        _ => Err(DecodeErrorView::UnsupportedShape),
    }
}

/// The wire form of a timeline: an object with one member for each field, under
/// the field's first name.
pub open spec fn timeline_forum_wire(record: TimelineForumView) -> WireView {
    WireView::Object(
        seq![
            ("id"@, integer_wire(record.tid)),
            ("name"@, text_wire(record.name)),
            ("display_name"@, text_wire(record.display_name)),
            ("notice"@, text_wire(record.notice)),
            ("max_page"@, integer_wire(record.max_page)),
        ],
    )
}

/// A timeline that is written and decoded again is the same timeline.
pub proof fn timeline_forum_round_trip(record: TimelineForumView)
    ensures
        timeline_forum_of(timeline_forum_wire(record)) == Ok::<
            TimelineForumView,
            DecodeErrorView,
        >(record),
{
    lemma_timeline_forum_wire_members(record);
}

/// The keys of a timeline, spelled out: how long each is and how it begins.
proof fn lemma_timeline_forum_keys()
    ensures
        "id"@.len() == 2 && "id"@[0] == 'i',
        "name"@.len() == 4 && "name"@[0] == 'n',
        "display_name"@.len() == 12 && "display_name"@[0] == 'd',
        "notice"@.len() == 6 && "notice"@[0] == 'n',
        "max_page"@.len() == 8 && "max_page"@[0] == 'm',
{
    reveal_strlit("id");
    reveal_strlit("name");
    reveal_strlit("display_name");
    reveal_strlit("notice");
    reveal_strlit("max_page");
}

/// Each key of a written timeline is found, with the wire form of its field.
proof fn lemma_timeline_forum_wire_members(record: TimelineForumView)
    ensures
        member(timeline_forum_wire(record)->Object_0, "id"@) == Some(integer_wire(record.tid)),
        member(timeline_forum_wire(record)->Object_0, "name"@) == Some(text_wire(record.name)),
        member(timeline_forum_wire(record)->Object_0, "display_name"@) == Some(
            text_wire(record.display_name),
        ),
        member(timeline_forum_wire(record)->Object_0, "notice"@) == Some(text_wire(record.notice)),
        member(timeline_forum_wire(record)->Object_0, "max_page"@) == Some(
            integer_wire(record.max_page),
        ),
{
    lemma_timeline_forum_keys();
    let m = timeline_forum_wire(record)->Object_0;
    lemma_member_at(m, "id"@, 0);
    lemma_member_at(m, "name"@, 1);
    lemma_member_at(m, "display_name"@, 2);
    lemma_member_at(m, "notice"@, 3);
    lemma_member_at(m, "max_page"@, 4);
}

/// The wire form of a timeline holds no key twice, at any depth.
pub proof fn timeline_forum_wire_is_well_formed(record: TimelineForumView)
    ensures
        timeline_forum_wire(record).well_formed(),
{
    lemma_timeline_forum_keys();
    let m = timeline_forum_wire(record)->Object_0;
    assert(distinct_keys(m));
    assert forall|i: int| 0 <= i < m.len() implies (#[trigger] m[i]).1.well_formed() by {}
}

impl TimelineForum {
    /// Decodes a timeline from its wire object.
    pub fn decode(value: &WireValue) -> (result: Result<TimelineForum, DecodeError>)
        ensures
            outcome(result) == timeline_forum_of(value@),
    {
        let members = match value {
            WireValue::Object(members) => members,
            _ => {
                return Err(DecodeError::UnsupportedShape);
            },
        };
        proof {
            lemma_object_view(*members);
        }
        let record = RecordKind::TimelineForum;
        let tid = integer_field(find(members, "id"), record, "id")?;
        let name = text_field(find(members, "name"), record, "name")?;
        let display_name = text_field(find(members, "display_name"), record, "display_name")?;
        let notice = text_field(find(members, "notice"), record, "notice")?;
        let max_page = integer_field(find(members, "max_page"), record, "max_page")?;
        let tid = require(tid, record, "id")?;
        let name = require(name, record, "name")?;
        let display_name = require(display_name, record, "display_name")?;
        let notice = require(notice, record, "notice")?;
        let max_page = require(max_page, record, "max_page")?;
        Ok(TimelineForum { tid, name, display_name, notice, max_page })
    }

    /// Writes the timeline as a wire object.
    pub fn encode(&self) -> (wire: WireValue)
        ensures
            wire@ == timeline_forum_wire(self@),
            wire@.well_formed(),
            // Decoding what was written gives the record back.
            timeline_forum_of(wire@) == Ok::<TimelineForumView, DecodeErrorView>(self@),
    {
        let mut members: Vec<(String, WireValue)> = Vec::new();
        members.push(member_of("id", encode_integer(self.tid)));
        members.push(member_of("name", encode_text(&self.name)));
        members.push(member_of("display_name", encode_text(&self.display_name)));
        members.push(member_of("notice", encode_text(&self.notice)));
        members.push(member_of("max_page", encode_integer(self.max_page)));
        proof {
            lemma_object_view(members);
            assert(member_views(members@) =~= timeline_forum_wire(self@)->Object_0);
            timeline_forum_round_trip(self@);
            timeline_forum_wire_is_well_formed(self@);
        }
        WireValue::Object(members)
    }
}

/// A list of forum groups, as the service returns it.
pub type ForumList = Vec<ForumGroup>;

/// Decodes an array of forum groups.
pub fn decode_forum_list(value: &WireValue) -> (result: Result<ForumList, DecodeError>)
    ensures
        list_outcome(result) == array_of(value@, |item: WireView| forum_group_of(item)),
{
    decode_array(value, ForumGroup::decode, Ghost(|item: WireView| forum_group_of(item)))
}

/// A list of timelines, as the service returns it.
pub type TimelineList = Vec<TimelineForum>;

/// Decodes an array of timelines.
pub fn decode_timeline_list(value: &WireValue) -> (result: Result<TimelineList, DecodeError>)
    ensures
        list_outcome(result) == array_of(value@, |item: WireView| timeline_forum_of(item)),
{
    decode_array(value, TimelineForum::decode, Ghost(|item: WireView| timeline_forum_of(item)))
}

} // verus!
