//! The records of a discussion: threads and their replies.
//!
//! Two optional fields of a thread have a second name, and one arrives in
//! an envelope. Two others tell by their presence where the record comes
//! from.

use vstd::prelude::*;
use crate::encode::{
    encode_integer, encode_optional_flag, encode_optional_integer,
    encode_optional_integer_list, encode_optional_items, encode_optional_text, encode_text,
    flag_wire, integer_wire, lemma_list_wire_well_formed, list_wire, member_of, optional_wire,
    text_wire,
};
use crate::error::{DecodeError, DecodeErrorView, RecordKind};
use crate::field::{
    fault_of, find, find_either, held, held_unless_blank, held_unless_null, integer_field,
    key_in_use, lemma_member_at, member, member_either, missing, optional_boolean_field,
    optional_integer_field, optional_text_field, require, text_field, text_of, Precedence,
};
use crate::list::{
    array_of, decode_array, held_envelope, integer_list_envelope_field,
    lemma_written_list_decodes, optional_list_field,
};
use crate::model::{list_outcome, maybe, maybe_views, outcome};
use crate::scalar::{boolean_of, integer_of, SNBool, SNum};
use crate::wire::{
    distinct_keys, lemma_object_view, member_views, Members, WireValue, WireView,
};

verus! {

/// A reply to a thread. It shares most fields with a thread and is a record of
/// its own: it has no replies.
#[derive(Debug, Clone, PartialEq, Eq)]
pub struct ThreadReply {
    /// The reply's number, under the key `id`.
    pub rid: SNum,
    /// The cookie of the poster.
    pub user_hash: String,
    /// When it was posted, as the service formats it.
    pub now: String,
    /// The number of the forum that the thread belongs to.
    pub fid: Option<SNum>,
    /// Also read under the key `ReplyCount`.
    pub reply_count: Option<SNum>,
    pub title: Option<String>,
    /// The pen name of the poster.
    pub name: Option<String>,
    pub email: Option<String>,
    /// The body, as HTML.
    pub content: String,
    /// The path of the attached image on the server.
    pub img: String,
    /// The extension of the attached image.
    pub ext: String,
    pub sage: Option<SNBool>,
    /// Whether it was posted with privilege.
    pub admin: Option<SNBool>,
    /// Also read under the key `Hide`.
    pub hide: Option<SNBool>,
}

/// The content of a [`ThreadReply`].
pub struct ThreadReplyView {
    pub rid: i64,
    pub user_hash: Seq<char>,
    pub now: Seq<char>,
    pub fid: Option<i64>,
    pub reply_count: Option<i64>,
    pub title: Option<Seq<char>>,
    pub name: Option<Seq<char>>,
    pub email: Option<Seq<char>>,
    pub content: Seq<char>,
    pub img: Seq<char>,
    pub ext: Seq<char>,
    pub sage: Option<bool>,
    pub admin: Option<bool>,
    pub hide: Option<bool>,
}

impl View for ThreadReply {
    type V = ThreadReplyView;

    open spec fn view(&self) -> ThreadReplyView {
        ThreadReplyView {
            rid: self.rid@,
            user_hash: self.user_hash@,
            now: self.now@,
            fid: maybe(self.fid),
            reply_count: maybe(self.reply_count),
            title: maybe(self.title),
            name: maybe(self.name),
            email: maybe(self.email),
            content: self.content@,
            img: self.img@,
            ext: self.ext@,
            sage: maybe(self.sage),
            admin: maybe(self.admin),
            hide: maybe(self.hide),
        }
    }
}

/// The reply that the members of an object spell, or the first failure among
/// its fields: malformed values first, in the order of declaration, then
/// missing required keys.
pub open spec fn thread_reply_of_members(m: Members) -> Result<ThreadReplyView, DecodeErrorView> {
    let record = RecordKind::ThreadReply;
    let rid = held(member(m, "id"@), |v: WireView| integer_of(v), record, "id"@);
    let user_hash = held(member(m, "user_hash"@), |v: WireView| text_of(v), record, "user_hash"@);
    let now = held(member(m, "now"@), |v: WireView| text_of(v), record, "now"@);
    let fid = held_unless_blank(member(m, "fid"@), |v: WireView| integer_of(v), record, "fid"@);
    let reply_count = held_unless_blank(
        member_either(m, "reply_count"@, "ReplyCount"@),
        |v: WireView| integer_of(v),
        record,
        key_in_use(m, "reply_count"@, "ReplyCount"@),
    );
    let title = held_unless_null(member(m, "title"@), |v: WireView| text_of(v), record, "title"@);
    let name = held_unless_null(member(m, "name"@), |v: WireView| text_of(v), record, "name"@);
    let email = held_unless_null(member(m, "email"@), |v: WireView| text_of(v), record, "email"@);
    let content = held(member(m, "content"@), |v: WireView| text_of(v), record, "content"@);
    let img = held(member(m, "img"@), |v: WireView| text_of(v), record, "img"@);
    let ext = held(member(m, "ext"@), |v: WireView| text_of(v), record, "ext"@);
    let sage = held_unless_blank(member(m, "sage"@), |v: WireView| boolean_of(v), record, "sage"@);
    let admin = held_unless_blank(
        member(m, "admin"@),
        |v: WireView| boolean_of(v),
        record,
        "admin"@,
    );
    let hide = held_unless_blank(
        member_either(m, "hide"@, "Hide"@),
        |v: WireView| boolean_of(v),
        record,
        key_in_use(m, "hide"@, "Hide"@),
    );
    let fault = fault_of(rid)
        .before(fault_of(user_hash))
        .before(fault_of(now))
        .before(fault_of(fid))
        .before(fault_of(reply_count))
        .before(fault_of(title))
        .before(fault_of(name))
        .before(fault_of(email))
        .before(fault_of(content))
        .before(fault_of(img))
        .before(fault_of(ext))
        .before(fault_of(sage))
        .before(fault_of(admin))
        .before(fault_of(hide))
        .before(missing(rid, record, "id"@))
        .before(missing(user_hash, record, "user_hash"@))
        .before(missing(now, record, "now"@))
        .before(missing(content, record, "content"@))
        .before(missing(img, record, "img"@))
        .before(missing(ext, record, "ext"@));
    match fault {
        Some(error) => Err(error),
        None => Ok(
            ThreadReplyView {
                rid: rid->Ok_0->Some_0,
                user_hash: user_hash->Ok_0->Some_0,
                now: now->Ok_0->Some_0,
                fid: fid->Ok_0,
                reply_count: reply_count->Ok_0,
                title: title->Ok_0,
                name: name->Ok_0,
                email: email->Ok_0,
                content: content->Ok_0->Some_0,
                img: img->Ok_0->Some_0,
                ext: ext->Ok_0->Some_0,
                sage: sage->Ok_0,
                admin: admin->Ok_0,
                hide: hide->Ok_0,
            },
        ),
    }
}

/// What decoding a document as a reply gives: only an object is a record.
pub open spec fn thread_reply_of(value: WireView) -> Result<ThreadReplyView, DecodeErrorView> {
    match value {
        WireView::Object(m) => thread_reply_of_members(m),
        _ => Err(DecodeErrorView::UnsupportedShape),
    }
}

/// The wire form of a reply: an object with one member for each field, under
/// the field's first name.
pub open spec fn thread_reply_wire(record: ThreadReplyView) -> WireView {
    WireView::Object(
        seq![
            ("id"@, integer_wire(record.rid)),
            ("user_hash"@, text_wire(record.user_hash)),
            ("now"@, text_wire(record.now)),
            ("fid"@, optional_wire(record.fid, |n: i64| integer_wire(n))),
            ("reply_count"@, optional_wire(record.reply_count, |n: i64| integer_wire(n))),
            ("title"@, optional_wire(record.title, |text: Seq<char>| text_wire(text))),
            ("name"@, optional_wire(record.name, |text: Seq<char>| text_wire(text))),
            ("email"@, optional_wire(record.email, |text: Seq<char>| text_wire(text))),
            ("content"@, text_wire(record.content)),
            ("img"@, text_wire(record.img)),
            ("ext"@, text_wire(record.ext)),
            ("sage"@, optional_wire(record.sage, |flag: bool| flag_wire(flag))),
            ("admin"@, optional_wire(record.admin, |flag: bool| flag_wire(flag))),
            ("hide"@, optional_wire(record.hide, |flag: bool| flag_wire(flag))),
        ],
    )
}

/// A reply that is written and decoded again is the same reply.
pub proof fn thread_reply_round_trip(record: ThreadReplyView)
    ensures
        thread_reply_of(thread_reply_wire(record)) == Ok::<
            ThreadReplyView,
            DecodeErrorView,
        >(record),
{
    lemma_thread_reply_wire_members(record);
}

/// The keys of a reply, spelled out: how long each is and how it begins.
proof fn lemma_thread_reply_keys()
    ensures
        "id"@.len() == 2 && "id"@[0] == 'i',
        "user_hash"@.len() == 9 && "user_hash"@[0] == 'u',
        "now"@.len() == 3 && "now"@[0] == 'n',
        "fid"@.len() == 3 && "fid"@[0] == 'f',
        "reply_count"@.len() == 11 && "reply_count"@[0] == 'r',
        "title"@.len() == 5 && "title"@[0] == 't',
        "name"@.len() == 4 && "name"@[0] == 'n',
        "email"@.len() == 5 && "email"@[0] == 'e',
        "content"@.len() == 7 && "content"@[0] == 'c',
        "img"@.len() == 3 && "img"@[0] == 'i',
        "ext"@.len() == 3 && "ext"@[0] == 'e',
        "sage"@.len() == 4 && "sage"@[0] == 's',
        "admin"@.len() == 5 && "admin"@[0] == 'a',
        "hide"@.len() == 4 && "hide"@[0] == 'h',
{
    reveal_strlit("id");
    reveal_strlit("user_hash");
    reveal_strlit("now");
    reveal_strlit("fid");
    reveal_strlit("reply_count");
    reveal_strlit("title");
    reveal_strlit("name");
    reveal_strlit("email");
    reveal_strlit("content");
    reveal_strlit("img");
    reveal_strlit("ext");
    reveal_strlit("sage");
    reveal_strlit("admin");
    reveal_strlit("hide");
}

/// Each key of a written reply is found, with the wire form of its field.
proof fn lemma_thread_reply_wire_members(record: ThreadReplyView)
    ensures
        member(thread_reply_wire(record)->Object_0, "id"@) == Some(integer_wire(record.rid)),
        member(thread_reply_wire(record)->Object_0, "user_hash"@) == Some(
            text_wire(record.user_hash),
        ),
        member(thread_reply_wire(record)->Object_0, "now"@) == Some(text_wire(record.now)),
        member(thread_reply_wire(record)->Object_0, "fid"@) == Some(
            optional_wire(record.fid, |n: i64| integer_wire(n)),
        ),
        member(thread_reply_wire(record)->Object_0, "reply_count"@) == Some(
            optional_wire(record.reply_count, |n: i64| integer_wire(n)),
        ),
        member(thread_reply_wire(record)->Object_0, "title"@) == Some(
            optional_wire(record.title, |text: Seq<char>| text_wire(text)),
        ),
        member(thread_reply_wire(record)->Object_0, "name"@) == Some(
            optional_wire(record.name, |text: Seq<char>| text_wire(text)),
        ),
        member(thread_reply_wire(record)->Object_0, "email"@) == Some(
            optional_wire(record.email, |text: Seq<char>| text_wire(text)),
        ),
        member(thread_reply_wire(record)->Object_0, "content"@) == Some(text_wire(record.content)),
        member(thread_reply_wire(record)->Object_0, "img"@) == Some(text_wire(record.img)),
        member(thread_reply_wire(record)->Object_0, "ext"@) == Some(text_wire(record.ext)),
        member(thread_reply_wire(record)->Object_0, "sage"@) == Some(
            optional_wire(record.sage, |flag: bool| flag_wire(flag)),
        ),
        member(thread_reply_wire(record)->Object_0, "admin"@) == Some(
            optional_wire(record.admin, |flag: bool| flag_wire(flag)),
        ),
        member(thread_reply_wire(record)->Object_0, "hide"@) == Some(
            optional_wire(record.hide, |flag: bool| flag_wire(flag)),
        ),
{
    lemma_thread_reply_keys();
    let m = thread_reply_wire(record)->Object_0;
    lemma_member_at(m, "id"@, 0);
    lemma_member_at(m, "user_hash"@, 1);
    lemma_member_at(m, "now"@, 2);
    lemma_member_at(m, "fid"@, 3);
    lemma_member_at(m, "reply_count"@, 4);
    lemma_member_at(m, "title"@, 5);
    lemma_member_at(m, "name"@, 6);
    lemma_member_at(m, "email"@, 7);
    lemma_member_at(m, "content"@, 8);
    lemma_member_at(m, "img"@, 9);
    lemma_member_at(m, "ext"@, 10);
    lemma_member_at(m, "sage"@, 11);
    lemma_member_at(m, "admin"@, 12);
    lemma_member_at(m, "hide"@, 13);
}

/// The wire form of a reply holds no key twice, at any depth.
pub proof fn thread_reply_wire_is_well_formed(record: ThreadReplyView)
    ensures
        thread_reply_wire(record).well_formed(),
{
    lemma_thread_reply_keys();
    let m = thread_reply_wire(record)->Object_0;
    assert(distinct_keys(m));
    assert forall|i: int| 0 <= i < m.len() implies (#[trigger] m[i]).1.well_formed() by {}
}

impl ThreadReply {
    /// Decodes a reply from its wire object.
    pub fn decode(value: &WireValue) -> (result: Result<ThreadReply, DecodeError>)
        ensures
            outcome(result) == thread_reply_of(value@),
    {
        let members = match value {
            WireValue::Object(members) => members,
            _ => {
                return Err(DecodeError::UnsupportedShape);
            },
        };
        proof {
            lemma_object_view(*members);
        }
        let record = RecordKind::ThreadReply;
        let rid = integer_field(find(members, "id"), record, "id")?;
        let user_hash = text_field(find(members, "user_hash"), record, "user_hash")?;
        let now = text_field(find(members, "now"), record, "now")?;
        let fid = optional_integer_field(find(members, "fid"), record, "fid")?;
        let reply_count_at = find_either(members, "reply_count", "ReplyCount");
        let reply_count = optional_integer_field(reply_count_at.1, record, reply_count_at.0)?;
        let title = optional_text_field(find(members, "title"), record, "title")?;
        let name = optional_text_field(find(members, "name"), record, "name")?;
        let email = optional_text_field(find(members, "email"), record, "email")?;
        let content = text_field(find(members, "content"), record, "content")?;
        let img = text_field(find(members, "img"), record, "img")?;
        let ext = text_field(find(members, "ext"), record, "ext")?;
        let sage = optional_boolean_field(find(members, "sage"), record, "sage")?;
        let admin = optional_boolean_field(find(members, "admin"), record, "admin")?;
        let hide_at = find_either(members, "hide", "Hide");
        let hide = optional_boolean_field(hide_at.1, record, hide_at.0)?;
        let rid = require(rid, record, "id")?;
        let user_hash = require(user_hash, record, "user_hash")?;
        let now = require(now, record, "now")?;
        let content = require(content, record, "content")?;
        let img = require(img, record, "img")?;
        let ext = require(ext, record, "ext")?;
        Ok(
            ThreadReply {
                rid,
                user_hash,
                now,
                fid,
                reply_count,
                title,
                name,
                email,
                content,
                img,
                ext,
                sage,
                admin,
                hide,
            },
        )
    }

    /// Writes the reply as a wire object.
    pub fn encode(&self) -> (wire: WireValue)
        ensures
            wire@ == thread_reply_wire(self@),
            wire@.well_formed(),
            // Decoding what was written gives the record back.
            thread_reply_of(wire@) == Ok::<ThreadReplyView, DecodeErrorView>(self@),
    {
        let mut members: Vec<(String, WireValue)> = Vec::new();
        members.push(member_of("id", encode_integer(self.rid)));
        members.push(member_of("user_hash", encode_text(&self.user_hash)));
        members.push(member_of("now", encode_text(&self.now)));
        members.push(member_of("fid", encode_optional_integer(self.fid)));
        members.push(member_of("reply_count", encode_optional_integer(self.reply_count)));
        members.push(member_of("title", encode_optional_text(&self.title)));
        members.push(member_of("name", encode_optional_text(&self.name)));
        members.push(member_of("email", encode_optional_text(&self.email)));
        members.push(member_of("content", encode_text(&self.content)));
        members.push(member_of("img", encode_text(&self.img)));
        members.push(member_of("ext", encode_text(&self.ext)));
        members.push(member_of("sage", encode_optional_flag(self.sage)));
        members.push(member_of("admin", encode_optional_flag(self.admin)));
        members.push(member_of("hide", encode_optional_flag(self.hide)));
        proof {
            lemma_object_view(members);
            assert(member_views(members@) =~= thread_reply_wire(self@)->Object_0);
            thread_reply_round_trip(self@);
            thread_reply_wire_is_well_formed(self@);
        }
        WireValue::Object(members)
    }
}

/// A thread: its opening post and, where the document holds them, one page of
/// its replies.
#[derive(Debug, Clone, PartialEq, Eq)]
pub struct Thread {
    /// The thread's number, under the key `id`.
    pub tid: SNum,
    /// The cookie of the poster.
    pub user_hash: String,
    /// When it was posted, as the service formats it.
    pub now: String,
    /// The number of the forum that the thread belongs to.
    pub fid: Option<SNum>,
    /// How many replies the thread has. Also read under the key `ReplyCount`.
    pub reply_count: Option<SNum>,
    pub title: Option<String>,
    /// The pen name of the poster.
    pub name: Option<String>,
    pub email: Option<String>,
    /// The body, as HTML.
    pub content: String,
    /// The path of the attached image on the server.
    pub img: String,
    /// The extension of the attached image.
    pub ext: String,
    /// One page of replies, under the key `Replies`.
    pub replies: Option<Vec<ThreadReply>>,
    pub sage: Option<SNBool>,
    /// Whether it was posted with privilege.
    pub admin: Option<SNBool>,
    /// Also read under the key `Hide`.
    pub hide: Option<SNBool>,
    /// How many replies a brief listing left out, under the key
    /// `RemainReplies`. Where it is present the record is a partial view of the
    /// thread.
    pub remain_replies: Option<SNum>,
    /// The numbers of the latest replies. Where it is present the record comes
    /// from a subscription listing, which may send the list as JSON text in a
    /// string.
    pub recent_replies: Option<Vec<SNum>>,
}

/// The content of a [`Thread`].
pub struct ThreadView {
    pub tid: i64,
    pub user_hash: Seq<char>,
    pub now: Seq<char>,
    pub fid: Option<i64>,
    pub reply_count: Option<i64>,
    pub title: Option<Seq<char>>,
    pub name: Option<Seq<char>>,
    pub email: Option<Seq<char>>,
    pub content: Seq<char>,
    pub img: Seq<char>,
    pub ext: Seq<char>,
    pub replies: Option<Seq<ThreadReplyView>>,
    pub sage: Option<bool>,
    pub admin: Option<bool>,
    pub hide: Option<bool>,
    pub remain_replies: Option<i64>,
    pub recent_replies: Option<Seq<i64>>,
}

impl View for Thread {
    type V = ThreadView;

    open spec fn view(&self) -> ThreadView {
        ThreadView {
            tid: self.tid@,
            user_hash: self.user_hash@,
            now: self.now@,
            fid: maybe(self.fid),
            reply_count: maybe(self.reply_count),
            title: maybe(self.title),
            name: maybe(self.name),
            email: maybe(self.email),
            content: self.content@,
            img: self.img@,
            ext: self.ext@,
            replies: maybe_views(self.replies),
            sage: maybe(self.sage),
            admin: maybe(self.admin),
            hide: maybe(self.hide),
            remain_replies: maybe(self.remain_replies),
            recent_replies: maybe_views(self.recent_replies),
        }
    }
}

/// The thread that the members of an object spell, or the first failure among
/// its fields: malformed values first, in the order of declaration, then
/// missing required keys.
pub open spec fn thread_of_members(m: Members) -> Result<ThreadView, DecodeErrorView> {
    let record = RecordKind::Thread;
    let tid = held(member(m, "id"@), |v: WireView| integer_of(v), record, "id"@);
    let user_hash = held(member(m, "user_hash"@), |v: WireView| text_of(v), record, "user_hash"@);
    let now = held(member(m, "now"@), |v: WireView| text_of(v), record, "now"@);
    let fid = held_unless_blank(member(m, "fid"@), |v: WireView| integer_of(v), record, "fid"@);
    let reply_count = held_unless_blank(
        member_either(m, "reply_count"@, "ReplyCount"@),
        |v: WireView| integer_of(v),
        record,
        key_in_use(m, "reply_count"@, "ReplyCount"@),
    );
    let title = held_unless_null(member(m, "title"@), |v: WireView| text_of(v), record, "title"@);
    let name = held_unless_null(member(m, "name"@), |v: WireView| text_of(v), record, "name"@);
    let email = held_unless_null(member(m, "email"@), |v: WireView| text_of(v), record, "email"@);
    let content = held(member(m, "content"@), |v: WireView| text_of(v), record, "content"@);
    let img = held(member(m, "img"@), |v: WireView| text_of(v), record, "img"@);
    let ext = held(member(m, "ext"@), |v: WireView| text_of(v), record, "ext"@);
    let replies = held_unless_blank(
        member(m, "Replies"@),
        |v: WireView| array_of(v, |item: WireView| thread_reply_of(item)),
        record,
        "Replies"@,
    );
    let sage = held_unless_blank(member(m, "sage"@), |v: WireView| boolean_of(v), record, "sage"@);
    let admin = held_unless_blank(
        member(m, "admin"@),
        |v: WireView| boolean_of(v),
        record,
        "admin"@,
    );
    let hide = held_unless_blank(
        member_either(m, "hide"@, "Hide"@),
        |v: WireView| boolean_of(v),
        record,
        key_in_use(m, "hide"@, "Hide"@),
    );
    let remain_replies = held_unless_blank(
        member(m, "RemainReplies"@),
        |v: WireView| integer_of(v),
        record,
        "RemainReplies"@,
    );
    let recent_replies = held_envelope(
        member(m, "recent_replies"@),
        |p: WireView| array_of(p, |v: WireView| integer_of(v)),
        record,
        "recent_replies"@,
    );
    let fault = fault_of(tid)
        .before(fault_of(user_hash))
        .before(fault_of(now))
        .before(fault_of(fid))
        .before(fault_of(reply_count))
        .before(fault_of(title))
        .before(fault_of(name))
        .before(fault_of(email))
        .before(fault_of(content))
        .before(fault_of(img))
        .before(fault_of(ext))
        .before(fault_of(replies))
        .before(fault_of(sage))
        .before(fault_of(admin))
        .before(fault_of(hide))
        .before(fault_of(remain_replies))
        .before(fault_of(recent_replies))
        .before(missing(tid, record, "id"@))
        .before(missing(user_hash, record, "user_hash"@))
        .before(missing(now, record, "now"@))
        .before(missing(content, record, "content"@))
        .before(missing(img, record, "img"@))
        .before(missing(ext, record, "ext"@));
    match fault {
        Some(error) => Err(error),
        None => Ok(
            ThreadView {
                tid: tid->Ok_0->Some_0,
                user_hash: user_hash->Ok_0->Some_0,
                now: now->Ok_0->Some_0,
                fid: fid->Ok_0,
                reply_count: reply_count->Ok_0,
                title: title->Ok_0,
                name: name->Ok_0,
                email: email->Ok_0,
                content: content->Ok_0->Some_0,
                img: img->Ok_0->Some_0,
                ext: ext->Ok_0->Some_0,
                replies: replies->Ok_0,
                sage: sage->Ok_0,
                admin: admin->Ok_0,
                hide: hide->Ok_0,
                remain_replies: remain_replies->Ok_0,
                recent_replies: recent_replies->Ok_0,
            },
        ),
    }
}

/// What decoding a document as a thread gives: only an object is a record.
pub open spec fn thread_of(value: WireView) -> Result<ThreadView, DecodeErrorView> {
    match value {
        WireView::Object(m) => thread_of_members(m),
        _ => Err(DecodeErrorView::UnsupportedShape),
    }
}

/// The wire form of a thread: an object with one member for each field, under
/// the field's first name.
pub open spec fn thread_wire(record: ThreadView) -> WireView {
    WireView::Object(
        seq![
            ("id"@, integer_wire(record.tid)),
            ("user_hash"@, text_wire(record.user_hash)),
            ("now"@, text_wire(record.now)),
            ("fid"@, optional_wire(record.fid, |n: i64| integer_wire(n))),
            ("reply_count"@, optional_wire(record.reply_count, |n: i64| integer_wire(n))),
            ("title"@, optional_wire(record.title, |text: Seq<char>| text_wire(text))),
            ("name"@, optional_wire(record.name, |text: Seq<char>| text_wire(text))),
            ("email"@, optional_wire(record.email, |text: Seq<char>| text_wire(text))),
            ("content"@, text_wire(record.content)),
            ("img"@, text_wire(record.img)),
            ("ext"@, text_wire(record.ext)),
            (
                "Replies"@,
                optional_wire(
                    record.replies,
                    |items: Seq<ThreadReplyView>|
                        list_wire(items, |item: ThreadReplyView| thread_reply_wire(item)),
                ),
            ),
            ("sage"@, optional_wire(record.sage, |flag: bool| flag_wire(flag))),
            ("admin"@, optional_wire(record.admin, |flag: bool| flag_wire(flag))),
            ("hide"@, optional_wire(record.hide, |flag: bool| flag_wire(flag))),
            ("RemainReplies"@, optional_wire(record.remain_replies, |n: i64| integer_wire(n))),
            (
                "recent_replies"@,
                optional_wire(
                    record.recent_replies,
                    |items: Seq<i64>| list_wire(items, |n: i64| integer_wire(n)),
                ),
            ),
        ],
    )
}

/// A thread that is written and decoded again is the same thread.
#[verifier::rlimit(60)]
pub proof fn thread_round_trip(record: ThreadView)
    ensures
        thread_of(thread_wire(record)) == Ok::<ThreadView, DecodeErrorView>(record),
{
    lemma_thread_wire_members(record);
    if let Some(items) = record.replies {
        assert forall|i: int| 0 <= i < items.len() implies thread_reply_of(
            thread_reply_wire(#[trigger] items[i]),
        ) == Ok::<ThreadReplyView, DecodeErrorView>(items[i]) by {
            thread_reply_round_trip(items[i]);
        }
        lemma_written_list_decodes(
            items,
            |item: ThreadReplyView| thread_reply_wire(item),
            |item: WireView| thread_reply_of(item),
        );
    }
    if let Some(items) = record.recent_replies {
        lemma_written_list_decodes(
            items,
            |n: i64| integer_wire(n),
            |v: WireView| integer_of(v),
        );
    }
}

/// The keys of a thread, spelled out: how long each is and how it begins.
proof fn lemma_thread_keys()
    ensures
        "id"@.len() == 2 && "id"@[0] == 'i',
        "user_hash"@.len() == 9 && "user_hash"@[0] == 'u',
        "now"@.len() == 3 && "now"@[0] == 'n',
        "fid"@.len() == 3 && "fid"@[0] == 'f',
        "reply_count"@.len() == 11 && "reply_count"@[0] == 'r',
        "title"@.len() == 5 && "title"@[0] == 't',
        "name"@.len() == 4 && "name"@[0] == 'n',
        "email"@.len() == 5 && "email"@[0] == 'e',
        "content"@.len() == 7 && "content"@[0] == 'c',
        "img"@.len() == 3 && "img"@[0] == 'i',
        "ext"@.len() == 3 && "ext"@[0] == 'e',
        "Replies"@.len() == 7 && "Replies"@[0] == 'R',
        "sage"@.len() == 4 && "sage"@[0] == 's',
        "admin"@.len() == 5 && "admin"@[0] == 'a',
        "hide"@.len() == 4 && "hide"@[0] == 'h',
        "RemainReplies"@.len() == 13 && "RemainReplies"@[0] == 'R',
        "recent_replies"@.len() == 14 && "recent_replies"@[0] == 'r',
{
    reveal_strlit("id");
    reveal_strlit("user_hash");
    reveal_strlit("now");
    reveal_strlit("fid");
    reveal_strlit("reply_count");
    reveal_strlit("title");
    reveal_strlit("name");
    reveal_strlit("email");
    reveal_strlit("content");
    reveal_strlit("img");
    reveal_strlit("ext");
    reveal_strlit("Replies");
    reveal_strlit("sage");
    reveal_strlit("admin");
    reveal_strlit("hide");
    reveal_strlit("RemainReplies");
    reveal_strlit("recent_replies");
}

/// Each key of a written thread is found, with the wire form of its field.
proof fn lemma_thread_wire_members(record: ThreadView)
    ensures
        member(thread_wire(record)->Object_0, "id"@) == Some(integer_wire(record.tid)),
        member(thread_wire(record)->Object_0, "user_hash"@) == Some(text_wire(record.user_hash)),
        member(thread_wire(record)->Object_0, "now"@) == Some(text_wire(record.now)),
        member(thread_wire(record)->Object_0, "fid"@) == Some(
            optional_wire(record.fid, |n: i64| integer_wire(n)),
        ),
        member(thread_wire(record)->Object_0, "reply_count"@) == Some(
            optional_wire(record.reply_count, |n: i64| integer_wire(n)),
        ),
        member(thread_wire(record)->Object_0, "title"@) == Some(
            optional_wire(record.title, |text: Seq<char>| text_wire(text)),
        ),
        member(thread_wire(record)->Object_0, "name"@) == Some(
            optional_wire(record.name, |text: Seq<char>| text_wire(text)),
        ),
        member(thread_wire(record)->Object_0, "email"@) == Some(
            optional_wire(record.email, |text: Seq<char>| text_wire(text)),
        ),
        member(thread_wire(record)->Object_0, "content"@) == Some(text_wire(record.content)),
        member(thread_wire(record)->Object_0, "img"@) == Some(text_wire(record.img)),
        member(thread_wire(record)->Object_0, "ext"@) == Some(text_wire(record.ext)),
        member(thread_wire(record)->Object_0, "Replies"@) == Some(
            optional_wire(
                record.replies,
                |items: Seq<ThreadReplyView>|
                    list_wire(items, |item: ThreadReplyView| thread_reply_wire(item)),
            ),
        ),
        member(thread_wire(record)->Object_0, "sage"@) == Some(
            optional_wire(record.sage, |flag: bool| flag_wire(flag)),
        ),
        member(thread_wire(record)->Object_0, "admin"@) == Some(
            optional_wire(record.admin, |flag: bool| flag_wire(flag)),
        ),
        member(thread_wire(record)->Object_0, "hide"@) == Some(
            optional_wire(record.hide, |flag: bool| flag_wire(flag)),
        ),
        member(thread_wire(record)->Object_0, "RemainReplies"@) == Some(
            optional_wire(record.remain_replies, |n: i64| integer_wire(n)),
        ),
        member(thread_wire(record)->Object_0, "recent_replies"@) == Some(
            optional_wire(
                record.recent_replies,
                |items: Seq<i64>| list_wire(items, |n: i64| integer_wire(n)),
            ),
        ),
{
    lemma_thread_keys();
    let m = thread_wire(record)->Object_0;
    lemma_member_at(m, "id"@, 0);
    lemma_member_at(m, "user_hash"@, 1);
    lemma_member_at(m, "now"@, 2);
    lemma_member_at(m, "fid"@, 3);
    lemma_member_at(m, "reply_count"@, 4);
    lemma_member_at(m, "title"@, 5);
    lemma_member_at(m, "name"@, 6);
    lemma_member_at(m, "email"@, 7);
    lemma_member_at(m, "content"@, 8);
    lemma_member_at(m, "img"@, 9);
    lemma_member_at(m, "ext"@, 10);
    lemma_member_at(m, "Replies"@, 11);
    lemma_member_at(m, "sage"@, 12);
    lemma_member_at(m, "admin"@, 13);
    lemma_member_at(m, "hide"@, 14);
    lemma_member_at(m, "RemainReplies"@, 15);
    lemma_member_at(m, "recent_replies"@, 16);
}

/// The wire form of a thread holds no key twice, at any depth.
pub proof fn thread_wire_is_well_formed(record: ThreadView)
    ensures
        thread_wire(record).well_formed(),
{
    lemma_thread_keys();
    let m = thread_wire(record)->Object_0;
    if let Some(items) = record.replies {
        assert forall|i: int| 0 <= i < items.len() implies thread_reply_wire(
            #[trigger] items[i],
        ).well_formed() by {
            thread_reply_wire_is_well_formed(items[i]);
        }
        lemma_list_wire_well_formed(items, |item: ThreadReplyView| thread_reply_wire(item));
    }
    if let Some(items) = record.recent_replies {
        lemma_list_wire_well_formed(items, |n: i64| integer_wire(n));
    }
    assert(m[11].1.well_formed());
    assert(m[16].1.well_formed());
    assert(distinct_keys(m));
    assert forall|i: int| 0 <= i < m.len() implies (#[trigger] m[i]).1.well_formed() by {}
}

impl Thread {
    /// Decodes a thread from its wire object.
    pub fn decode(value: &WireValue) -> (result: Result<Thread, DecodeError>)
        ensures
            outcome(result) == thread_of(value@),
    {
        let members = match value {
            WireValue::Object(members) => members,
            _ => {
                return Err(DecodeError::UnsupportedShape);
            },
        };
        proof {
            lemma_object_view(*members);
        }
        let record = RecordKind::Thread;
        let tid = integer_field(find(members, "id"), record, "id")?;
        let user_hash = text_field(find(members, "user_hash"), record, "user_hash")?;
        let now = text_field(find(members, "now"), record, "now")?;
        let fid = optional_integer_field(find(members, "fid"), record, "fid")?;
        let reply_count_at = find_either(members, "reply_count", "ReplyCount");
        let reply_count = optional_integer_field(reply_count_at.1, record, reply_count_at.0)?;
        let title = optional_text_field(find(members, "title"), record, "title")?;
        let name = optional_text_field(find(members, "name"), record, "name")?;
        let email = optional_text_field(find(members, "email"), record, "email")?;
        let content = text_field(find(members, "content"), record, "content")?;
        let img = text_field(find(members, "img"), record, "img")?;
        let ext = text_field(find(members, "ext"), record, "ext")?;
        let replies = optional_list_field(
            find(members, "Replies"),
            record,
            "Replies",
            ThreadReply::decode,
            Ghost(|item: WireView| thread_reply_of(item)),
        )?;
        let sage = optional_boolean_field(find(members, "sage"), record, "sage")?;
        let admin = optional_boolean_field(find(members, "admin"), record, "admin")?;
        let hide_at = find_either(members, "hide", "Hide");
        let hide = optional_boolean_field(hide_at.1, record, hide_at.0)?;
        let remain_replies = optional_integer_field(
            find(members, "RemainReplies"),
            record,
            "RemainReplies",
        )?;
        let recent_replies = integer_list_envelope_field(
            find(members, "recent_replies"),
            record,
            "recent_replies",
        )?;
        let tid = require(tid, record, "id")?;
        let user_hash = require(user_hash, record, "user_hash")?;
        let now = require(now, record, "now")?;
        let content = require(content, record, "content")?;
        let img = require(img, record, "img")?;
        let ext = require(ext, record, "ext")?;
        Ok(
            Thread {
                tid,
                user_hash,
                now,
                fid,
                reply_count,
                title,
                name,
                email,
                content,
                img,
                ext,
                replies,
                sage,
                admin,
                hide,
                remain_replies,
                recent_replies,
            },
        )
    }

    /// Writes the thread as a wire object.
    pub fn encode(&self) -> (wire: WireValue)
        ensures
            wire@ == thread_wire(self@),
            wire@.well_formed(),
            // Decoding what was written gives the record back.
            thread_of(wire@) == Ok::<ThreadView, DecodeErrorView>(self@),
    {
        let mut members: Vec<(String, WireValue)> = Vec::new();
        members.push(member_of("id", encode_integer(self.tid)));
        members.push(member_of("user_hash", encode_text(&self.user_hash)));
        members.push(member_of("now", encode_text(&self.now)));
        members.push(member_of("fid", encode_optional_integer(self.fid)));
        members.push(member_of("reply_count", encode_optional_integer(self.reply_count)));
        members.push(member_of("title", encode_optional_text(&self.title)));
        members.push(member_of("name", encode_optional_text(&self.name)));
        members.push(member_of("email", encode_optional_text(&self.email)));
        members.push(member_of("content", encode_text(&self.content)));
        members.push(member_of("img", encode_text(&self.img)));
        members.push(member_of("ext", encode_text(&self.ext)));
        members.push(
            member_of(
                "Replies",
                encode_optional_items(
                    &self.replies,
                    ThreadReply::encode,
                    Ghost(|item: ThreadReplyView| thread_reply_wire(item)),
                ),
            ),
        );
        members.push(member_of("sage", encode_optional_flag(self.sage)));
        members.push(member_of("admin", encode_optional_flag(self.admin)));
        members.push(member_of("hide", encode_optional_flag(self.hide)));
        members.push(member_of("RemainReplies", encode_optional_integer(self.remain_replies)));
        members.push(
            member_of("recent_replies", encode_optional_integer_list(&self.recent_replies)),
        );
        proof {
            lemma_object_view(members);
            assert(member_views(members@) =~= thread_wire(self@)->Object_0);
            thread_round_trip(self@);
            thread_wire_is_well_formed(self@);
        }
        WireValue::Object(members)
    }
}

impl Thread {
    /// Whether the record is a partial view of the thread: a brief listing
    /// that left replies out. The field's presence says so, whatever its
    /// value.
    pub fn is_partial_view(&self) -> (partial: bool)
        ensures
            partial == self@.remain_replies is Some,
    {
        self.remain_replies.is_some()
    }

    /// Whether the record comes from a subscription listing.
    pub fn is_from_subscription(&self) -> (subscribed: bool)
        ensures
            subscribed == self@.recent_replies is Some,
    {
        self.recent_replies.is_some()
    }
}

/// A list of threads, as the service returns it.
pub type ThreadList = Vec<Thread>;

/// Decodes an array of threads.
pub fn decode_thread_list(value: &WireValue) -> (result: Result<ThreadList, DecodeError>)
    ensures
        list_outcome(result) == array_of(value@, |item: WireView| thread_of(item)),
{
    decode_array(value, Thread::decode, Ghost(|item: WireView| thread_of(item)))
}

} // verus!
