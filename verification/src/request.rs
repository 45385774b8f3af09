//! What a request to the service holds and how its answer is read.
//!
//! Nothing here talks to the network. These functions decide the path, the
//! query, the form fields and the cookie header of a request, and whether
//! the page that answers a post reports success.

use vstd::prelude::*;
use vstd::string::StringExecFns;

verus! {

/// The address of an endpoint: the base address, a slash, the path.
pub fn endpoint_url(base_url: &str, api_path: &str) -> (url: String)
    ensures
        url@ == base_url@ + "/"@ + api_path@,
{
    let mut url = base_url.to_owned();
    url.append("/");
    url.append(api_path);
    url
}

/// The address at which a thread is added to a subscription.
pub fn add_feed_url(base_url: &str, uuid: &str) -> (url: String)
    ensures
        url@ == base_url@ + "/api/addFeed?uuid="@ + uuid@,
{
    let mut url = base_url.to_owned();
    url.append("/api/addFeed?uuid=");
    url.append(uuid);
    url
}

/// The address at which a thread is taken off a subscription.
pub fn del_feed_url(base_url: &str, uuid: &str) -> (url: String)
    ensures
        url@ == base_url@ + "/api/delFeed?uuid="@ + uuid@,
{
    let mut url = base_url.to_owned();
    url.append("/api/delFeed?uuid=");
    url.append(uuid);
    url
}

/// The path under which one page of a thread is read: all of its replies,
/// or only those of the thread's author.
pub fn thread_page_path(po_only: bool) -> (path: &'static str)
    ensures
        path@ == if po_only {
            "api/po"@
        } else {
            "api/thread"@
        },
{
    if po_only {
        "api/po"
    } else {
        "api/thread"
    }
}

/// The value of the cookie header that a post carries.
pub fn userhash_header(cookie_value: &str) -> (header: String)
    ensures
        header@ == "userhash="@ + cookie_value@,
{
    let mut header = "userhash=".to_owned();
    header.append(cookie_value);
    header
}

/// The content of a list of named texts.
pub open spec fn pairs(fields: Seq<(String, String)>) -> Seq<(Seq<char>, Seq<char>)> {
    Seq::new(fields.len(), |i: int| (fields[i].0@, fields[i].1@))
}

/// The named text that an optional value adds to a request: one pair where
/// it is given, none where it is not.
pub open spec fn given(name: Seq<char>, value: Option<&str>) -> Seq<(Seq<char>, Seq<char>)> {
    match value {
        Some(text) => seq![(name, text@)],
        None => Seq::empty(),
    }
}

/// Adds a named text to a list.
fn push_pair(fields: &mut Vec<(String, String)>, name: &str, value: &str)
    ensures
        pairs(final(fields)@) == pairs(old(fields)@).push((name@, value@)),
{
    let ghost before = pairs(fields@);
    fields.push((name.to_owned(), value.to_owned()));
    assert(pairs(fields@) =~= before.push((name@, value@)));
}

/// Adds a named text to a list where a value is given.
fn push_given(fields: &mut Vec<(String, String)>, name: &str, value: Option<&str>)
    ensures
        pairs(final(fields)@) == pairs(old(fields)@) + given(name@, value),
{
    let ghost before = pairs(fields@);
    match value {
        Some(text) => {
            push_pair(fields, name, text);
            assert(before.push((name@, text@)) =~= before + given(name@, value));
        },
        None => {
            assert(before =~= before + given(name@, value));
        },
    }
}

/// Whether no name occurs twice in a list of named texts.
pub open spec fn distinct_names(fields: Seq<(Seq<char>, Seq<char>)>) -> bool {
    forall|i: int, j: int|
        0 <= i < j < fields.len() ==> (#[trigger] fields[i]).0 != (#[trigger] fields[j]).0
}

/// The query of a listing: the number of the forum or timeline and the
/// page, each where it is given; no query where neither is.
///
/// A query is a list of named texts in a fixed order, so that the same
/// request always has the same address. No name occurs twice in it.
pub fn listing_query(id: Option<&str>, page: Option<&str>) -> (query: Option<Vec<(String, String)>>)
    ensures
        id is None && page is None ==> query is None,
        id is Some || page is Some ==> query is Some && pairs(query->Some_0@) == given("id"@, id)
            + given("page"@, page),
        query matches Some(fields) ==> distinct_names(pairs(fields@)),
{
    proof {
        reveal_strlit("id");
        reveal_strlit("page");
        assert("id"@.len() == 2 && "page"@.len() == 4);
    }
    let mut fields: Vec<(String, String)> = Vec::new();
    assert(pairs(fields@) =~= Seq::empty());
    push_given(&mut fields, "id", id);
    push_given(&mut fields, "page", page);
    if fields.len() == 0 {
        assert(pairs(fields@).len() == 0);
        None
    } else {
        assert(pairs(fields@).len() > 0);
        assert(pairs(fields@) =~= given("id"@, id) + given("page"@, page));
        Some(fields)
    }
}

/// The query of a page of the threads that a user follows: the id of the
/// subscription, then the page. No name occurs twice in it.
pub fn feed_query(uuid: &str, page: &str) -> (query: Vec<(String, String)>)
    ensures
        pairs(query@) == seq![("uuid"@, uuid@), ("page"@, page@)],
        distinct_names(pairs(query@)),
{
    proof {
        reveal_strlit("uuid");
        reveal_strlit("page");
        assert("uuid"@[0] == 'u' && "page"@[0] == 'p');
    }
    let mut fields: Vec<(String, String)> = Vec::new();
    assert(pairs(fields@) =~= Seq::empty());
    push_pair(&mut fields, "uuid", uuid);
    push_pair(&mut fields, "page", page);
    assert(pairs(fields@) =~= seq![("uuid"@, uuid@), ("page"@, page@)]);
    fields
}

/// The texts of a post: what it answers to under `target_key`, then title,
/// name, email and content, each where it is given.
pub fn post_text_fields(
    target_key: &str,
    target: &str,
    title: Option<&str>,
    name: Option<&str>,
    email: Option<&str>,
    content: Option<&str>,
) -> (fields: Vec<(String, String)>)
    ensures
        pairs(fields@) == seq![(target_key@, target@)] + given("title"@, title) + given(
            "name"@,
            name,
        ) + given("email"@, email) + given("content"@, content),
{
    let mut fields: Vec<(String, String)> = Vec::new();
    assert(pairs(fields@) =~= Seq::empty());
    push_pair(&mut fields, target_key, target);
    assert(pairs(fields@) =~= seq![(target_key@, target@)]);
    push_given(&mut fields, "title", title);
    push_given(&mut fields, "name", name);
    push_given(&mut fields, "email", email);
    push_given(&mut fields, "content", content);
    fields
}

/// Whether a post asks for a watermark on its image: only where the caller
/// said yes.
pub fn wants_watermark(img_watermark: Option<bool>) -> (wanted: bool)
    ensures
        wanted == (img_watermark == Some(true)),
{
    match img_watermark {
        Some(flag) => flag,
        None => false,
    }
}

/// Whether `pattern` stands in `text` at the place `at`.
pub open spec fn occurs_at(text: Seq<char>, pattern: Seq<char>, at: int) -> bool {
    0 <= at && at + pattern.len() <= text.len() && text.subrange(at, at + pattern.len())
        == pattern
}

/// Whether `pattern` stands somewhere in `text`.
pub open spec fn occurs(text: Seq<char>, pattern: Seq<char>) -> bool {
    exists|at: int| occurs_at(text, pattern, at)
}

/// The characters of a text.
pub fn chars_of(text: &str) -> (chars: Vec<char>)
    ensures
        chars@ == text@,
{
    let mut chars: Vec<char> = Vec::new();
    for c in it: text.chars()
        invariant
            it.seq() == text@,
            chars@ == text@.take(it.index() as int),
    {
        let ghost before = chars@;
        chars.push(c);
        assert(chars@ =~= text@.take(it.index() + 1));
    }
    assert(text@.take(text@.len() as int) =~= text@);
    chars
}

/// Whether `pattern` stands in `text` at the place `at`.
fn matches_at(text: &Vec<char>, pattern: &Vec<char>, at: usize) -> (found: bool)
    requires
        at + pattern.len() <= text.len(),
    ensures
        found == occurs_at(text@, pattern@, at as int),
{
    let mut k: usize = 0;
    while k < pattern.len()
        invariant
            k <= pattern.len(),
            at + pattern.len() <= text.len(),
            forall|j: int| 0 <= j < k ==> text@[at + j] == pattern@[j],
        decreases pattern.len() - k,
    {
        if text[at + k] != pattern[k] {
            assert(text@.subrange(at as int, at + pattern.len())[k as int] != pattern@[k as int]);
            return false;
        }
        k += 1;
    }
    assert(text@.subrange(at as int, at + pattern.len()) =~= pattern@);
    true
}

/// Whether `pattern` stands somewhere in `text`.
pub fn contains_text(text: &str, pattern: &str) -> (found: bool)
    ensures
        found == occurs(text@, pattern@),
{
    let haystack = chars_of(text);
    let needle = chars_of(pattern);
    if needle.len() > haystack.len() {
        return false;
    }
    let last = haystack.len() - needle.len();
    let mut at: usize = 0;
    loop
        invariant
            haystack@ == text@,
            needle@ == pattern@,
            last == haystack.len() - needle.len(),
            needle.len() <= haystack.len(),
            at <= last,
            forall|j: int| 0 <= j < at ==> !occurs_at(text@, pattern@, j),
        decreases last - at,
    {
        if matches_at(&haystack, &needle, at) {
            return true;
        }
        if at == last {
            return false;
        }
        at += 1;
    }
}

/// How the page that answers a post is read: the page reports success where
/// it holds the smiling headline, and is itself the complaint where it does
/// not.
pub fn post_outcome(page: String) -> (outcome: Result<String, String>)
    ensures
        occurs(page@, "<h1>:)</h1>"@) ==> outcome is Ok && outcome->Ok_0@ == Seq::<char>::empty(),
        !occurs(page@, "<h1>:)</h1>"@) ==> outcome == Err::<String, String>(page),
{
    if contains_text(page.as_str(), "<h1>:)</h1>") {
        Ok(String::new())
    } else {
        Err(page)
    }
}

} // verus!
