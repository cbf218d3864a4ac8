//! Gmail: reading message lists and details, drafting replies, label changes and the
//! texts handed back to the model.
use crate::json::{array_of, at, members_of, str_of, str_or, views_of, Json, JsonV};
use crate::mime::{decode_text, decoded_text, extract_plain_text_body, extracted, MimePart};
use crate::text::{
    cat, failure, failure_text, join, joined, lowercase, owned, push_str, str_eq, to_lowercase, views,
};
use crate::trusted::{b64_url_nopad_encoded, encode_url_safe_no_pad};
use vstd::prelude::*;
use vstd::utf8::encode_utf8;

verus! {

/// A message of a list: its ids, sender, subject and snippet.
pub struct EmailSummary {
    pub id: String,
    pub thread_id: String,
    pub from: String,
    pub subject: String,
    pub snippet: String,
}

/// A message with its plain-text body.
pub struct EmailDetail {
    pub id: String,
    pub thread_id: String,
    pub from: String,
    pub subject: String,
    pub body: String,
}

/// The ids of the listed messages, in order, skipping entries without a string id.
pub open spec fn ids_of(items: Seq<JsonV>) -> Seq<Seq<char>>
    decreases items.len(),
{
    if items.len() == 0 {
        Seq::empty()
    } else {
        let r = ids_of(items.drop_last());
        match str_of(at(items.last(), "id"@)) {
            Some(id) => r.push(id),
            None => r,
        }
    }
}

/// The items of `value[key]` where it is an array, else none.
pub open spec fn array_at(v: JsonV, key: Seq<char>) -> Seq<JsonV> {
    match array_of(at(v, key)) {
        Some(a) => a,
        None => Seq::empty(),
    }
}

/// Whether header `h` has the name `name` (ignoring case when `any_case` holds).
pub open spec fn header_named(h: JsonV, name: Seq<char>, any_case: bool) -> bool {
    match str_of(at(h, "name"@)) {
        Some(n) => if any_case { lowercase(n) == lowercase(name) } else { n == name },
        None => false,
    }
}

/// The index of the first header named `name` from index `i` on.
pub open spec fn header_index(hs: Seq<JsonV>, name: Seq<char>, any_case: bool, i: int) -> Option<int>
    decreases hs.len() - i,
{
    if i < 0 || i >= hs.len() {
        None
    } else if header_named(hs[i], name, any_case) {
        Some(i)
    } else {
        header_index(hs, name, any_case, i + 1)
    }
}

/// The value of the first header named `name`, or `default` when there is none or its value
/// is not a string.
pub open spec fn header_value(hs: Seq<JsonV>, name: Seq<char>, any_case: bool, default: Seq<char>) -> Seq<char> {
    match header_index(hs, name, any_case, 0) {
        Some(i) => str_or(at(hs[i], "value"@), default),
        None => default,
    }
}

/// The headers of a message resource (`payload.headers`).
pub open spec fn headers_of(detail: JsonV) -> Seq<JsonV> {
    array_at(at(detail, "payload"@), "headers"@)
}

/// The text given for a missing header.
pub open spec fn unknown() -> Seq<char> {
    "(inconnu)"@
}

/// The raw RFC 822 text of a reply draft.
pub open spec fn raw_reply(to: Seq<char>, subject: Seq<char>, in_reply_to: Seq<char>, body: Seq<char>) -> Seq<char> {
    "To: "@ + to + "\r\nSubject: "@ + subject + "\r\nIn-Reply-To: "@ + in_reply_to + "\r\nReferences: "@
        + in_reply_to + "\r\nContent-Type: text/plain; charset=utf-8\r\n\r\n"@ + body
}

/// The request body of a reply draft: `{"message": {"raw": ..., "threadId": ...}}`.
pub open spec fn draft_body_v(raw: Seq<char>, thread_id: Seq<char>) -> JsonV {
    JsonV::Object(
        seq![("message"@, JsonV::Object(seq![("raw"@, JsonV::Str(raw)), ("threadId"@, JsonV::Str(thread_id))]))],
    )
}

/// A JSON array of strings.
pub open spec fn str_array_v(items: Seq<Seq<char>>) -> JsonV {
    JsonV::Array(Seq::new(items.len(), |i: int| JsonV::Str(items[i])))
}

/// A label change on a message.
pub enum EmailAction {
    /// Add and remove these label ids.
    Labels { add: Vec<String>, remove: Vec<String> },
    /// Move the message to the trash.
    Trash,
}

/// One line of a message list.
pub open spec fn email_line(id: Seq<char>, from: Seq<char>, subject: Seq<char>, snippet: Seq<char>) -> Seq<char> {
    "["@ + id + "] De: "@ + from + " — Sujet: "@ + subject + " — "@ + snippet
}

/// The lines of a list of messages.
pub open spec fn email_lines(e: Seq<EmailSummary>) -> Seq<Seq<char>> {
    Seq::new(e.len(), |i: int| email_line(e[i].id@, e[i].from@, e[i].subject@, e[i].snippet@))
}

/// The digest of a list of messages, one line each, or `empty_text` when there is none.
pub open spec fn email_list_text(e: Seq<EmailSummary>, empty_text: Seq<char>) -> Seq<char> {
    if e.len() == 0 {
        empty_text
    } else {
        joined(email_lines(e), "\n"@)
    }
}

/// The string value of `j[key]`, or `default`.
pub fn str_at_or(j: &Json, key: &str, default: &str) -> (r: String)
    ensures
        r@ == str_or(at(j@, key@), default@),
{
    match j.get(key) {
        Some(v) => match v.as_str() {
            Some(s) => owned(s.as_str()),
            None => owned(default),
        },
        None => owned(default),
    }
}

/// The items of `j[key]` where it is an array.
pub fn array_at_exec<'a>(j: &'a Json, key: &str) -> (r: Option<&'a Vec<Json>>)
    ensures
        match r {
            Some(v) => array_at(j@, key@) == views_of(v@),
            None => array_at(j@, key@) == Seq::<JsonV>::empty(),
        },
{
    match j.get(key) {
        Some(v) => v.as_array(),
        None => None,
    }
}

/// The ids in a message list answer (`messages[].id`), in order.
pub fn message_ids(list_body: &Json) -> (r: Vec<String>)
    ensures
        views(r@) == ids_of(array_at(list_body@, "messages"@)),
{
    let mut out: Vec<String> = Vec::new();
    match array_at_exec(list_body, "messages") {
        Some(items) => {
            let mut i: usize = 0;
            while i < items.len()
                invariant
                    i <= items@.len(),
                    array_at(list_body@, "messages"@) == views_of(items@),
                    views(out@) == ids_of(views_of(items@).take(i as int)),
                decreases items@.len() - i,
            {
                assert(views_of(items@).take(i + 1).drop_last() =~= views_of(items@).take(i as int));
                match items[i].get("id") {
                    Some(idv) => match idv.as_str() {
                        Some(s) => {
                            out.push(owned(s.as_str()));
                            assert(views(out@) =~= ids_of(views_of(items@).take(i as int)).push(s@));
                        },
                        None => {},
                    },
                    None => {},
                }
                i = i + 1;
            }
            assert(views_of(items@).take(items@.len() as int) =~= views_of(items@));
        },
        None => {
            assert(views(out@) =~= Seq::<Seq<char>>::empty());
        },
    }
    out
}

fn header_lookup(headers: &Vec<Json>, name: &str, any_case: bool, default: &str) -> (r: String)
    ensures
        r@ == header_value(views_of(headers@), name@, any_case, default@),
{
    let ghost hs = views_of(headers@);
    let wanted = to_lowercase(name);
    let mut i: usize = 0;
    while i < headers.len()
        invariant
            hs == views_of(headers@),
            wanted@ == lowercase(name@),
            i <= headers@.len(),
            header_index(hs, name@, any_case, 0) == header_index(hs, name@, any_case, i as int),
        decreases headers@.len() - i,
    {
        let h = &headers[i];
        let named = match h.get("name") {
            Some(n) => match n.as_str() {
                Some(s) => if any_case {
                    let l = to_lowercase(s.as_str());
                    str_eq(l.as_str(), wanted.as_str())
                } else {
                    str_eq(s.as_str(), name)
                },
                None => false,
            },
            None => false,
        };
        if named {
            return str_at_or(h, "value", default);
        }
        i = i + 1;
    }
    owned(default)
}

fn headers_exec(detail: &Json) -> (r: Vec<Json>)
    ensures
        views_of(r@) == headers_of(detail@),
{
    match detail.get("payload") {
        Some(p) => match array_at_exec(p, "headers") {
            Some(hs) => {
                let mut out: Vec<Json> = Vec::new();
                let mut i: usize = 0;
                while i < hs.len()
                    invariant
                        i <= hs@.len(),
                        out@.len() == i,
                        forall|j: int| 0 <= j < i ==> (#[trigger] out@[j])@ == hs@[j]@,
                    decreases hs@.len() - i,
                {
                    out.push(hs[i].deep_clone());
                    i = i + 1;
                }
                assert(views_of(out@) =~= views_of(hs@));
                out
            },
            None => {
                let out: Vec<Json> = Vec::new();
                assert(views_of(out@) =~= Seq::<JsonV>::empty());
                out
            },
        },
        None => {
            let out: Vec<Json> = Vec::new();
            assert(views_of(out@) =~= Seq::<JsonV>::empty());
            out
        },
    }
}

impl EmailSummary {
    /// The summary of a message resource fetched with its `From` and `Subject` headers:
    /// missing ids and snippet become empty, missing headers `(inconnu)`.
    pub fn from_detail(detail: &Json) -> (r: EmailSummary)
        ensures
            r.id@ == str_or(at(detail@, "id"@), Seq::empty()),
            r.thread_id@ == str_or(at(detail@, "threadId"@), Seq::empty()),
            r.from@ == header_value(headers_of(detail@), "From"@, false, unknown()),
            r.subject@ == header_value(headers_of(detail@), "Subject"@, false, unknown()),
            r.snippet@ == str_or(at(detail@, "snippet"@), Seq::empty()),
    {
        proof {
            reveal_strlit("");
        }
        let headers = headers_exec(detail);
        EmailSummary {
            id: str_at_or(detail, "id", ""),
            thread_id: str_at_or(detail, "threadId", ""),
            from: header_lookup(&headers, "From", false, "(inconnu)"),
            subject: header_lookup(&headers, "Subject", false, "(inconnu)"),
            snippet: str_at_or(detail, "snippet", ""),
        }
    }
}

impl EmailDetail {
    /// The detail of a message resource fetched in full: headers matched ignoring case
    /// (`(inconnu)` when missing) and the plain-text body of its payload.
    pub fn from_full(detail: &Json) -> (r: EmailDetail)
        ensures
            r.id@ == str_or(at(detail@, "id"@), Seq::empty()),
            r.thread_id@ == str_or(at(detail@, "threadId"@), Seq::empty()),
            r.from@ == header_value(headers_of(detail@), "From"@, true, unknown()),
            r.subject@ == header_value(headers_of(detail@), "Subject"@, true, unknown()),
            exists|p: MimePart| mime_matches(p, at(detail@, "payload"@)) && r.body@ == extracted(p),
    {
        proof {
            reveal_strlit("");
        }
        let headers = headers_exec(detail);
        let payload = match detail.get("payload") {
            Some(p) => mime_part_of(p),
            None => {
                let j = Json::Null;
                mime_part_of(&j)
            },
        };
        let body = extract_plain_text_body(&payload);
        EmailDetail {
            id: str_at_or(detail, "id", ""),
            thread_id: str_at_or(detail, "threadId", ""),
            from: header_lookup(&headers, "From", true, "(inconnu)"),
            subject: header_lookup(&headers, "Subject", true, "(inconnu)"),
            body,
        }
    }
}

/// The optional string view of `value.as_str()`.
pub open spec fn opt_str_view(o: Option<String>) -> Option<Seq<char>> {
    match o {
        Some(s) => Some(s@),
        None => None,
    }
}

/// The decoded text of a `body.data` string, if any.
pub open spec fn body_text_of(data: Option<Seq<char>>) -> Option<Seq<char>> {
    match data {
        Some(d) => decoded_text(d),
        None => None,
    }
}

/// A MIME part read from a payload value: its `mimeType` and `snippet` where they are strings,
/// the decoded text of `body.data` where it is a string, and its `parts` where it is an array,
/// each read the same way.
pub open spec fn mime_matches(p: MimePart, j: JsonV) -> bool
    decreases p, 0int,
{
    &&& opt_str_view(p.mime_type) == str_of(at(j, "mimeType"@))
    &&& opt_str_view(p.body_text) == body_text_of(str_of(at(at(j, "body"@), "data"@)))
    &&& opt_str_view(p.snippet) == str_of(at(j, "snippet"@))
    &&& match p.parts {
        Some(ps) => {
            proof {
                assert(decreases_to!(p => p.parts));
            }
            array_of(at(j, "parts"@)) matches Some(a) && a.len() == ps@.len()
            && forall|i: int| 0 <= i < a.len() ==> #[trigger] mime_matches_at(ps@, a, i)
        },
        None => array_of(at(j, "parts"@)) is None,
    }
}

/// Part `i` of `ps` is read from item `i` of `a`.
pub open spec fn mime_matches_at(ps: Seq<MimePart>, a: Seq<JsonV>, i: int) -> bool
    decreases ps, 1int,
{
    if 0 <= i < ps.len() && 0 <= i < a.len() {
        mime_matches(ps[i], a[i])
    } else {
        false
    }
}

fn opt_str_at(j: &Json, key: &str) -> (r: Option<String>)
    ensures
        opt_str_view(r) == str_of(at(j@, key@)),
{
    match j.get(key) {
        Some(v) => match v.as_str() {
            Some(s) => Some(owned(s.as_str())),
            None => None,
        },
        None => None,
    }
}

fn member_index(m: &Vec<(String, Json)>, key: &str) -> (r: Option<usize>)
    ensures
        match r {
            Some(k) => k < m@.len() && crate::json::member_from(members_of(m@), key@, 0) == Some(m@[k as int].1@),
            None => crate::json::member_from(members_of(m@), key@, 0) is None,
        },
{
    let mut i: usize = 0;
    while i < m.len()
        invariant
            i <= m@.len(),
            crate::json::member_from(members_of(m@), key@, 0) == crate::json::member_from(members_of(m@), key@, i as int),
        decreases m@.len() - i,
    {
        if str_eq(m[i].0.as_str(), key) {
            return Some(i);
        }
        i = i + 1;
    }
    None
}

/// Reads a message payload value as a MIME part.
pub fn mime_part_of(j: &Json) -> (r: MimePart)
    ensures
        mime_matches(r, j@),
    decreases j,
{
    let body_data = match j.get("body") {
        Some(b) => opt_str_at(b, "data"),
        None => None,
    };
    let body_text = match body_data {
        Some(d) => decode_text(d.as_str()),
        None => None,
    };
    let mut parts: Option<Vec<MimePart>> = None;
    match j {
        Json::Object(m) => {
            proof {
                crate::json::lemma_object_view(*m);
            }
            match member_index(m, "parts") {
                Some(k) => {
                    match &m[k].1 {
                        Json::Array(items) => {
                            proof {
                                crate::json::lemma_array_view(*items);
                            }
                            let mut out: Vec<MimePart> = Vec::new();
                            let mut i: usize = 0;
                            while i < items.len()
                                invariant
                                    *j == Json::Object(*m),
                                    k < m@.len(),
                                    m@[k as int].1 == Json::Array(*items),
                                    i <= items@.len(),
                                    out@.len() == i,
                                    forall|q: int| 0 <= q < i ==> mime_matches(#[trigger] out@[q], items@[q]@),
                                decreases items@.len() - i,
                            {
                                proof {
                                    assert(decreases_to!(*j => (*j)->Object_0));
                                    assert(decreases_to!(*m => m@));
                                    assert(decreases_to!(m@ => m@[k as int]));
                                    assert(decreases_to!(m@[k as int] => m@[k as int].1));
                                    assert(decreases_to!(m@[k as int].1 => (m@[k as int].1)->Array_0));
                                    assert(decreases_to!(*items => items@));
                                    assert(decreases_to!(items@ => items@[i as int]));
                                }
                                let p = mime_part_of(&items[i]);
                                out.push(p);
                                i = i + 1;
                            }
                            proof {
                                assert(at(j@, "parts"@) == Json::Array(*items)@);
                                assert forall|q: int| 0 <= q < items@.len() implies #[trigger] mime_matches_at(out@, views_of(items@), q) by {
                                    assert(views_of(items@)[q] == items@[q]@);
                                }
                            }
                            parts = Some(out);
                        },
                        _ => {},
                    }
                },
                None => {},
            }
        },
        _ => {},
    }
    MimePart { mime_type: opt_str_at(j, "mimeType"), body_text, parts, snippet: opt_str_at(j, "snippet") }
}

/// The Gmail search query of unread messages.
pub fn unread_query() -> (r: &'static str)
    ensures
        r@ == "is:unread"@,
{
    "is:unread"
}

/// The Gmail search query of important unread messages in the inbox.
pub fn important_unread_query() -> (r: &'static str)
    ensures
        r@ == "is:unread is:important in:inbox"@,
{
    "is:unread is:important in:inbox"
}

/// The request body of a reply draft to the message `detail` (fetched with its `Message-ID`
/// header): the raw reply, base64url-encoded without padding, in the message's thread.
pub fn draft_request(detail: &Json, to: &str, subject: &str, body: &str) -> (r: Json)
    ensures
        r@ == draft_body_v(
            b64_url_nopad_encoded(encode_utf8(raw_reply(
                to@, subject@, header_value(headers_of(detail@), "Message-ID"@, false, Seq::empty()), body@,
            ))),
            str_or(at(detail@, "threadId"@), Seq::empty()),
        ),
{
    proof {
        reveal_strlit("");
        assert(""@ =~= Seq::<char>::empty());
    }
    let thread_id = str_at_or(detail, "threadId", "");
    let raw = reply_raw(detail, to, subject, body);
    let encoded = encode_url_safe_no_pad(raw.as_str());
    draft_body(encoded, thread_id)
}

/// The raw text of a reply to the message `detail` (fetched with its `Message-ID` header).
pub fn reply_raw(detail: &Json, to: &str, subject: &str, body: &str) -> (r: String)
    ensures
        r@ == raw_reply(to@, subject@, header_value(headers_of(detail@), "Message-ID"@, false, Seq::empty()), body@),
{
    proof {
        reveal_strlit("");
        assert(""@ =~= Seq::<char>::empty());
    }
    let headers = headers_exec(detail);
    let replied_id = header_lookup(&headers, "Message-ID", false, "");
    let mut raw = owned("To: ");
    push_str(&mut raw, to);
    push_str(&mut raw, "\r\nSubject: ");
    push_str(&mut raw, subject);
    push_str(&mut raw, "\r\nIn-Reply-To: ");
    push_str(&mut raw, replied_id.as_str());
    push_str(&mut raw, "\r\nReferences: ");
    push_str(&mut raw, replied_id.as_str());
    push_str(&mut raw, "\r\nContent-Type: text/plain; charset=utf-8\r\n\r\n");
    push_str(&mut raw, body);
    assert(raw@ =~= raw_reply(to@, subject@, replied_id@, body@));
    raw
}

/// The request body of a draft whose raw text is already encoded, in a thread.
pub fn draft_body(encoded: String, thread_id: String) -> (r: Json)
    ensures
        r@ == draft_body_v(encoded@, thread_id@),
{
    let ghost e = encoded@;
    let ghost t = thread_id@;
    let mut inner: Vec<(String, Json)> = Vec::new();
    inner.push((owned("raw"), Json::Str(encoded)));
    inner.push((owned("threadId"), Json::Str(thread_id)));
    let inner_json = Json::object(inner);
    let mut outer: Vec<(String, Json)> = Vec::new();
    outer.push((owned("message"), inner_json));
    let r = Json::object(outer);
    proof {
        assert(members_of(inner@) =~= seq![("raw"@, JsonV::Str(e)), ("threadId"@, JsonV::Str(t))]);
        assert(members_of(outer@) =~= seq![("message"@, inner_json@)]);
    }
    r
}

/// What a draft request's answer is reported as.
pub fn draft_outcome(success: bool, err_body: &str) -> (r: Result<String, String>)
    ensures
        success ==> r is Ok && r->Ok_0@ == "Brouillon créé avec succès."@,
        !success ==> r is Err && r->Err_0@ == "Échec création brouillon : "@ + err_body@,
{
    if success {
        Ok(owned("Brouillon créé avec succès."))
    } else {
        Err(cat("Échec création brouillon : ", err_body))
    }
}

fn str_array(items: &Vec<String>) -> (r: Json)
    ensures
        r@ == str_array_v(views(items@)),
{
    let mut out: Vec<Json> = Vec::new();
    let mut i: usize = 0;
    while i < items.len()
        invariant
            i <= items@.len(),
            out@.len() == i,
            forall|j: int| 0 <= j < i ==> (#[trigger] out@[j])@ == JsonV::Str(items@[j]@),
        decreases items@.len() - i,
    {
        out.push(Json::text(items[i].as_str()));
        i = i + 1;
    }
    let r = Json::array(out);
    assert(views_of(out@) =~= Seq::new(items@.len(), |k: int| JsonV::Str(views(items@)[k])));
    r
}

/// The request body of a label change: `{"addLabelIds": add, "removeLabelIds": remove}`.
pub fn labels_request(add: &Vec<String>, remove: &Vec<String>) -> (r: Json)
    ensures
        r@ == JsonV::Object(seq![
            ("addLabelIds"@, str_array_v(views(add@))),
            ("removeLabelIds"@, str_array_v(views(remove@))),
        ]),
{
    let a = str_array(add);
    let b = str_array(remove);
    let mut m: Vec<(String, Json)> = Vec::new();
    m.push((owned("addLabelIds"), a));
    m.push((owned("removeLabelIds"), b));
    let r = Json::object(m);
    assert(members_of(m@) =~= seq![
        ("addLabelIds"@, str_array_v(views(add@))),
        ("removeLabelIds"@, str_array_v(views(remove@))),
    ]);
    r
}

/// What a label change's answer is reported as.
pub fn labels_outcome(success: bool, status: &str, err_body: &str) -> (r: Result<String, String>)
    ensures
        success ==> r is Ok && r->Ok_0@ == "Modification appliquée."@,
        !success ==> r is Err && r->Err_0@ == failure_text("Échec modification"@, status@, err_body@),
{
    if success {
        Ok(owned("Modification appliquée."))
    } else {
        Err(failure("Échec modification", status, err_body))
    }
}

/// What a move to the trash's answer is reported as.
pub fn trash_outcome(success: bool, status: &str, err_body: &str) -> (r: Result<String, String>)
    ensures
        success ==> r is Ok && r->Ok_0@ == "Email déplacé vers la corbeille."@,
        !success ==> r is Err && r->Err_0@ == failure_text("Échec suppression"@, status@, err_body@),
{
    if success {
        Ok(owned("Email déplacé vers la corbeille."))
    } else {
        Err(failure("Échec suppression", status, err_body))
    }
}

/// The label change of each `manage_email` action.
pub open spec fn action_labels(action: Seq<char>) -> Option<(Seq<Seq<char>>, Seq<Seq<char>>)> {
    if action == "mark_read"@ {
        Some((Seq::empty(), seq!["UNREAD"@]))
    } else if action == "mark_unread"@ {
        Some((seq!["UNREAD"@], Seq::empty()))
    } else if action == "star"@ {
        Some((seq!["STARRED"@], Seq::empty()))
    } else if action == "unstar"@ {
        Some((Seq::empty(), seq!["STARRED"@]))
    } else if action == "archive"@ {
        Some((Seq::empty(), seq!["INBOX"@]))
    } else {
        None
    }
}

/// Opposite actions undo each other: `unstar` removes what `star` adds and adds what it removes,
/// and `mark_read` likewise for `mark_unread`. `star` adds the `STARRED` label alone,
/// `mark_unread` the `UNREAD` label alone, and `archive` only takes the message out of `INBOX`.
pub proof fn lemma_opposite_actions()
    ensures
        action_labels("star"@) == Some((seq!["STARRED"@], Seq::<Seq<char>>::empty())),
        action_labels("mark_unread"@) == Some((seq!["UNREAD"@], Seq::<Seq<char>>::empty())),
        action_labels("archive"@) == Some((Seq::<Seq<char>>::empty(), seq!["INBOX"@])),
        action_labels("unstar"@) matches Some((add, remove))
            && add == action_labels("star"@).unwrap().1 && remove == action_labels("star"@).unwrap().0,
        action_labels("mark_read"@) matches Some((add, remove))
            && add == action_labels("mark_unread"@).unwrap().1 && remove == action_labels("mark_unread"@).unwrap().0,
{
    reveal_strlit("mark_read");
    reveal_strlit("mark_unread");
    reveal_strlit("star");
    reveal_strlit("unstar");
    reveal_strlit("archive");
    assert("mark_unread"@ != "mark_read"@) by {
        assert("mark_unread"@.len() != "mark_read"@.len());
    }
    assert("star"@ != "mark_read"@ && "star"@ != "mark_unread"@) by {
        assert("star"@.len() != "mark_read"@.len());
        assert("star"@.len() != "mark_unread"@.len());
    }
    assert("unstar"@ != "mark_read"@ && "unstar"@ != "mark_unread"@ && "unstar"@ != "star"@) by {
        assert("unstar"@.len() != "mark_read"@.len());
        assert("unstar"@.len() != "mark_unread"@.len());
        assert("unstar"@.len() != "star"@.len());
    }
    assert("archive"@ != "mark_read"@ && "archive"@ != "mark_unread"@ && "archive"@ != "star"@
        && "archive"@ != "unstar"@) by {
        assert("archive"@.len() != "mark_read"@.len());
        assert("archive"@.len() != "mark_unread"@.len());
        assert("archive"@.len() != "star"@.len());
        assert("archive"@[0] != "unstar"@[0]);
    }
}

fn labels(names: Vec<&str>) -> (r: Vec<String>)
    ensures
        views(r@) == Seq::new(names@.len(), |i: int| names@[i]@),
{
    let mut out: Vec<String> = Vec::new();
    let mut i: usize = 0;
    while i < names.len()
        invariant
            i <= names@.len(),
            out@.len() == i,
            forall|j: int| 0 <= j < i ==> (#[trigger] out@[j])@ == names@[j]@,
        decreases names@.len() - i,
    {
        out.push(owned(names[i]));
        i = i + 1;
    }
    assert(views(out@) =~= Seq::new(names@.len(), |k: int| names@[k]@));
    out
}

impl EmailAction {
    /// The change that a `manage_email` action asks for: `mark_read`, `mark_unread`, `star`,
    /// `unstar`, `archive` change labels, `delete` moves to the trash; any other action is
    /// refused with `Action inconnue : <action>`.
    pub fn from_action(action: &str) -> (r: Result<EmailAction, String>)
        ensures
            match r {
                Ok(EmailAction::Labels { add, remove }) => action_labels(action@) == Some((views(add@), views(remove@))),
                Ok(EmailAction::Trash) => action@ == "delete"@ && action_labels(action@) is None,
                Err(e) => action_labels(action@) is None && action@ != "delete"@ && e@ == "Action inconnue : "@ + action@,
            },
    {
        let none: Vec<&str> = Vec::new();
        if str_eq(action, "mark_read") {
            let add = labels(none);
            let remove = labels(vec!["UNREAD"]);
            assert(views(add@) =~= Seq::<Seq<char>>::empty());
            assert(views(remove@) =~= seq!["UNREAD"@]);
            Ok(EmailAction::Labels { add, remove })
        } else if str_eq(action, "mark_unread") {
            let add = labels(vec!["UNREAD"]);
            let remove = labels(none);
            assert(views(remove@) =~= Seq::<Seq<char>>::empty());
            assert(views(add@) =~= seq!["UNREAD"@]);
            Ok(EmailAction::Labels { add, remove })
        } else if str_eq(action, "star") {
            let add = labels(vec!["STARRED"]);
            let remove = labels(none);
            assert(views(remove@) =~= Seq::<Seq<char>>::empty());
            assert(views(add@) =~= seq!["STARRED"@]);
            Ok(EmailAction::Labels { add, remove })
        } else if str_eq(action, "unstar") {
            let add = labels(none);
            let remove = labels(vec!["STARRED"]);
            assert(views(add@) =~= Seq::<Seq<char>>::empty());
            assert(views(remove@) =~= seq!["STARRED"@]);
            Ok(EmailAction::Labels { add, remove })
        } else if str_eq(action, "archive") {
            let add = labels(none);
            let remove = labels(vec!["INBOX"]);
            assert(views(add@) =~= Seq::<Seq<char>>::empty());
            assert(views(remove@) =~= seq!["INBOX"@]);
            Ok(EmailAction::Labels { add, remove })
        } else if str_eq(action, "delete") {
            Ok(EmailAction::Trash)
        } else {
            Err(cat("Action inconnue : ", action))
        }
    }
}

/// The digest of a list of messages: `[id] De: from — Sujet: subject — snippet` per line, or
/// `empty_text` when the list is empty.
pub fn email_list(emails: &Vec<EmailSummary>, empty_text: &str) -> (r: String)
    ensures
        r@ == email_list_text(emails@, empty_text@),
{
    if emails.len() == 0 {
        return owned(empty_text);
    }
    let mut lines: Vec<String> = Vec::new();
    let mut i: usize = 0;
    while i < emails.len()
        invariant
            i <= emails@.len(),
            lines@.len() == i,
            forall|j: int| 0 <= j < i ==> (#[trigger] lines@[j])@ == email_lines(emails@)[j],
        decreases emails@.len() - i,
    {
        let e = &emails[i];
        let mut l = owned("[");
        push_str(&mut l, e.id.as_str());
        push_str(&mut l, "] De: ");
        push_str(&mut l, e.from.as_str());
        push_str(&mut l, " — Sujet: ");
        push_str(&mut l, e.subject.as_str());
        push_str(&mut l, " — ");
        push_str(&mut l, e.snippet.as_str());
        lines.push(l);
        i = i + 1;
    }
    assert(views(lines@) =~= email_lines(emails@));
    join(&lines, "\n")
}

} // verus!
