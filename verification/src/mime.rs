//! Plain text of an e-mail: a walk through its MIME tree.
use crate::text::{blank, is_blank, is_ws, owned, push_char, replace, replaced, str_eq};
use crate::trusted::{
    b64_url_nopad_decoded, b64_url_padded_decoded, decode_url_safe, decode_url_safe_no_pad,
    from_utf8_lossy, utf8_lossy,
};
use vstd::prelude::*;

verus! {

/// The fields of a MIME part of a message payload that the text extraction reads.
pub struct MimePart {
    /// `mimeType`, where it is a string.
    pub mime_type: Option<String>,
    /// The text of `body.data`: where it is a string, its base64url decoding read as lossy
    /// UTF-8 (`None` where it does not decode).
    pub body_text: Option<String>,
    /// `parts`, where it is an array.
    pub parts: Option<Vec<MimePart>>,
    /// `snippet`, where it is a string.
    pub snippet: Option<String>,
}

/// The text given when nothing readable is found.
pub open spec fn unreadable() -> Seq<char> {
    "(Contenu illisible)"@
}

/// The MIME type of a part, empty when absent.
pub open spec fn mime_of(p: MimePart) -> Seq<char> {
    match p.mime_type {
        Some(t) => t@,
        None => Seq::empty(),
    }
}

/// Bytes of base64url text: without padding first, else with padding.
pub open spec fn decoded_bytes(data: Seq<char>) -> Option<Seq<u8>> {
    match b64_url_nopad_decoded(data) {
        Some(b) => Some(b),
        None => b64_url_padded_decoded(data),
    }
}

/// Text of base64url data, read as lossy UTF-8.
pub open spec fn decoded_text(data: Seq<char>) -> Option<Seq<char>> {
    match decoded_bytes(data) {
        Some(b) => Some(utf8_lossy(b)),
        None => None,
    }
}

/// The decoded body data of a part.
pub open spec fn data_text(p: MimePart) -> Option<Seq<char>> {
    opt_view(p.body_text)
}

/// The decoded body data of a part, where it is not blank.
pub open spec fn readable_text(p: MimePart) -> Option<Seq<char>> {
    match data_text(p) {
        Some(t) => if blank(t) { None } else { Some(t) },
        None => None,
    }
}

/// The characters outside `<...>` tags, as the left-to-right scan with an "inside" flag keeps them.
pub open spec fn strip_scan(s: Seq<char>) -> (Seq<char>, bool)
    decreases s.len(),
{
    if s.len() == 0 {
        (Seq::empty(), false)
    } else {
        let (acc, inside) = strip_scan(s.drop_last());
        let c = s.last();
        if c == '<' {
            (acc, true)
        } else if c == '>' {
            (acc, false)
        } else if !inside {
            (acc.push(c), false)
        } else {
            (acc, true)
        }
    }
}

/// HTML turned into text: line breaks for `<br>`, `<br/>` and `</p>`, then tags removed.
pub open spec fn html_to_text(h: Seq<char>) -> Seq<char> {
    strip_scan(replaced(replaced(replaced(h, "<br>"@, "\n"@), "<br/>"@, "\n"@), "</p>"@, "\n"@)).0
}

/// The text that the extraction finds for a part.
pub open spec fn extracted(p: MimePart) -> Seq<char>
    decreases p, 0int,
{
    match readable_text(p) {
        Some(t) => t,
        None => {
            let from_parts = match p.parts {
                Some(ps) => {
                    proof {
                        assert(decreases_to!(p => p.parts));
                    }
                    match plain_among(ps@, 0) {
                        Some(t) => Some(t),
                        None => html_among(ps@, 0),
                    }
                },
                None => None,
            };
            match from_parts {
                Some(t) => t,
                None => match p.snippet {
                    Some(s) => if blank(s@) { unreadable() } else { s@ },
                    None => unreadable(),
                },
            }
        },
    }
}

/// First pass over sub-parts from index `i`: a readable `text/plain` part, or a usable
/// result of a part that has sub-parts of its own.
pub open spec fn plain_among(ps: Seq<MimePart>, i: int) -> Option<Seq<char>>
    decreases ps, ps.len() - i,
{
    if i < 0 || i >= ps.len() {
        None
    } else if mime_of(ps[i]) == "text/plain"@ && readable_text(ps[i]) is Some {
        readable_text(ps[i])
    } else if ps[i].parts is Some && extracted(ps[i]).len() > 0 && extracted(ps[i]) != unreadable() {
        Some(extracted(ps[i]))
    } else {
        plain_among(ps, i + 1)
    }
}

/// Second pass over sub-parts from index `i`: a `text/html` part whose text is not blank.
pub open spec fn html_among(ps: Seq<MimePart>, i: int) -> Option<Seq<char>>
    decreases ps.len() - i,
{
    if i < 0 || i >= ps.len() {
        None
    } else if mime_of(ps[i]) == "text/html"@ && data_text(ps[i]) is Some
        && !blank(html_to_text(data_text(ps[i])->0)) {
        Some(html_to_text(data_text(ps[i])->0))
    } else {
        html_among(ps, i + 1)
    }
}

/// The optional view of an optional string.
pub open spec fn opt_view(o: Option<String>) -> Option<Seq<char>> {
    match o {
        Some(s) => Some(s@),
        None => None,
    }
}

/// Base64url data decoded (without padding, else with padding) and read as lossy UTF-8.
pub fn decode_text(data: &str) -> (r: Option<String>)
    ensures
        opt_view(r) == decoded_text(data@),
{
    let bytes = match decode_url_safe_no_pad(data) {
        Some(b) => Some(b),
        None => decode_url_safe(data),
    };
    match bytes {
        Some(b) => Some(from_utf8_lossy(&b)),
        None => None,
    }
}

fn part_mime_is(p: &MimePart, m: &str) -> (r: bool)
    ensures
        r == (mime_of(*p) == m@),
{
    match &p.mime_type {
        Some(t) => str_eq(t.as_str(), m),
        None => {
            let e = m.unicode_len() == 0;
            proof {
                if e {
                    assert(m@ =~= Seq::<char>::empty());
                }
            }
            e
        },
    }
}

fn part_data_text(p: &MimePart) -> (r: Option<String>)
    ensures
        opt_view(r) == data_text(*p),
{
    match &p.body_text {
        Some(t) => Some(owned(t.as_str())),
        None => None,
    }
}

fn part_readable_text(p: &MimePart) -> (r: Option<String>)
    ensures
        opt_view(r) == readable_text(*p),
{
    match part_data_text(p) {
        Some(t) => if is_blank(t.as_str()) { None } else { Some(t) },
        None => None,
    }
}

/// Removes `<...>` tags, keeping the characters outside them.
pub fn strip_tags(s: &str) -> (r: String)
    ensures
        r@ == strip_scan(s@).0,
{
    let mut acc = String::new();
    let mut inside = false;
    for c in it: s.chars()
        invariant
            it.seq() == s@,
            (acc@, inside) == strip_scan(s@.take(it.index() as int)),
    {
        assert(s@.take(it.index() + 1).drop_last() =~= s@.take(it.index() as int));
        if c == '<' {
            inside = true;
        } else if c == '>' {
            inside = false;
        } else if !inside {
            push_char(&mut acc, c);
        }
    }
    assert(s@.take(s@.len() as int) =~= s@);
    acc
}

/// HTML turned into text: line breaks for `<br>`, `<br/>` and `</p>`, then tags removed.
pub fn html_text(h: &str) -> (r: String)
    ensures
        r@ == html_to_text(h@),
{
    proof {
        reveal_strlit("<br>");
        reveal_strlit("<br/>");
        reveal_strlit("</p>");
    }
    let a = replace(h, "<br>", "\n");
    let b = replace(a.as_str(), "<br/>", "\n");
    let c = replace(b.as_str(), "</p>", "\n");
    strip_tags(c.as_str())
}

fn html_among_exec(ps: &Vec<MimePart>) -> (r: Option<String>)
    ensures
        opt_view(r) == html_among(ps@, 0),
{
    let mut i: usize = 0;
    while i < ps.len()
        invariant
            i <= ps@.len(),
            html_among(ps@, 0) == html_among(ps@, i as int),
        decreases ps@.len() - i,
    {
        let part = &ps[i];
        if part_mime_is(part, "text/html") {
            match part_data_text(part) {
                Some(h) => {
                    let plain = html_text(h.as_str());
                    if !is_blank(plain.as_str()) {
                        return Some(plain);
                    }
                },
                None => {},
            }
        }
        i = i + 1;
    }
    None
}

/// The plain text of a message payload: the root body if readable, else the first usable
/// `text/plain` part (searching nested parts), else the first non-blank `text/html` part with
/// its tags removed, else the snippet, else `(Contenu illisible)`.
pub fn extract_plain_text_body(payload: &MimePart) -> (r: String)
    ensures
        r@ == extracted(*payload),
    decreases payload,
{
    match part_readable_text(payload) {
        Some(t) => { return t; },
        None => {},
    }
    match &payload.parts {
        Some(ps) => {
            let mut i: usize = 0;
            while i < ps.len()
                invariant
                    payload.parts == Some(*ps),
                    readable_text(*payload) is None,
                    i <= ps@.len(),
                    plain_among(ps@, 0) == plain_among(ps@, i as int),
                decreases ps@.len() - i,
            {
                let part = &ps[i];
                if part_mime_is(part, "text/plain") {
                    match part_readable_text(part) {
                        Some(t) => {
                            assert(plain_among(ps@, i as int) == Some(t@));
                            return t;
                        },
                        None => {},
                    }
                }
                if part.parts.is_some() {
                    proof {
                        assert(decreases_to!(*payload => payload.parts));
                        assert(decreases_to!(payload.parts => payload.parts->0));
                        assert(decreases_to!(*ps => ps@));
                        assert(decreases_to!(ps@ => ps@[i as int]));
                        assert(decreases_to!(*payload => ps@[i as int]));
                    }
                    let nested = extract_plain_text_body(part);
                    if nested.unicode_len() > 0 && !str_eq(nested.as_str(), "(Contenu illisible)") {
                        assert(plain_among(ps@, i as int) == Some(nested@));
                        return nested;
                    }
                }
                i = i + 1;
            }
            match html_among_exec(ps) {
                Some(t) => { return t; },
                None => {},
            }
        },
        None => {},
    }
    match &payload.snippet {
        Some(s) => {
            if !is_blank(s.as_str()) {
                return owned(s.as_str());
            }
        },
        None => {},
    }
    owned("(Contenu illisible)")
}

/// Tag removal leaves no `<` and no `>`.
pub proof fn lemma_no_tags_left(s: Seq<char>)
    ensures
        forall|i: int| 0 <= i < strip_scan(s).0.len() ==> (#[trigger] strip_scan(s).0[i]) != '<'
            && strip_scan(s).0[i] != '>',
    decreases s.len(),
{
    if s.len() > 0 {
        lemma_no_tags_left(s.drop_last());
        let (acc, inside) = strip_scan(s.drop_last());
        let r = strip_scan(s).0;
        assert forall|i: int| 0 <= i < r.len() implies (#[trigger] r[i]) != '<' && r[i] != '>' by {
            if i < acc.len() {
                assert(r[i] == acc[i]);
            }
        }
    }
}

proof fn lemma_plain_among_not_blank(ps: Seq<MimePart>, i: int)
    ensures
        plain_among(ps, i) matches Some(t) ==> !blank(t),
    decreases ps, ps.len() - i,
{
    if 0 <= i < ps.len() {
        if mime_of(ps[i]) == "text/plain"@ && readable_text(ps[i]) is Some {
        } else if ps[i].parts is Some && extracted(ps[i]).len() > 0 && extracted(ps[i]) != unreadable() {
            lemma_extracted_not_blank(ps[i]);
        } else {
            lemma_plain_among_not_blank(ps, i + 1);
        }
    }
}

proof fn lemma_html_among_not_blank(ps: Seq<MimePart>, i: int)
    ensures
        html_among(ps, i) matches Some(t) ==> !blank(t),
    decreases ps.len() - i,
{
    if 0 <= i < ps.len() {
        lemma_html_among_not_blank(ps, i + 1);
    }
}

proof fn lemma_extracted_not_blank(p: MimePart)
    ensures
        !blank(extracted(p)),
    decreases p, 0int,
{
    reveal_strlit("(Contenu illisible)");
    assert(!is_ws(unreadable()[0]));
    match readable_text(p) {
        Some(t) => {},
        None => match p.parts {
            Some(ps) => {
                assert(decreases_to!(p => p.parts));
                lemma_plain_among_not_blank(ps@, 0);
                lemma_html_among_not_blank(ps@, 0);
            },
            None => {},
        },
    }
}

/// The extracted text of a message is never blank, so never empty: when nothing readable is
/// found it is `(Contenu illisible)`.
pub proof fn lemma_extracted_nonempty(p: MimePart)
    ensures
        !blank(extracted(p)),
        extracted(p).len() > 0,
{
    lemma_extracted_not_blank(p);
    if extracted(p).len() == 0 {
        assert(blank(extracted(p)));
    }
}

} // verus!
