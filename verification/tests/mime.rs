use alfred::gmail::mime_part_of;
use alfred::json::Json;
use alfred::mime::{decode_text, extract_plain_text_body, html_text, strip_tags, MimePart};

fn s(x: &str) -> Json {
    Json::Str(x.to_string())
}

fn obj(m: Vec<(&str, Json)>) -> Json {
    Json::Object(m.into_iter().map(|(k, v)| (k.to_string(), v)).collect())
}

/// A payload value: its MIME type, its base64url body data, its parts and its snippet.
fn payload(mime: Option<&str>, data: Option<&str>, parts: Option<Vec<Json>>, snippet: Option<&str>) -> Json {
    let mut m = Vec::new();
    if let Some(t) = mime {
        m.push(("mimeType", s(t)));
    }
    if let Some(d) = data {
        m.push(("body", obj(vec![("data", s(d))])));
    }
    if let Some(p) = parts {
        m.push(("parts", Json::Array(p)));
    }
    if let Some(x) = snippet {
        m.push(("snippet", s(x)));
    }
    obj(m)
}

fn body_of(p: &Json) -> String {
    extract_plain_text_body(&mime_part_of(p))
}

fn part(mime: Option<&str>, text: Option<&str>, parts: Option<Vec<MimePart>>, snippet: Option<&str>) -> MimePart {
    MimePart {
        mime_type: mime.map(String::from),
        body_text: text.map(String::from),
        parts,
        snippet: snippet.map(String::from),
    }
}

#[test]
fn root_body_is_decoded() {
    // "Bonjour" in base64url without padding
    assert_eq!(body_of(&payload(Some("text/plain"), Some("Qm9uam91cg"), None, None)), "Bonjour");
    assert_eq!(decode_text("Qm9uam91cg"), Some("Bonjour".to_string()));
}

#[test]
fn padded_base64_is_accepted() {
    // "Hi" with padding
    assert_eq!(body_of(&payload(None, Some("SGk="), None, None)), "Hi");
    assert_eq!(decode_text("!!!"), None);
}

#[test]
fn plain_part_wins_over_html() {
    let html = payload(Some("text/html"), Some("PGI-SFRNTDwvYj4"), None, None); // "<b>HTML</b>"
    let plain = payload(Some("text/plain"), Some("UGxhaW4"), None, None); // "Plain"
    let root = payload(Some("multipart/alternative"), None, Some(vec![html, plain]), None);
    assert_eq!(body_of(&root), "Plain");
}

#[test]
fn html_is_used_without_plain_text() {
    let html = payload(Some("text/html"), Some("PGI-SFRNTDwvYj4"), None, None); // "<b>HTML</b>"
    let root = payload(None, None, Some(vec![html]), None);
    assert_eq!(body_of(&root), "HTML");
}

#[test]
fn nested_parts_are_searched() {
    let inner = payload(Some("text/plain"), Some("SW5uZXI"), None, None); // "Inner"
    let mid = payload(Some("multipart/alternative"), None, Some(vec![inner]), None);
    let root = payload(Some("multipart/mixed"), None, Some(vec![mid]), None);
    assert_eq!(body_of(&root), "Inner");
}

#[test]
fn snippet_then_unreadable() {
    assert_eq!(body_of(&payload(None, Some("!!!"), None, Some("a snippet"))), "a snippet");
    assert_eq!(body_of(&payload(None, None, Some(vec![]), Some("   "))), "(Contenu illisible)");
}

#[test]
fn blank_body_is_skipped() {
    assert_eq!(body_of(&payload(None, Some("ICAg"), None, Some("fallback"))), "fallback"); // "   "
}

#[test]
fn extraction_order_on_decoded_parts() {
    let nested_unreadable = part(Some("multipart/mixed"), None, Some(vec![]), None);
    let html = part(Some("text/html"), Some("<p>Salut</p>"), None, None);
    let blank_plain = part(Some("text/plain"), Some(" \n"), None, None);
    let root = part(None, Some("  "), Some(vec![nested_unreadable, blank_plain, html]), Some("snip"));
    assert_eq!(extract_plain_text_body(&root), "Salut\n");
    let plain_later = part(Some("text/plain"), Some("Texte"), None, None);
    let html2 = part(Some("text/html"), Some("<i>x</i>"), None, None);
    let root2 = part(None, None, Some(vec![html2, plain_later]), None);
    assert_eq!(extract_plain_text_body(&root2), "Texte");
    let nested = part(None, None, Some(vec![part(Some("text/html"), Some("<b>deep</b>"), None, None)]), None);
    let root3 = part(None, None, Some(vec![nested, part(Some("text/plain"), Some("later"), None, None)]), None);
    assert_eq!(extract_plain_text_body(&root3), "deep");
}

#[test]
fn html_cleanup() {
    assert_eq!(html_text("<p>a<br>b<br/>c</p>"), "a\nb\nc\n");
    assert_eq!(strip_tags("x<y>z>w"), "xzw");
}
