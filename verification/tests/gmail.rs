use alfred::gmail::{
    draft_body, draft_outcome, draft_request, email_list, labels_outcome, labels_request, message_ids, reply_raw,
    trash_outcome,
    EmailAction, EmailDetail, EmailSummary,
};
use alfred::json::{json_text, Json};

fn s(x: &str) -> Json {
    Json::Str(x.to_string())
}

fn obj(m: Vec<(&str, Json)>) -> Json {
    Json::Object(m.into_iter().map(|(k, v)| (k.to_string(), v)).collect())
}

fn header(n: &str, v: &str) -> Json {
    obj(vec![("name", s(n)), ("value", s(v))])
}

#[test]
fn ids_skip_entries_without_id() {
    let body = obj(vec![("messages", Json::Array(vec![obj(vec![("id", s("a"))]), obj(vec![]), obj(vec![("id", s("b"))])]))]);
    assert_eq!(message_ids(&body), vec!["a".to_string(), "b".to_string()]);
    assert!(message_ids(&obj(vec![])).is_empty());
}

#[test]
fn summary_from_metadata() {
    let d = obj(vec![
        ("id", s("m1")),
        ("threadId", s("t1")),
        ("snippet", s("Salut")),
        ("payload", obj(vec![("headers", Json::Array(vec![header("Subject", "Re: x"), header("From", "a@b.c")]))])),
    ]);
    let e = EmailSummary::from_detail(&d);
    assert_eq!((e.id.as_str(), e.thread_id.as_str(), e.from.as_str(), e.subject.as_str(), e.snippet.as_str()), ("m1", "t1", "a@b.c", "Re: x", "Salut"));
    let bare = EmailSummary::from_detail(&obj(vec![]));
    assert_eq!((bare.id.as_str(), bare.from.as_str(), bare.subject.as_str()), ("", "(inconnu)", "(inconnu)"));
    let lower = obj(vec![("payload", obj(vec![("headers", Json::Array(vec![header("from", "x@y")]))]))]);
    assert_eq!(EmailSummary::from_detail(&lower).from, "(inconnu)");
}

#[test]
fn detail_matches_headers_in_any_case() {
    let d = obj(vec![
        ("id", s("m2")),
        ("payload", obj(vec![
            ("headers", Json::Array(vec![header("FROM", "Bob <b@x.y>"), header("subject", "Hello")])),
            ("body", obj(vec![("data", s("Qm9uam91cg"))])),
        ])),
    ]);
    let e = EmailDetail::from_full(&d);
    assert_eq!((e.from.as_str(), e.subject.as_str(), e.body.as_str()), ("Bob <b@x.y>", "Hello", "Bonjour"));
    let empty = EmailDetail::from_full(&obj(vec![]));
    assert_eq!(empty.body, "(Contenu illisible)");
}

#[test]
fn draft_request_encodes_the_reply() {
    let d = obj(vec![
        ("threadId", s("t9")),
        ("payload", obj(vec![("headers", Json::Array(vec![header("Message-ID", "<id@x>")]))])),
    ]);
    let r = draft_request(&d, "a@b.c", "Re: x", "ok");
    assert_eq!(
        json_text(&r),
        "{\"message\":{\"raw\":\"VG86IGFAYi5jDQpTdWJqZWN0OiBSZTogeA0KSW4tUmVwbHktVG86IDxpZEB4Pg0KUmVmZXJlbmNlczogPGlkQHg-DQpDb250ZW50LVR5cGU6IHRleHQvcGxhaW47IGNoYXJzZXQ9dXRmLTgNCg0Kb2s\",\"threadId\":\"t9\"}}"
    );
}

#[test]
fn outcomes() {
    assert_eq!(draft_outcome(true, ""), Ok("Brouillon créé avec succès.".to_string()));
    assert_eq!(draft_outcome(false, "bad"), Err("Échec création brouillon : bad".to_string()));
    assert_eq!(labels_outcome(false, "404 Not Found", "x"), Err("Échec modification (404 Not Found): x".to_string()));
    assert_eq!(trash_outcome(true, "", ""), Ok("Email déplacé vers la corbeille.".to_string()));
    assert_eq!(
        json_text(&labels_request(&vec![], &vec!["UNREAD".to_string()])),
        "{\"addLabelIds\":[],\"removeLabelIds\":[\"UNREAD\"]}"
    );
}

#[test]
fn actions() {
    match EmailAction::from_action("archive") {
        Ok(EmailAction::Labels { add, remove }) => {
            assert!(add.is_empty());
            assert_eq!(remove, vec!["INBOX".to_string()]);
        }
        _ => panic!("archive"),
    }
    match EmailAction::from_action("mark_unread") {
        Ok(EmailAction::Labels { add, remove }) => {
            assert_eq!(add, vec!["UNREAD".to_string()]);
            assert!(remove.is_empty());
        }
        _ => panic!("mark_unread"),
    }
    assert!(matches!(EmailAction::from_action("delete"), Ok(EmailAction::Trash)));
    assert!(matches!(EmailAction::from_action("send"), Err(ref e) if e == "Action inconnue : send"));
}

#[test]
fn email_digest() {
    let e = EmailSummary { id: "1".into(), thread_id: "t".into(), from: "A".into(), subject: "S".into(), snippet: "x".into() };
    let f = EmailSummary { id: "2".into(), thread_id: "t".into(), from: "B".into(), subject: "T".into(), snippet: "y".into() };
    assert_eq!(email_list(&vec![e, f], "Aucun email non lu."), "[1] De: A — Sujet: S — x\n[2] De: B — Sujet: T — y");
    assert_eq!(email_list(&vec![], "Aucun résultat."), "Aucun résultat.");
}

#[test]
fn reply_text_and_draft_body() {
    let d = obj(vec![
        ("threadId", s("t7")),
        ("payload", obj(vec![("headers", Json::Array(vec![header("Message-ID", "<m@x>")]))])),
    ]);
    assert_eq!(
        reply_raw(&d, "a@b.c", "Re: x", "ok"),
        "To: a@b.c\r\nSubject: Re: x\r\nIn-Reply-To: <m@x>\r\nReferences: <m@x>\r\nContent-Type: text/plain; charset=utf-8\r\n\r\nok"
    );
    assert_eq!(
        reply_raw(&obj(vec![]), "a", "s", "b"),
        "To: a\r\nSubject: s\r\nIn-Reply-To: \r\nReferences: \r\nContent-Type: text/plain; charset=utf-8\r\n\r\nb"
    );
    assert_eq!(
        json_text(&draft_body("RAW".to_string(), "t7".to_string())),
        "{\"message\":{\"raw\":\"RAW\",\"threadId\":\"t7\"}}"
    );
}
