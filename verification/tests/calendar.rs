use alfred::calendar::{
    create_outcome, create_request, delete_outcome, events_listing, format_events, list_params, update_outcome,
    update_request, CalendarEvent, EventStyle,
};
use alfred::json::{json_text, Json};

fn s(x: &str) -> Json {
    Json::Str(x.to_string())
}

fn obj(m: Vec<(&str, Json)>) -> Json {
    Json::Object(m.into_iter().map(|(k, v)| (k.to_string(), v)).collect())
}

#[test]
fn events_are_read_with_defaults() {
    let body = obj(vec![("items", Json::Array(vec![
        obj(vec![("id", s("e1")), ("summary", s("Réunion")), ("start", obj(vec![("dateTime", s("2026-01-01T10:00:00Z"))])), ("end", obj(vec![("date", s("2026-01-02"))]))]),
        obj(vec![]),
    ]))]);
    let ev = CalendarEvent::list_from(&body);
    assert_eq!(ev.len(), 2);
    assert_eq!((ev[0].id.as_str(), ev[0].summary.as_str(), ev[0].start.as_str(), ev[0].end.as_str()), ("e1", "Réunion", "2026-01-01T10:00:00Z", "2026-01-02"));
    assert_eq!((ev[1].id.as_str(), ev[1].summary.as_str(), ev[1].start.as_str()), ("", "(sans titre)", ""));
    assert!(CalendarEvent::list_from(&obj(vec![])).is_empty());
}

#[test]
fn request_bodies() {
    assert_eq!(
        json_text(&create_request("Dîner", "a", "b", "")),
        "{\"summary\":\"Dîner\",\"description\":\"\",\"start\":{\"dateTime\":\"a\"},\"end\":{\"dateTime\":\"b\"}}"
    );
    assert_eq!(json_text(&update_request(None, Some("s"), None)), "{\"start\":{\"dateTime\":\"s\"}}");
    assert_eq!(json_text(&update_request(None, None, None)), "{}");
    let p = list_params(10, "now");
    assert_eq!(p[1], ("maxResults".to_string(), "10".to_string()));
    assert_eq!(p[3], ("orderBy".to_string(), "startTime".to_string()));
}

#[test]
fn outcomes_and_listing() {
    assert_eq!(create_outcome(true, "Dîner", "", ""), Ok("Événement 'Dîner' créé.".to_string()));
    assert_eq!(create_outcome(false, "x", "400 Bad Request", "e"), Err("Échec création (400 Bad Request): e".to_string()));
    assert_eq!(update_outcome(true, "", ""), Ok("Événement mis à jour.".to_string()));
    assert_eq!(delete_outcome(true, "", ""), Ok("Événement supprimé.".to_string()));
    let e = CalendarEvent { id: "1".into(), summary: "A".into(), start: "s".into(), end: "e".into() };
    assert_eq!(events_listing(&vec![]), "Aucun événement à venir.");
    assert_eq!(format_events(&EventStyle::Briefing, &vec![e]), "- A (from s to e)");
    let f = CalendarEvent { id: "2".into(), summary: "B".into(), start: "s2".into(), end: "e2".into() };
    let g = CalendarEvent { id: "1".into(), summary: "A".into(), start: "s".into(), end: "e".into() };
    assert_eq!(events_listing(&vec![g, f]), "[1] A — de s à e\n[2] B — de s2 à e2");
}
