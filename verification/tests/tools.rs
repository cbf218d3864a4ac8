use alfred::application::{ApplicationService, LaunchOutcome};
use alfred::descriptions::{manage_email_tool, weather_tool};
use alfred::gmail::EmailAction;
use alfred::json::json_text;
use alfred::registry::Args;
use alfred::tools::{
    create_event_args, manage_email_args, optional, or_error, owned_all, param_doc, require, tool,
    update_event_args,
};

fn args(v: Vec<(&str, &str)>) -> Args {
    Args { entries: v.into_iter().map(|(k, x)| (k.to_string(), x.to_string())).collect() }
}

#[test]
fn require_reports_the_first_missing_name() {
    let a = args(vec![("b", "2"), ("a", "1")]);
    assert_eq!(require(&a, vec!["a", "b"]), Ok(vec!["1".to_string(), "2".to_string()]));
    assert_eq!(require(&a, vec!["a", "c", "d"]), Err("Missing argument: c".to_string()));
    assert_eq!(require(&a, vec![]), Ok(vec![]));
    assert_eq!(optional(&a, "a"), Some("1".to_string()));
    assert_eq!(optional(&a, "z"), None);
}

#[test]
fn or_error_prefixes_errors() {
    assert_eq!(or_error(Ok("fine".to_string())), "fine");
    assert_eq!(or_error(Err("boom".to_string())), "Erreur : boom");
}

#[test]
fn create_event_arguments() {
    let ok = create_event_args(&args(vec![("summary", "Dîner"), ("start", "s"), ("end", "e")])).unwrap();
    assert_eq!((ok.summary.as_str(), ok.start.as_str(), ok.end.as_str(), ok.description.as_str()), ("Dîner", "s", "e", ""));
    let with_desc = create_event_args(&args(vec![("summary", "x"), ("start", "s"), ("end", "e"), ("description", "d")])).unwrap();
    assert_eq!(with_desc.description, "d");
    assert_eq!(create_event_args(&args(vec![("start", "s")])).err(), Some("Missing argument: summary".to_string()));
    assert_eq!(create_event_args(&args(vec![("summary", "x"), ("end", "e")])).err(), Some("Missing argument: start".to_string()));
    assert_eq!(create_event_args(&args(vec![("summary", "x"), ("start", "s")])).err(), Some("Missing argument: end".to_string()));
}

#[test]
fn update_event_arguments() {
    let u = update_event_args(&args(vec![("event_id", "e1"), ("start", "s")])).unwrap();
    assert_eq!(u.event_id, "e1");
    assert_eq!((u.summary, u.start, u.end), (None, Some("s".to_string()), None));
    assert_eq!(update_event_args(&args(vec![("summary", "x")])).err(), Some("Missing argument: event_id".to_string()));
}

#[test]
fn manage_email_arguments() {
    match manage_email_args(&args(vec![("message_id", "m1"), ("action", "mark_read")])) {
        Ok((id, EmailAction::Labels { add, remove })) => {
            assert_eq!(id, "m1");
            assert!(add.is_empty());
            assert_eq!(remove, vec!["UNREAD".to_string()]);
        },
        _ => panic!("expected a label change"),
    }
    match manage_email_args(&args(vec![("message_id", "m1"), ("action", "star")])) {
        Ok((_, EmailAction::Labels { add, remove })) => {
            assert_eq!(add, vec!["STARRED".to_string()]);
            assert!(remove.is_empty());
        },
        _ => panic!("expected a label change"),
    }
    assert!(matches!(manage_email_args(&args(vec![("message_id", "m1"), ("action", "delete")])), Ok((_, EmailAction::Trash))));
    assert_eq!(
        manage_email_args(&args(vec![("message_id", "m1"), ("action", "burn")])).err(),
        Some("Erreur : Action inconnue : burn".to_string())
    );
    assert_eq!(manage_email_args(&args(vec![("action", "star")])).err(), Some("Missing argument: message_id".to_string()));
    assert_eq!(manage_email_args(&args(vec![("message_id", "m1")])).err(), Some("Missing argument: action".to_string()));
}

#[test]
fn tool_descriptions_as_json() {
    let params = vec![param_doc("mode", "How", vec!["a", "b"]), param_doc("x", "An x", vec![])];
    let t = tool("demo", "A demo", &params, &owned_all(vec!["mode"]));
    assert_eq!(
        json_text(&t),
        "{\"type\":\"function\",\"function\":{\"name\":\"demo\",\"description\":\"A demo\",\"parameters\":{\"type\":\"object\",\"properties\":{\"mode\":{\"type\":\"string\",\"enum\":[\"a\",\"b\"],\"description\":\"How\"},\"x\":{\"type\":\"string\",\"description\":\"An x\"}},\"required\":[\"mode\"]}}}"
    );
    let w = json_text(&weather_tool());
    assert!(w.contains("\"required\":[\"date\",\"city\"]"));
    let m = json_text(&manage_email_tool());
    assert!(m.contains("\"enum\":[\"mark_read\",\"mark_unread\",\"star\",\"unstar\",\"archive\",\"delete\"]"));
}

#[test]
fn applications_are_found_by_name() {
    let apps = ApplicationService::new(vec![
        ("firefox".to_string(), "FIREFOX_PATH".to_string()),
        ("spotify".to_string(), "SPOTIFY_PATH".to_string()),
    ]);
    assert_eq!(apps.open("spotify"), Ok("SPOTIFY_PATH".to_string()));
    assert_eq!(apps.open("Spotify"), Err("Application not found.".to_string()));
    assert_eq!(ApplicationService::launch_reply("vlc", "VLC_PATH", LaunchOutcome::VariableMissing), "VLC_PATH missing is .env");
    assert_eq!(ApplicationService::launch_reply("vlc", "VLC_PATH", LaunchOutcome::Started), "vlc successfully launched !");
    assert_eq!(ApplicationService::launch_reply("vlc", "VLC_PATH", LaunchOutcome::Failed), "Launch failure of vlc.");
}
