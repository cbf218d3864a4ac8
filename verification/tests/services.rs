use alfred::ask::{AskService, TtsService};
use alfred::auth::TokenCache;
use alfred::json::{json_text, Json};
use alfred::llm::{MistralService, OllamaService, SearchService};
use alfred::notifications::NotificationStore;
use alfred::spotify::{
    basic_authorization, check_status, device_step, first_device_id, music_action, pick_track, play_track_request, DeviceStep,
    MusicAction,
};
use alfred::registry::Args;

fn s(x: &str) -> Json {
    Json::Str(x.to_string())
}

fn obj(m: Vec<(&str, Json)>) -> Json {
    Json::Object(m.into_iter().map(|(k, v)| (k.to_string(), v)).collect())
}

fn args(v: Vec<(&str, &str)>) -> Args {
    Args { entries: v.into_iter().map(|(k, x)| (k.to_string(), x.to_string())).collect() }
}

#[test]
fn token_cache_reuses_until_expiry() {
    let mut c = TokenCache::new();
    assert!(c.valid_token(0).is_none());
    let body = obj(vec![("access_token", s("tok")), ("expires_in", Json::Number("3600".to_string()))]);
    assert_eq!(c.store(&body, 1000), Ok("tok".to_string()));
    assert_eq!(c.valid_token(1000 + 3299), Some("tok".to_string()));
    assert!(c.valid_token(1000 + 3300).is_none());
    let short = obj(vec![("access_token", s("t2")), ("expires_in", Json::Number("100".to_string()))]);
    assert_eq!(c.store(&short, 50), Ok("t2".to_string()));
    assert!(c.valid_token(50).is_none());
    let default = obj(vec![("access_token", s("t3"))]);
    c.store(&default, 0).unwrap();
    assert!(c.valid_token(3299).is_some());
    assert_eq!(c.store(&obj(vec![]), 0), Err("Pas d'access_token dans la réponse".to_string()));
    assert!(c.valid_token(3299).is_some());
}

#[test]
fn spotify_decisions() {
    assert_eq!(check_status(204, "204 No Content", "ok", ""), Ok("ok".to_string()));
    assert_eq!(check_status(404, "404 Not Found", "ok", "nope"), Err("Échec Spotify (404 Not Found): nope".to_string()));
    assert_eq!(basic_authorization("id", "secret"), "Basic aWQ6c2VjcmV0");
    assert!(first_device_id(&vec![]).is_none());
    assert_eq!(first_device_id(&vec![obj(vec![("id", s("d1"))]), obj(vec![])]), Some(Ok("d1".to_string())));
    assert_eq!(first_device_id(&vec![obj(vec![])]), Some(Err("Device sans ID".to_string())));
    let found = obj(vec![("tracks", obj(vec![("items", Json::Array(vec![obj(vec![("uri", s("spotify:track:1")), ("name", s("Song"))])]))]))]);
    assert_eq!(pick_track(&found, "q"), Ok(("spotify:track:1".to_string(), "Song".to_string())));
    assert_eq!(pick_track(&obj(vec![]), "abba"), Err("Aucun résultat pour 'abba'".to_string()));
    assert_eq!(json_text(&play_track_request("u")), "{\"uris\":[\"u\"]}");
}

#[test]
fn music_actions() {
    assert!(matches!(music_action(&args(vec![("action", "pause")])), Ok(MusicAction::Pause)));
    assert!(matches!(music_action(&args(vec![("action", "search_and_play"), ("query", "abba")])), Ok(MusicAction::SearchAndPlay(ref q)) if q == "abba"));
    assert!(matches!(music_action(&args(vec![("action", "search_and_play")])), Err(ref e) if e == "Erreur : Missing argument: query for search_and_play"));
    assert!(matches!(music_action(&args(vec![("action", "stop")])), Err(ref e) if e == "Erreur : Action inconnue : stop"));
    assert!(matches!(music_action(&args(vec![])), Err(ref e) if e == "Missing argument: action"));
}

#[test]
fn notifications_drain_in_order() {
    let mut st = NotificationStore::new();
    st.push("gmail", "one");
    st.push("calendar", "two");
    let d = st.drain();
    assert_eq!(d.len(), 2);
    assert_eq!((d[0].source.as_str(), d[0].message.as_str()), ("gmail", "one"));
    assert_eq!((d[1].source.as_str(), d[1].message.as_str()), ("calendar", "two"));
    assert_eq!(d[0].id.len(), 36);
    assert_ne!(d[0].id, d[1].id);
    assert!(d[0].created_at.contains('T'));
    let c: Vec<char> = d[0].created_at.chars().collect();
    assert!(c.len() >= 25 && c[4] == '-' && c[7] == '-' && c[10] == 'T' && c[13] == ':' && c[16] == ':');
    assert!(d[0].created_at.ends_with("+00:00"));
    assert!(st.drain().is_empty());
}

#[test]
fn model_requests() {
    let m = Json::Array(vec![]);
    assert_eq!(
        json_text(&OllamaService::request(m, Json::Array(vec![]))),
        "{\"model\":\"qwen3:4b-instruct\",\"messages\":[],\"tools\":[],\"stream\":false,\"options\":{\"num_ctx\":32000}}"
    );
    assert_eq!(OllamaService::chat_url("http://h:1"), "http://h:1/api/chat");
    assert_eq!(
        json_text(&MistralService::request(Json::Array(vec![]), &Json::Array(vec![]))),
        "{\"model\":\"mistral-large-latest\",\"messages\":[],\"temperature\":0.4}"
    );
    assert_eq!(
        json_text(&MistralService::request(Json::Array(vec![]), &Json::Array(vec![Json::Null]))),
        "{\"model\":\"mistral-large-latest\",\"messages\":[],\"temperature\":0.4,\"tools\":[null],\"tool_choice\":\"auto\"}"
    );
    let raw = obj(vec![("choices", Json::Array(vec![obj(vec![("message", obj(vec![("content", s("x"))]))])]))]);
    assert_eq!(json_text(&MistralService::answer(&raw).unwrap()), "{\"message\":{\"content\":\"x\"}}");
    assert_eq!(MistralService::answer(&obj(vec![])).err(), Some("Format de réponse Mistral invalide.".to_string()));
    assert_eq!(json_text(&SearchService::request("q")), "{\"query\":\"q\",\"max_results\":5}");
}

#[test]
fn ask_and_speech() {
    let r = AskService::response("oui".to_string(), &vec![1, 2, 3]);
    assert_eq!((r.result.as_str(), r.audio.as_str()), ("oui", "AQID"));
    assert_eq!(AskService::heard("  ".to_string()), Err("Aucun texte n'a été détecté dans l'enregistrement.".to_string()));
    assert_eq!(AskService::heard("bonjour".to_string()), Ok("bonjour".to_string()));
    assert_eq!(json_text(&TtsService::request("salut")), "{\"text\":\"salut\",\"language\":\"fr\"}");
    assert!(TtsService::is_error_answer(999));
    assert!(!TtsService::is_error_answer(1000));
}

#[test]
fn recordings_in_base64() {
    assert_eq!(AskService::audio_bytes("aGk="), Ok(vec![104u8, 105u8]));
    let e = AskService::audio_bytes("@@@").unwrap_err();
    assert!(e.starts_with("Erreur décodage Base64 : "));
    assert!(e.len() > "Erreur décodage Base64 : ".len());
    assert_eq!(AskService::heard("  ".to_string()), Err("Aucun texte n'a été détecté dans l'enregistrement.".to_string()));
    assert_eq!(AskService::heard(" oui ".to_string()), Ok(" oui ".to_string()));
    assert_eq!(AskService::response("r".to_string(), &vec![104u8, 105u8]).audio, "aGk=");
}

#[test]
fn waiting_for_a_music_device() {
    assert!(matches!(device_step(1, &vec![]), DeviceStep::Retry));
    assert!(matches!(device_step(9, &vec![]), DeviceStep::Retry));
    assert!(matches!(device_step(10, &vec![]), DeviceStep::GiveUp(ref m) if m == "Spotify a été lancé mais aucun appareil ne s'est activé à temps."));
    assert!(matches!(device_step(10, &vec![obj(vec![("id", s("d9"))])]), DeviceStep::Found(Ok(ref id)) if id == "d9"));
    assert!(matches!(device_step(3, &vec![obj(vec![])]), DeviceStep::Found(Err(ref e)) if e == "Device sans ID"));
}
