//! Spotify: the playback decisions and the texts handed back to the model.
use crate::gmail::{array_at, array_at_exec};
use crate::json::{at, item, members_of, str_of, str_or, views_of, Json, JsonV};
use crate::registry::Args;
use crate::text::{cat, failure, failure_text, owned, push_str, str_eq};
use crate::trusted::{b64_standard_encoded, encode_standard, text_bytes};
use vstd::prelude::*;
use vstd::utf8::encode_utf8;

verus! {

/// Whether an HTTP answer counts as done: a 2xx status (204 among them).
pub open spec fn accepted(code: u16) -> bool {
    (200 <= code && code < 300) || code == 204
}

/// What a playback call's answer is reported as: `success_msg`, or
/// `Échec Spotify (status): body`.
pub fn check_status(code: u16, status: &str, success_msg: &str, err_body: &str) -> (r: Result<String, String>)
    ensures
        accepted(code) ==> r is Ok && r->Ok_0@ == success_msg@,
        !accepted(code) ==> r is Err && r->Err_0@ == failure_text("Échec Spotify"@, status@, err_body@),
{
    if (200 <= code && code < 300) || code == 204 {
        Ok(owned(success_msg))
    } else {
        Err(failure("Échec Spotify", status, err_body))
    }
}

/// The `Authorization` header of a token refresh: `Basic` and the base64 of `id:secret`.
pub fn basic_authorization(client_id: &str, client_secret: &str) -> (r: String)
    ensures
        r@ == "Basic "@ + b64_standard_encoded(encode_utf8(client_id@ + ":"@ + client_secret@)),
{
    let mut pair = owned(client_id);
    push_str(&mut pair, ":");
    push_str(&mut pair, client_secret);
    let bytes = text_bytes(pair.as_str());
    let encoded = encode_standard(&bytes);
    cat("Basic ", encoded.as_str())
}

/// The error of a refused token refresh.
pub fn token_refresh_failure(status: &str, err_body: &str) -> (r: String)
    ensures
        r@ == failure_text("Spotify token refresh failed"@, status@, err_body@),
{
    failure("Spotify token refresh failed", status, err_body)
}

/// The devices of a device list answer (`devices`), or none.
pub fn devices_of(body: &Json) -> (r: Vec<Json>)
    ensures
        views_of(r@) == array_at(body@, "devices"@),
{
    let mut out: Vec<Json> = Vec::new();
    match array_at_exec(body, "devices") {
        Some(d) => {
            let mut i: usize = 0;
            while i < d.len()
                invariant
                    i <= d@.len(),
                    out@.len() == i,
                    forall|j: int| 0 <= j < i ==> (#[trigger] out@[j])@ == d@[j]@,
                decreases d@.len() - i,
            {
                out.push(d[i].deep_clone());
                i = i + 1;
            }
            assert(views_of(out@) =~= views_of(d@));
        },
        None => {
            assert(views_of(out@) =~= Seq::<JsonV>::empty());
        },
    }
    out
}

/// The device to play on: the first of the list, by its id; `None` when the list is empty.
pub fn first_device_id(devices: &Vec<Json>) -> (r: Option<Result<String, String>>)
    ensures
        devices@.len() == 0 ==> r is None,
        devices@.len() > 0 ==> r is Some && match str_of(at(devices@[0]@, "id"@)) {
            Some(id) => r->0 is Ok && r->0->Ok_0@ == id,
            None => r->0 is Err && r->0->Err_0@ == "Device sans ID"@,
        },
{
    if devices.len() == 0 {
        return None;
    }
    match devices[0].get("id") {
        Some(v) => match v.as_str() {
            Some(s) => Some(Ok(owned(s.as_str()))),
            None => Some(Err(owned("Device sans ID"))),
        },
        None => Some(Err(owned("Device sans ID"))),
    }
}

/// The error once the Spotify application was started and no device showed up in time.
pub fn no_device_in_time() -> (r: String)
    ensures
        r@ == "Spotify a été lancé mais aucun appareil ne s'est activé à temps."@,
{
    owned("Spotify a été lancé mais aucun appareil ne s'est activé à temps.")
}

/// How many times the device list is read again, a second apart, after the desktop player was
/// started.
pub open spec fn device_retries() -> int {
    10
}

/// What follows a reading of the device list after the desktop player was started.
pub enum DeviceStep {
    /// A device is listed: its id, or the error of a device without one.
    Found(Result<String, String>),
    /// No device yet: wait a second and read again.
    Retry,
    /// No device after the last reading: the error to give.
    GiveUp(String),
}

/// The decision after the `attempt`-th reading (counted from 1) of the device list once the
/// desktop player was started: use the first device, read again, or give up after
/// `device_retries()` readings.
pub fn device_step(attempt: u32, devices: &Vec<Json>) -> (r: DeviceStep)
    ensures
        devices@.len() > 0 ==> (r matches DeviceStep::Found(x) && match str_of(at(devices@[0]@, "id"@)) {
            Some(id) => x is Ok && x->Ok_0@ == id,
            None => x is Err && x->Err_0@ == "Device sans ID"@,
        }),
        devices@.len() == 0 && attempt < device_retries() ==> r is Retry,
        devices@.len() == 0 && attempt >= device_retries() ==> (r matches DeviceStep::GiveUp(m)
            && m@ == "Spotify a été lancé mais aucun appareil ne s'est activé à temps."@),
{
    match first_device_id(devices) {
        Some(found) => DeviceStep::Found(found),
        None => if attempt < 10 {
            DeviceStep::Retry
        } else {
            DeviceStep::GiveUp(no_device_in_time())
        },
    }
}

/// The first track of a search answer.
pub open spec fn first_track(body: JsonV) -> JsonV {
    item(at(at(body, "tracks"@), "items"@), 0)
}

/// The track to play from a search answer: its uri and name (`(inconnu)` when absent), or
/// `Aucun résultat pour '<query>'` when the first result has no uri.
pub fn pick_track(body: &Json, query: &str) -> (r: Result<(String, String), String>)
    ensures
        match str_of(at(first_track(body@), "uri"@)) {
            Some(uri) => r is Ok && r->Ok_0.0@ == uri
                && r->Ok_0.1@ == str_or(at(first_track(body@), "name"@), "(inconnu)"@),
            None => r is Err && r->Err_0@ == "Aucun résultat pour '"@ + query@ + "'"@,
        },
{
    let first: Option<&Json> = match body.get("tracks") {
        Some(t) => match t.get("items") {
            Some(items) => items.get_item(0),
            None => None,
        },
        None => None,
    };
    let uri: Option<String> = match first {
        Some(f) => match f.get("uri") {
            Some(u) => match u.as_str() {
                Some(s) => Some(owned(s.as_str())),
                None => None,
            },
            None => None,
        },
        None => None,
    };
    match uri {
        Some(u) => {
            let name = match first {
                Some(f) => crate::gmail::str_at_or(f, "name", "(inconnu)"),
                None => owned("(inconnu)"),
            };
            Ok((u, name))
        },
        None => {
            let mut e = owned("Aucun résultat pour '");
            push_str(&mut e, query);
            push_str(&mut e, "'");
            Err(e)
        },
    }
}

/// The body that plays one track: `{"uris": [uri]}`.
pub fn play_track_request(uri: &str) -> (r: Json)
    ensures
        r@ == JsonV::Object(seq![("uris"@, JsonV::Array(seq![JsonV::Str(uri@)]))]),
{
    let mut items: Vec<Json> = Vec::new();
    items.push(Json::text(uri));
    let a = Json::array(items);
    let mut m: Vec<(String, Json)> = Vec::new();
    m.push((owned("uris"), a));
    let r = Json::object(m);
    assert(views_of(items@) =~= seq![JsonV::Str(uri@)]);
    assert(members_of(m@) =~= seq![("uris"@, JsonV::Array(seq![JsonV::Str(uri@)]))]);
    r
}

/// The message once a track plays.
pub fn playing_message(name: &str) -> (r: String)
    ensures
        r@ == "Lecture de '"@ + name@ + "' lancée."@,
{
    let mut m = owned("Lecture de '");
    push_str(&mut m, name);
    push_str(&mut m, "' lancée.");
    m
}

/// A playback request of the `manage_music` tool.
pub enum MusicAction {
    Play,
    Pause,
    Next,
    SearchAndPlay(String),
}

/// The playback request of a `manage_music` call: `play`, `pause`, `next`, or
/// `search_and_play` with its `query`; otherwise the text handed back to the model (a failed
/// request is reported as `Erreur : ...`).
pub fn music_action(args: &Args) -> (r: Result<MusicAction, String>)
    ensures
        args.arg("action"@) is None ==> r is Err && r->Err_0@ == "Missing argument: action"@,
        args.arg("action"@) matches Some(a) ==> {
            if a == "play"@ {
                r matches Ok(MusicAction::Play)
            } else if a == "pause"@ {
                r matches Ok(MusicAction::Pause)
            } else if a == "next"@ {
                r matches Ok(MusicAction::Next)
            } else if a == "search_and_play"@ {
                match args.arg("query"@) {
                    Some(q) => r matches Ok(MusicAction::SearchAndPlay(s)) && s@ == q,
                    None => r is Err && r->Err_0@ == "Erreur : Missing argument: query for search_and_play"@,
                }
            } else {
                r is Err && r->Err_0@ == "Erreur : Action inconnue : "@ + a
            }
        },
{
    let action = match args.get("action") {
        Some(a) => a,
        None => { return Err(owned("Missing argument: action")); },
    };
    if str_eq(action.as_str(), "play") {
        Ok(MusicAction::Play)
    } else if str_eq(action.as_str(), "pause") {
        Ok(MusicAction::Pause)
    } else if str_eq(action.as_str(), "next") {
        Ok(MusicAction::Next)
    } else if str_eq(action.as_str(), "search_and_play") {
        match args.get("query") {
            Some(q) => Ok(MusicAction::SearchAndPlay(owned(q.as_str()))),
            None => Err(owned("Erreur : Missing argument: query for search_and_play")),
        }
    } else {
        Err(cat("Erreur : Action inconnue : ", action.as_str()))
    }
}

} // verus!
