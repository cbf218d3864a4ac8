//! The web front end's questions and answers, and the speech service's request.
use crate::json::{members_of, Json, JsonV};
use crate::text::{is_blank, owned, blank};
use crate::trusted::{b64_standard_decoded, b64_standard_encoded, decode_standard, encode_standard};
use crate::text::cat;
use vstd::prelude::*;

verus! {

/// A typed question.
pub struct AlfredAskRequest {
    pub text: String,
}

/// The answer: its text and its speech, base64-encoded.
pub struct AlfredAskResponse {
    pub result: String,
    pub audio: String,
}

/// The question service of the web front end.
pub struct AskService;

impl AskService {
    /// The answer to send: the reply and its audio in standard base64.
    pub fn response(result: String, audio: &Vec<u8>) -> (r: AlfredAskResponse)
        ensures
            r.result@ == result@,
            r.audio@ == b64_standard_encoded(audio@),
    {
        AlfredAskResponse { result, audio: encode_standard(audio) }
    }

    /// The bytes of a recording sent in standard base64, or the decoding error.
    pub fn audio_bytes(audio_base64: &str) -> (r: Result<Vec<u8>, String>)
        ensures
            match b64_standard_decoded(audio_base64@) {
                Ok(b) => r is Ok && r->Ok_0@ == b,
                Err(e) => r is Err && r->Err_0@ == "Erreur décodage Base64 : "@ + e,
            },
    {
        match decode_standard(audio_base64) {
            Ok(b) => Ok(b),
            Err(e) => Err(cat("Erreur décodage Base64 : ", e.as_str())),
        }
    }

    /// The question heard in a recording: its transcription, unless nothing was said.
    pub fn heard(transcribed: String) -> (r: Result<String, String>)
        ensures
            blank(transcribed@) ==> r is Err && r->Err_0@ == "Aucun texte n'a été détecté dans l'enregistrement."@,
            !blank(transcribed@) ==> r is Ok && r->Ok_0@ == transcribed@,
    {
        if is_blank(transcribed.as_str()) {
            Err(owned("Aucun texte n'a été détecté dans l'enregistrement."))
        } else {
            Ok(transcribed)
        }
    }
}

/// The speech service.
pub struct TtsService;

impl TtsService {
    /// The request for speaking a text in French.
    pub fn request(text: &str) -> (r: Json)
        ensures
            r@ == JsonV::Object(seq![("text"@, JsonV::Str(text@)), ("language"@, JsonV::Str("fr"@))]),
    {
        let mut m: Vec<(String, Json)> = Vec::new();
        m.push((owned("text"), Json::text(text)));
        m.push((owned("language"), Json::text("fr")));
        let r = Json::object(m);
        assert(members_of(m@) =~= seq![("text"@, JsonV::Str(text@)), ("language"@, JsonV::Str("fr"@))]);
        r
    }

    /// Whether the service's answer is an error text rather than audio: under 1000 bytes.
    pub fn is_error_answer(len: usize) -> (r: bool)
        ensures
            r == (len < 1000),
    {
        len < 1000
    }
}

} // verus!
