//! The chat requests sent to the language models and the reading of their answers.
use crate::json::{array_of, at, item, members_of, Json, JsonV};
use crate::text::{cat, owned};
use vstd::prelude::*;

verus! {

/// The local model's request: model, messages, tools, no streaming, a 32000-token context.
pub open spec fn ollama_request_v(messages: JsonV, tools: JsonV) -> JsonV {
    JsonV::Object(seq![
        ("model"@, JsonV::Str("qwen3:4b-instruct"@)),
        ("messages"@, messages),
        ("tools"@, tools),
        ("stream"@, JsonV::Bool(false)),
        ("options"@, JsonV::Object(seq![("num_ctx"@, JsonV::Number("32000"@))])),
    ])
}

/// The hosted model's request: model, messages and temperature, and the tools (with automatic
/// choice) only where there is at least one.
pub open spec fn mistral_request_v(messages: JsonV, tools: JsonV) -> JsonV {
    let base = seq![
        ("model"@, JsonV::Str("mistral-large-latest"@)),
        ("messages"@, messages),
        ("temperature"@, JsonV::Number("0.4"@)),
    ];
    JsonV::Object(
        match array_of(tools) {
            Some(a) => if a.len() > 0 {
                base.push(("tools"@, tools)).push(("tool_choice"@, JsonV::Str("auto"@)))
            } else {
                base
            },
            None => base,
        },
    )
}

/// The local language model (Ollama).
pub struct OllamaService;

impl OllamaService {
    /// The chat endpoint of a server.
    pub fn chat_url(base: &str) -> (r: String)
        ensures
            r@ == base@ + "/api/chat"@,
    {
        cat(base, "/api/chat")
    }

    /// The chat request.
    pub fn request(messages: Json, tools: Json) -> (r: Json)
        ensures
            r@ == ollama_request_v(messages@, tools@),
    {
        let mut options: Vec<(String, Json)> = Vec::new();
        options.push((owned("num_ctx"), Json::Number(owned("32000"))));
        let o = Json::object(options);
        assert(members_of(options@) =~= seq![("num_ctx"@, JsonV::Number("32000"@))]);
        let ghost mv = messages@;
        let ghost tv = tools@;
        let mut m: Vec<(String, Json)> = Vec::new();
        m.push((owned("model"), Json::text("qwen3:4b-instruct")));
        m.push((owned("messages"), messages));
        m.push((owned("tools"), tools));
        m.push((owned("stream"), Json::Bool(false)));
        m.push((owned("options"), o));
        let r = Json::object(m);
        assert(members_of(m@) =~= ollama_request_v(mv, tv)->Object_0);
        r
    }
}

/// The hosted language model (Mistral).
pub struct MistralService;

impl MistralService {
    /// The chat request.
    pub fn request(messages: Json, tools: &Json) -> (r: Json)
        ensures
            r@ == mistral_request_v(messages@, tools@),
    {
        let ghost mv = messages@;
        let mut m: Vec<(String, Json)> = Vec::new();
        m.push((owned("model"), Json::text("mistral-large-latest")));
        m.push((owned("messages"), messages));
        m.push((owned("temperature"), Json::Number(owned("0.4"))));
        match tools.as_array() {
            Some(a) => if a.len() > 0 {
                m.push((owned("tools"), tools.deep_clone()));
                m.push((owned("tool_choice"), Json::text("auto")));
            },
            None => {},
        }
        let r = Json::object(m);
        assert(members_of(m@) =~= mistral_request_v(mv, tools@)->Object_0);
        r
    }

    /// The hosted model's answer in the local model's shape: `{"message": choices[0].message}`,
    /// where that is an object; else the error `Format de réponse Mistral invalide.`.
    pub fn answer(raw: &Json) -> (r: Result<Json, String>)
        ensures
            match at(item(at(raw@, "choices"@), 0), "message"@) {
                JsonV::Object(m) => r is Ok && r->Ok_0@ == JsonV::Object(seq![("message"@, JsonV::Object(m))]),
                _ => r is Err && r->Err_0@ == "Format de réponse Mistral invalide."@,
            },
    {
        let msg = match raw.get("choices") {
            Some(c) => match c.get_item(0) {
                Some(first) => first.get("message"),
                None => None,
            },
            None => None,
        };
        match msg {
            Some(mj) => if mj.is_object() {
                let mut outer: Vec<(String, Json)> = Vec::new();
                let c = mj.deep_clone();
                outer.push((owned("message"), c));
                let r = Json::object(outer);
                assert(members_of(outer@) =~= seq![("message"@, c@)]);
                Ok(r)
            } else {
                Err(owned("Format de réponse Mistral invalide."))
            },
            None => Err(owned("Format de réponse Mistral invalide.")),
        }
    }

    /// The error when the hosted model answers with a failure status.
    pub fn http_error(body: &str) -> (r: String)
        ensures
            r@ == "L'API Mistral a renvoyé une erreur : "@ + body@,
    {
        cat("L'API Mistral a renvoyé une erreur : ", body)
    }
}

/// The web search through the model provider's search endpoint.
pub struct SearchService;

impl SearchService {
    /// The search request: the query and at most five results.
    pub fn request(query: &str) -> (r: Json)
        ensures
            r@ == JsonV::Object(seq![("query"@, JsonV::Str(query@)), ("max_results"@, JsonV::Number("5"@))]),
    {
        let mut m: Vec<(String, Json)> = Vec::new();
        m.push((owned("query"), Json::text(query)));
        m.push((owned("max_results"), Json::Number(owned("5"))));
        let r = Json::object(m);
        assert(members_of(m@) =~= seq![("query"@, JsonV::Str(query@)), ("max_results"@, JsonV::Number("5"@))]);
        r
    }

    /// The `Authorization` header of a key.
    pub fn bearer(key: &str) -> (r: String)
        ensures
            r@ == "Bearer "@ + key@,
    {
        cat("Bearer ", key)
    }
}

} // verus!
