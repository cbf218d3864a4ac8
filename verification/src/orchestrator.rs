//! One conversation turn between the user, the language model and the tools: what goes into
//! the history, which tools run, and what reply the user gets.
use crate::json::{
    array_of, at, members_of, str_or, views_of, Json, JsonV,
};
use crate::registry::{Args, CommandHandler, CommandRegistry, unknown_command_reply};
use crate::text::{owned, push_str};
use crate::json::{json_text, json_text_of};
use crate::trusted::{regex_compiles, regex_replace_all, regex_replaced};
use vstd::prelude::*;

verus! {

/// A chat message `{"role": role, "content": content}`.
pub open spec fn message_v(role: Seq<char>, content: Seq<char>) -> JsonV {
    JsonV::Object(seq![("role"@, JsonV::Str(role)), ("content"@, JsonV::Str(content))])
}

/// A tool message that names the tool and the call it answers.
pub open spec fn named_tool_message_v(name: Seq<char>, call_id: Seq<char>, content: Seq<char>) -> JsonV {
    JsonV::Object(
        seq![
            ("role"@, JsonV::Str("tool"@)),
            ("name"@, JsonV::Str(name)),
            ("tool_call_id"@, JsonV::Str(call_id)),
            ("content"@, JsonV::Str(content)),
        ],
    )
}

/// The history with every value that is not an object left out, order kept.
pub open spec fn objects_only(s: Seq<JsonV>) -> Seq<JsonV>
    decreases s.len(),
{
    if s.len() == 0 {
        Seq::empty()
    } else {
        let r = objects_only(s.drop_last());
        if s.last() is Object {
            r.push(s.last())
        } else {
            r
        }
    }
}

/// The tool calls of a model message, where there is at least one.
pub open spec fn tool_calls_of(message: JsonV) -> Option<Seq<JsonV>> {
    match array_of(at(message, "tool_calls"@)) {
        Some(calls) => if calls.len() > 0 { Some(calls) } else { None },
        None => None,
    }
}

/// The reply text of a model message.
pub open spec fn reply_of(message: JsonV) -> Seq<char> {
    str_or(at(message, "content"@), "Pas de réponse."@)
}

/// The name of the tool that a call asks for.
pub open spec fn call_name(call: JsonV) -> Seq<char> {
    str_or(at(at(call, "function"@), "name"@), Seq::empty())
}

/// The id of a call.
pub open spec fn call_id(call: JsonV) -> Seq<char> {
    str_or(at(call, "id"@), Seq::empty())
}

/// The arguments of a call as the local model gives them: an object whose string members are
/// kept and whose other members become empty.
pub open spec fn object_args(a: JsonV) -> Seq<(Seq<char>, Seq<char>)> {
    match a {
        JsonV::Object(m) => Seq::new(m.len(), |i: int| (m[i].0, str_or(m[i].1, Seq::empty()))),
        _ => Seq::empty(),
    }
}

/// The arguments text of a call as the hosted model gives it, `{}` when absent.
pub open spec fn raw_args(call: JsonV) -> Seq<char> {
    str_or(at(at(call, "function"@), "arguments"@), "{}"@)
}

/// The arguments parsed from the hosted model's text: string members as they are, other members
/// written as JSON text; no arguments when the text did not parse to an object.
pub open spec fn parsed_args(parsed: Option<JsonV>) -> Seq<(Seq<char>, Seq<char>)> {
    match parsed {
        Some(JsonV::Object(m)) => Seq::new(
            m.len(),
            |i: int| (m[i].0, match m[i].1 {
                JsonV::Str(s) => s,
                v => json_text_of(v),
            }),
        ),
        _ => Seq::empty(),
    }
}

/// The model of arguments.
pub open spec fn args_view(a: Args) -> Seq<(Seq<char>, Seq<char>)> {
    Seq::new(a.entries@.len(), |i: int| (a.entries@[i].0@, a.entries@[i].1@))
}

/// What the model asked for in a turn.
pub enum Turn {
    /// Run these tool calls, in order, then ask the model again.
    Tools(Vec<Json>),
    /// The turn is over: this is the reply.
    Reply(String),
}

/// What follows a model answer.
pub enum Step {
    /// The tools ran; the name and result of each call, in order, for the interaction log.
    /// The model is to be asked again.
    Again(Vec<(String, String)>),
    /// The turn is over: this is the reply.
    Done(String),
    /// The model could not be reached: the turn ends with this text, and the history is left
    /// as it was.
    Failed(String),
}

/// The parse of the arguments text of call `i`, where one was given.
pub open spec fn parsed_at(parsed: Seq<Option<Json>>, i: int) -> Option<JsonV> {
    if 0 <= i < parsed.len() {
        match parsed[i] {
            Some(j) => Some(j@),
            None => None,
        }
    } else {
        None
    }
}

/// The arguments handed to the command of a call: the string members of its arguments object
/// (others empty) for the local model; for the hosted model, the members of the parse of its
/// arguments text (other values written as JSON).
pub open spec fn call_args(hosted: bool, call: JsonV, parsed: Option<JsonV>) -> Seq<(Seq<char>, Seq<char>)> {
    if hosted {
        parsed_args(parsed)
    } else {
        object_args(at(at(call, "function"@), "arguments"@))
    }
}

/// `result` is what running the command `name` of the registry with arguments `args` gives:
/// the registered command's answer for arguments with that model, or, for a name that is not
/// registered, `Commande inconnue.`.
pub open spec fn tool_ran<H: CommandHandler<Args>>(
    registry: CommandRegistry<H>,
    name: Seq<char>,
    args: Seq<(Seq<char>, Seq<char>)>,
    result: String,
) -> bool {
    &&& registry.handler(name) is None ==> result@ == unknown_command_reply()
    &&& exists|a: Args| #[trigger] args_view(a) == args
        && (registry.handler(name) matches Some(h) ==> call_ensures(H::execute, (&h, &a), result))
}

/// What a model answer does within a turn (see `Orchestrator::answer_step`).
pub open spec fn answered<H: CommandHandler<Args>>(
    registry: CommandRegistry<H>,
    before: Seq<JsonV>,
    after: Seq<JsonV>,
    response: JsonV,
    hosted: bool,
    parsed: Seq<Option<Json>>,
    r: Step,
) -> bool {
    let msg = at(response, "message"@);
    match tool_calls_of(msg) {
        None => r matches Step::Done(t) && t@ == final_reply(hosted, msg) && after == before.push(msg),
        Some(calls) => r matches Step::Again(done) && done@.len() == calls.len()
            && after.len() == before.len() + 1 + calls.len()
            && after.take(before.len() + 1int) == before.push(msg)
            && forall|i: int| 0 <= i < calls.len() ==> {
                &&& (#[trigger] done@[i]).0@ == call_name(calls[i])
                &&& after[before.len() + 1 + i] == tool_message_for(hosted, calls[i], done@[i].1@)
                &&& tool_ran(registry, call_name(calls[i]), call_args(hosted, calls[i], parsed_at(parsed, i)), done@[i].1)
            },
    }
}

/// The text that ends a turn when the model cannot be reached.
pub open spec fn failure_reply(hosted: bool, err: Seq<char>) -> Seq<char> {
    if hosted {
        "Erreur lors de la connexion à l'API Mistral : "@ + err
    } else {
        "An error occurred with the connection to the LLM : "@ + err
    }
}

/// The tool message that answers a call: `{"role": "tool", "content": result}` for the local
/// model, the message that also names the tool and the call for the hosted one.
pub open spec fn tool_message_for(hosted: bool, call: JsonV, result: Seq<char>) -> JsonV {
    if hosted {
        named_tool_message_v(call_name(call), call_id(call), result)
    } else {
        message_v("tool"@, result)
    }
}

/// The reply that ends a turn: the message's content, Markdown removed for the hosted model.
pub open spec fn final_reply(hosted: bool, message: JsonV) -> Seq<char> {
    if hosted {
        markdown_stripped(reply_of(message))
    } else {
        reply_of(message)
    }
}

/// A tool call ready to run.
pub struct ToolCall {
    pub name: String,
    pub call_id: String,
    pub args: Args,
}

/// The link between the user, the assistant's history and the language model. A turn adds to
/// the history and never shortens it: no limit on the history's length is applied here.
pub struct Orchestrator;

impl Orchestrator {
    /// `{"role": "user", "content": input}`.
    pub fn user_message(input: &str) -> (r: Json)
        ensures
            r@ == message_v("user"@, input@),
    {
        Self::message("user", input)
    }

    /// `{"role": "tool", "content": result}`.
    pub fn tool_message(result: &str) -> (r: Json)
        ensures
            r@ == message_v("tool"@, result@),
    {
        Self::message("tool", result)
    }

    /// A chat message with a role and a content.
    pub fn message(role: &str, content: &str) -> (r: Json)
        ensures
            r@ == message_v(role@, content@),
    {
        let mut m: Vec<(String, Json)> = Vec::new();
        m.push((owned("role"), Json::text(role)));
        m.push((owned("content"), Json::text(content)));
        let r = Json::object(m);
        assert(members_of(m@) =~= seq![("role"@, JsonV::Str(role@)), ("content"@, JsonV::Str(content@))]);
        r
    }

    /// `{"role": "tool", "name": name, "tool_call_id": call_id, "content": result}`.
    pub fn named_tool_message(name: &str, call_id: &str, result: &str) -> (r: Json)
        ensures
            r@ == named_tool_message_v(name@, call_id@, result@),
    {
        let mut m: Vec<(String, Json)> = Vec::new();
        m.push((owned("role"), Json::text("tool")));
        m.push((owned("name"), Json::text(name)));
        m.push((owned("tool_call_id"), Json::text(call_id)));
        m.push((owned("content"), Json::text(result)));
        let r = Json::object(m);
        assert(members_of(m@) =~= seq![
            ("role"@, JsonV::Str("tool"@)),
            ("name"@, JsonV::Str(name@)),
            ("tool_call_id"@, JsonV::Str(call_id@)),
            ("content"@, JsonV::Str(result@)),
        ]);
        r
    }

    /// Leaves out of the history every value that is not an object (a `null` among them).
    pub fn clean_history(history: &mut Vec<Json>)
        ensures
            views_of(final(history)@) == objects_only(views_of(old(history)@)),
    {
        let ghost orig = views_of(history@);
        let mut rest: Vec<Json> = Vec::new();
        core::mem::swap(history, &mut rest);
        let ghost n = rest@.len();
        assert(views_of(rest@.skip(0)) =~= orig.skip(0));
        assert(orig.take(0) =~= Seq::<JsonV>::empty());
        while rest.len() > 0
            invariant
                orig.len() == n,
                rest@.len() <= n,
                views_of(rest@) == orig.skip(n - rest@.len()),
                views_of(history@) == objects_only(orig.take(n - rest@.len())),
            decreases rest@.len(),
        {
            let ghost k = n - rest@.len();
            let ghost prev = rest@;
            let x = rest.remove(0);
            assert(x == prev[0]);
            assert(views_of(prev)[0] == orig.skip(k)[0]);
            assert(orig[k] == x@);
            assert forall|j: int| 0 <= j < rest@.len() implies views_of(rest@)[j] == orig.skip(k + 1)[j] by {
                assert(rest@[j] == prev[j + 1]);
                assert(views_of(prev)[j + 1] == orig.skip(k)[j + 1]);
            }
            assert(views_of(rest@) =~= orig.skip(k + 1));
            assert(orig.take(k + 1).drop_last() =~= orig.take(k));
            if x.is_object() {
                history.push(x);
                assert(views_of(history@) =~= objects_only(orig.take(k)).push(x@));
            } else {
                assert(objects_only(orig.take(k + 1)) == objects_only(orig.take(k)));
            }
        }
        assert(orig.take(n as int) =~= orig);
    }

    /// Reads the model's answer: the message to append to the history (`answer["message"]`)
    /// and what to do next: run its tool calls, or reply with its content
    /// (`Pas de réponse.` when it has none).
    pub fn read_turn(response: &Json) -> (r: (Json, Turn))
        ensures
            r.0@ == at(response@, "message"@),
            match r.1 {
                Turn::Tools(calls) => tool_calls_of(r.0@) == Some(views_of(calls@)),
                Turn::Reply(text) => tool_calls_of(r.0@) is None && text@ == reply_of(r.0@),
            },
    {
        let message = match response.get("message") {
            Some(m) => m.deep_clone(),
            None => Json::Null,
        };
        let calls = match message.get("tool_calls") {
            Some(t) => match t.as_array() {
                Some(a) => if a.len() > 0 {
                    let mut out: Vec<Json> = Vec::new();
                    let mut i: usize = 0;
                    while i < a.len()
                        invariant
                            i <= a@.len(),
                            out@.len() == i,
                            forall|j: int| 0 <= j < i ==> (#[trigger] out@[j])@ == a@[j]@,
                        decreases a@.len() - i,
                    {
                        out.push(a[i].deep_clone());
                        i = i + 1;
                    }
                    assert(views_of(out@) =~= views_of(a@));
                    Some(out)
                } else {
                    None
                },
                None => None,
            },
            None => None,
        };
        match calls {
            Some(c) => (message, Turn::Tools(c)),
            None => {
                let text = match message.get("content") {
                    Some(c) => match c.as_str() {
                        Some(s) => owned(s.as_str()),
                        None => owned("Pas de réponse."),
                    },
                    None => owned("Pas de réponse."),
                };
                (message, Turn::Reply(text))
            },
        }
    }

    fn text_at_or(v: Option<&Json>, default: &str) -> (r: String)
        ensures
            r@ == str_or(match v { Some(j) => j@, None => JsonV::Null }, default@),
    {
        match v {
            Some(j) => match j.as_str() {
                Some(s) => owned(s.as_str()),
                None => owned(default),
            },
            None => owned(default),
        }
    }

    fn function_field<'a>(call: &'a Json, key: &str) -> (r: Option<&'a Json>)
        ensures
            match r {
                Some(j) => at(at(call@, "function"@), key@) == j@,
                None => at(at(call@, "function"@), key@) == JsonV::Null,
            },
    {
        match call.get("function") {
            Some(f) => {
                let r = f.get(key);
                match r {
                    Some(j) => Some(j),
                    None => None,
                }
            },
            None => None,
        }
    }

    /// A tool call as the local model writes it: the function name (empty when absent) and its
    /// object arguments, where string members are kept and other members become empty.
    pub fn ollama_call(call: &Json) -> (r: ToolCall)
        ensures
            r.name@ == call_name(call@),
            r.call_id@ == Seq::<char>::empty(),
            args_view(r.args) == object_args(at(at(call@, "function"@), "arguments"@)),
    {
        proof {
            reveal_strlit("");
        }
        let name = Self::text_at_or(Self::function_field(call, "name"), "");
        let mut entries: Vec<(String, String)> = Vec::new();
        match Self::function_field(call, "arguments") {
            Some(Json::Object(m)) => {
                proof {
                    crate::json::lemma_object_view(*m);
                }
                let mut i: usize = 0;
                while i < m.len()
                    invariant
                        i <= m@.len(),
                        entries@.len() == i,
                        forall|j: int| 0 <= j < i ==> (#[trigger] entries@[j]).0@ == m@[j].0@
                            && entries@[j].1@ == str_or(m@[j].1@, Seq::empty()),
                    decreases m@.len() - i,
                {
                    let v = match m[i].1.as_str() {
                        Some(s) => owned(s.as_str()),
                        None => owned(""),
                    };
                    assert(m@[i as int].1@ == members_of(m@)[i as int].1);
                    proof {
                        reveal_strlit("");
                    }
                    entries.push((owned(m[i].0.as_str()), v));
                    i = i + 1;
                }
            },
            _ => {},
        }
        let args = Args { entries };
        assert(args_view(args) =~= object_args(at(at(call@, "function"@), "arguments"@)));
        ToolCall { name, call_id: owned(""), args }
    }

    /// The arguments text of a hosted model's tool call (`{}` when absent); the caller parses it
    /// as JSON and hands the result to `mistral_call`.
    pub fn mistral_raw_args(call: &Json) -> (r: String)
        ensures
            r@ == raw_args(call@),
    {
        Self::text_at_or(Self::function_field(call, "arguments"), "{}")
    }

    /// A tool call as the hosted model writes it: name and id (empty when absent), and the
    /// arguments parsed from its arguments text (`None` where the text is no JSON).
    pub fn mistral_call(call: &Json, parsed: Option<Json>) -> (r: ToolCall)
        ensures
            r.name@ == call_name(call@),
            r.call_id@ == call_id(call@),
            args_view(r.args) == parsed_args(match parsed { Some(p) => Some(p@), None => None }),
    {
        proof {
            reveal_strlit("");
        }
        let name = Self::text_at_or(Self::function_field(call, "name"), "");
        let id = Self::text_at_or(call.get("id"), "");
        let mut entries: Vec<(String, String)> = Vec::new();
        match &parsed {
            Some(Json::Object(m)) => {
                proof {
                    crate::json::lemma_object_view(*m);
                }
                let mut i: usize = 0;
                while i < m.len()
                    invariant
                        i <= m@.len(),
                        entries@.len() == i,
                        forall|j: int| 0 <= j < i ==> (#[trigger] entries@[j]).0@ == m@[j].0@
                            && entries@[j].1@ == (match m@[j].1@ {
                                JsonV::Str(s) => s,
                                v => json_text_of(v),
                            }),
                    decreases m@.len() - i,
                {
                    let v = match &m[i].1 {
                        Json::Str(s) => owned(s.as_str()),
                        other => json_text(other),
                    };
                    entries.push((owned(m[i].0.as_str()), v));
                    i = i + 1;
                }
            },
            _ => {},
        }
        let args = Args { entries };
        assert(args_view(args) =~= parsed_args(match parsed { Some(p) => Some(p@), None => None }));
        ToolCall { name, call_id: id, args }
    }

    /// Runs a tool call through the registry and appends the tool message to the history:
    /// `{"role": "tool", "content": result}`, or, where `named` holds, the message that also
    /// carries the tool name and call id. Gives the tool's result.
    pub fn run_tool<H: CommandHandler<Args>>(
        registry: &CommandRegistry<H>,
        history: &mut Vec<Json>,
        call: &ToolCall,
        named: bool,
    ) -> (r: String)
        ensures
            registry.handler(call.name@) is None ==> r@ == unknown_command_reply(),
            registry.handler(call.name@) matches Some(h) ==> call_ensures(H::execute, (&h, &call.args), r),
            views_of(final(history)@) == views_of(old(history)@).push(
                if named {
                    named_tool_message_v(call.name@, call.call_id@, r@)
                } else {
                    message_v("tool"@, r@)
                },
            ),
    {
        let result = registry.execute(call.name.as_str(), &call.args);
        let m = if named {
            Self::named_tool_message(call.name.as_str(), call.call_id.as_str(), result.as_str())
        } else {
            Self::tool_message(result.as_str())
        };
        history.push(m);
        assert(views_of(history@) =~= views_of(old(history)@).push(m@));
        result
    }

    /// The arguments texts of the tool calls in a hosted model's answer, in order (`{}` where
    /// a call has none); the caller parses each as JSON for `answer_step`.
    pub fn pending_raw_args(response: &Json) -> (r: Vec<String>)
        ensures
            match tool_calls_of(at(response@, "message"@)) {
                Some(calls) => r@.len() == calls.len()
                    && forall|i: int| 0 <= i < calls.len() ==> (#[trigger] r@[i])@ == raw_args(calls[i]),
                None => r@.len() == 0,
            },
    {
        let (_message, turn) = Self::read_turn(response);
        let mut out: Vec<String> = Vec::new();
        match turn {
            Turn::Tools(calls) => {
                let mut i: usize = 0;
                while i < calls.len()
                    invariant
                        i <= calls@.len(),
                        out@.len() == i,
                        forall|j: int| 0 <= j < i ==> (#[trigger] out@[j])@ == raw_args(calls@[j]@),
                    decreases calls@.len() - i,
                {
                    out.push(Self::mistral_raw_args(&calls[i]));
                    i = i + 1;
                }
            },
            Turn::Reply(_) => {},
        }
        out
    }

    /// Handles a model answer within a turn: its message joins the history; then either each
    /// of its tool calls runs through the registry, in order, and its tool message joins the
    /// history, or, without tool calls, the turn ends with the reply. For the hosted model the
    /// call's arguments are `parsed[i]` (the parse of its arguments text; `None`, or no entry,
    /// where it is no JSON), the tool messages name the tool and the call, and the reply loses
    /// its Markdown.
    pub fn answer_step<H: CommandHandler<Args>>(
        registry: &CommandRegistry<H>,
        history: &mut Vec<Json>,
        response: &Json,
        hosted: bool,
        parsed: &Vec<Option<Json>>,
    ) -> (r: Step)
        ensures
            answered(*registry, views_of(old(history)@), views_of(final(history)@), response@, hosted, parsed@, r),
    {
        let (message, turn) = Self::read_turn(response);
        history.push(message);
        let ghost h0 = views_of(history@);
        assert(h0 =~= views_of(old(history)@).push(at(response@, "message"@)));
        match turn {
            Turn::Reply(text) => {
                if hosted {
                    Step::Done(strip_markdown(text.as_str()))
                } else {
                    Step::Done(text)
                }
            },
            Turn::Tools(calls) => {
                let ghost cs = views_of(calls@);
                let mut done: Vec<(String, String)> = Vec::new();
                let mut i: usize = 0;
                assert(views_of(history@).take(h0.len() as int) =~= h0);
                while i < calls.len()
                    invariant
                        i <= calls@.len(),
                        cs == views_of(calls@),
                        views_of(history@).len() == h0.len() + i,
                        views_of(history@).take(h0.len() as int) == h0,
                        done@.len() == i,
                        forall|j: int| 0 <= j < i ==> {
                            &&& (#[trigger] done@[j]).0@ == call_name(cs[j])
                            &&& views_of(history@)[h0.len() + j] == tool_message_for(hosted, cs[j], done@[j].1@)
                            &&& tool_ran(*registry, call_name(cs[j]), call_args(hosted, cs[j], parsed_at(parsed@, j)), done@[j].1)
                        },
                    decreases calls@.len() - i,
                {
                    let call = if hosted {
                        let p = if i < parsed.len() {
                            match &parsed[i] {
                                Some(j) => Some(j.deep_clone()),
                                None => None,
                            }
                        } else {
                            None
                        };
                        Self::mistral_call(&calls[i], p)
                    } else {
                        Self::ollama_call(&calls[i])
                    };
                    assert(args_view(call.args) == call_args(hosted, cs[i as int], parsed_at(parsed@, i as int)));
                    let ghost hb = views_of(history@);
                    let result = Self::run_tool(registry, history, &call, hosted);
                    proof {
                        assert(tool_ran(*registry, call_name(cs[i as int]), call_args(hosted, cs[i as int], parsed_at(parsed@, i as int)), result));
                        assert(views_of(history@) =~= hb.push(tool_message_for(hosted, cs[i as int], result@)));
                        assert(views_of(history@).take(h0.len() as int) =~= hb.take(h0.len() as int));
                    }
                    done.push((call.name, result));
                    i = i + 1;
                }
                Step::Again(done)
            },
        }
    }

    /// Handles the outcome of a model call within a turn: an answer as `answer_step` does; a
    /// failure ends the turn with the failure text and leaves the history as it was.
    pub fn step<H: CommandHandler<Args>>(
        registry: &CommandRegistry<H>,
        history: &mut Vec<Json>,
        outcome: &Result<Json, String>,
        hosted: bool,
        parsed: &Vec<Option<Json>>,
    ) -> (r: Step)
        ensures
            match outcome {
                Ok(response) => answered(*registry, views_of(old(history)@), views_of(final(history)@), response@, hosted, parsed@, r),
                Err(e) => r matches Step::Failed(t) && t@ == failure_reply(hosted, e@) && final(history)@ == old(history)@,
            },
    {
        match outcome {
            Ok(response) => Self::answer_step(registry, history, response, hosted, parsed),
            Err(e) => {
                if hosted {
                    Step::Failed(Self::mistral_failure(e.as_str()))
                } else {
                    Step::Failed(Self::ollama_failure(e.as_str()))
                }
            },
        }
    }

    /// What the user is told when the local model cannot be reached.
    pub fn ollama_failure(err: &str) -> (r: String)
        ensures
            r@ == "An error occurred with the connection to the LLM : "@ + err@,
    {
        let mut r = owned("An error occurred with the connection to the LLM : ");
        push_str(&mut r, err);
        r
    }

    /// What the user is told when the hosted model cannot be reached.
    pub fn mistral_failure(err: &str) -> (r: String)
        ensures
            r@ == "Erreur lors de la connexion à l'API Mistral : "@ + err@,
    {
        let mut r = owned("Erreur lors de la connexion à l'API Mistral : ");
        push_str(&mut r, err);
        r
    }
}

/// One replacement step of the Markdown cleanup: the pattern's matches replaced, or the text
/// unchanged if the pattern does not compile.
pub open spec fn md_step(text: Seq<char>, pattern: Seq<char>, rep: Seq<char>) -> Seq<char> {
    if regex_compiles(pattern) {
        regex_replaced(pattern, text, rep)
    } else {
        text
    }
}

/// The rules of the Markdown cleanup, in the order they run, each a pattern and its
/// replacement: bold and italics (kept as their text), numbered and bulleted list markers and
/// headers (removed), and links (kept as their text).
pub open spec fn markdown_rules() -> Seq<(Seq<char>, Seq<char>)> {
    seq![
        ("\\*\\*(.+?)\\*\\*"@, "$1"@),
        ("\\*(.+?)\\*"@, "$1"@),
        ("(?m)^\\d+\\.\\s+"@, ""@),
        ("(?m)^[-*]\\s+"@, ""@),
        ("(?m)^#+\\s+"@, ""@),
        ("\\[(.+?)\\]\\(.+?\\)"@, "$1"@),
    ]
}

/// A text after the given rules have run on it, one after the other.
pub open spec fn rules_applied(text: Seq<char>, rules: Seq<(Seq<char>, Seq<char>)>) -> Seq<char>
    decreases rules.len(),
{
    if rules.len() == 0 {
        text
    } else {
        let last = rules.last();
        md_step(rules_applied(text, rules.drop_last()), last.0, last.1)
    }
}

/// The Markdown cleanup: every rule of `markdown_rules`, in order.
pub open spec fn markdown_stripped(text: Seq<char>) -> Seq<char> {
    rules_applied(text, markdown_rules())
}

/// List markers and headers are removed at the start of every line of the reply, not only at
/// the start of the text: each rule that removes what it matches is anchored at a line start in
/// multi-line mode (its pattern begins with `(?m)^`), the others keep their text (`$1`); and a
/// numbered-list marker (digits, a dot, white space) is one of the things removed.
pub proof fn lemma_markers_removed_on_every_line()
    ensures
        forall|k: int| 0 <= k < markdown_rules().len() && (#[trigger] markdown_rules()[k]).1.len() == 0
            ==> markdown_rules()[k].0.take(5) == "(?m)^"@,
        forall|k: int| 0 <= k < markdown_rules().len() && (#[trigger] markdown_rules()[k]).1.len() != 0
            ==> markdown_rules()[k].1 == "$1"@,
        markdown_rules().contains(("(?m)^\\d+\\.\\s+"@, ""@)),
{
    reveal_strlit("");
    reveal_strlit("$1");
    reveal_strlit("(?m)^");
    reveal_strlit("(?m)^\\d+\\.\\s+");
    reveal_strlit("(?m)^[-*]\\s+");
    reveal_strlit("(?m)^#+\\s+");
    let r = markdown_rules();
    assert(r[2] == ("(?m)^\\d+\\.\\s+"@, ""@));
    assert(r[2].0.take(5) =~= "(?m)^"@);
    assert(r[3].0.take(5) =~= "(?m)^"@);
    assert(r[4].0.take(5) =~= "(?m)^"@);
}

fn md_replace(text: String, pattern: &str, rep: &str) -> (r: String)
    ensures
        r@ == md_step(text@, pattern@, rep@),
{
    match regex_replace_all(pattern, text.as_str(), rep) {
        Some(t) => t,
        None => text,
    }
}

/// Removes the Markdown that a speech engine would read aloud.
pub fn strip_markdown(text: &str) -> (r: String)
    ensures
        r@ == markdown_stripped(text@),
{
    let rules: Vec<(&str, &str)> = vec![
        ("\\*\\*(.+?)\\*\\*", "$1"),
        ("\\*(.+?)\\*", "$1"),
        ("(?m)^\\d+\\.\\s+", ""),
        ("(?m)^[-*]\\s+", ""),
        ("(?m)^#+\\s+", ""),
        ("\\[(.+?)\\]\\(.+?\\)", "$1"),
    ];
    let ghost table = markdown_rules();
    assert(rules@.len() == table.len());
    assert forall|k: int| 0 <= k < table.len() implies (#[trigger] rules@[k]).0@ == table[k].0
        && rules@[k].1@ == table[k].1 by {}
    let mut r = owned(text);
    let mut i: usize = 0;
    while i < rules.len()
        invariant
            i <= rules@.len(),
            rules@.len() == table.len(),
            table == markdown_rules(),
            forall|k: int| 0 <= k < table.len() ==> (#[trigger] rules@[k]).0@ == table[k].0
                && rules@[k].1@ == table[k].1,
            r@ == rules_applied(text@, table.take(i as int)),
        decreases rules@.len() - i,
    {
        let (pattern, rep) = rules[i];
        assert(table.take(i as int + 1).drop_last() =~= table.take(i as int));
        r = md_replace(r, pattern, rep);
        i = i + 1;
    }
    assert(table.take(i as int) =~= table);
    r
}

/// Cleaning the history twice leaves it as cleaning it once: a cleaned history holds objects
/// only.
pub proof fn lemma_clean_history_idempotent(s: Seq<JsonV>)
    ensures
        objects_only(objects_only(s)) == objects_only(s),
        forall|i: int| 0 <= i < objects_only(s).len() ==> (#[trigger] objects_only(s)[i]) is Object,
    decreases s.len(),
{
    if s.len() > 0 {
        lemma_clean_history_idempotent(s.drop_last());
        let r = objects_only(s.drop_last());
        if s.last() is Object {
            assert(r.push(s.last()).drop_last() =~= r);
        }
    }
}

/// Leaving out the non-objects of two histories one after the other is leaving them out of each.
pub proof fn lemma_objects_only_concat(a: Seq<JsonV>, b: Seq<JsonV>)
    ensures
        objects_only(a + b) == objects_only(a) + objects_only(b),
    decreases b.len(),
{
    if b.len() == 0 {
        assert(a + b =~= a);
        assert(objects_only(a) + objects_only(b) =~= objects_only(a));
    } else {
        lemma_objects_only_concat(a, b.drop_last());
        assert((a + b).drop_last() =~= a + b.drop_last());
        assert((a + b).last() == b.last());
        if b.last() is Object {
            assert(objects_only(a) + objects_only(b) =~= (objects_only(a) + objects_only(b.drop_last())).push(b.last()));
        }
    }
}

/// A turn: the answers `responses[0..n]` of the model, each handled as `answer_step` does on
/// the history cleaned beforehand, the turn going on while tools ran. Every answer but the
/// last asked for tools; the turn ends with the last answer's reply when it asks for none; and
/// the cleaned history that the turn started from stays at the head of the history.
pub proof fn lemma_turn<H: CommandHandler<Args>>(
    registry: CommandRegistry<H>,
    histories: Seq<Seq<JsonV>>,
    responses: Seq<JsonV>,
    parsed: Seq<Seq<Option<Json>>>,
    steps: Seq<Step>,
    hosted: bool,
)
    requires
        responses.len() > 0,
        histories.len() == responses.len() + 1,
        parsed.len() == responses.len(),
        steps.len() == responses.len(),
        forall|j: int| 0 <= j < responses.len() ==> answered(
            registry, objects_only(histories[j]), #[trigger] histories[j + 1], responses[j], hosted, parsed[j], steps[j],
        ),
        forall|j: int| 0 <= j < responses.len() - 1 ==> (#[trigger] steps[j]) is Again,
    ensures
        forall|j: int| 0 <= j < responses.len() - 1 ==> tool_calls_of(at(#[trigger] responses[j], "message"@)) is Some,
        tool_calls_of(at(responses.last(), "message"@)) is None ==> (steps.last() matches Step::Done(t)
            && t@ == final_reply(hosted, at(responses.last(), "message"@))),
        forall|j: int| 1 <= j <= responses.len() ==> #[trigger] histories[j].len() >= objects_only(histories[0]).len()
            && histories[j].take(objects_only(histories[0]).len() as int) == objects_only(histories[0]),
{
    let n = responses.len() as int;
    let h0 = objects_only(histories[0]);
    assert forall|j: int| 0 <= j < n - 1 implies tool_calls_of(at(#[trigger] responses[j], "message"@)) is Some by {
        assert(answered(registry, objects_only(histories[j]), histories[j + 1], responses[j], hosted, parsed[j], steps[j]));
        assert(steps[j] is Again);
    }
    let k = n - 1;
    assert(answered(registry, objects_only(histories[k]), histories[k + 1], responses[k], hosted, parsed[k], steps[k]));
    assert(histories[k + 1] == histories[n]);
    assert(steps.last() == steps[n - 1]);
    assert(responses.last() == responses[n - 1]);
    assert forall|j: int| 1 <= j <= n implies #[trigger] histories[j].len() >= h0.len()
        && histories[j].take(h0.len() as int) == h0 by {
        lemma_prefix_kept(registry, histories, responses, parsed, steps, hosted, j);
    }
}

proof fn lemma_prefix_kept<H: CommandHandler<Args>>(
    registry: CommandRegistry<H>,
    histories: Seq<Seq<JsonV>>,
    responses: Seq<JsonV>,
    parsed: Seq<Seq<Option<Json>>>,
    steps: Seq<Step>,
    hosted: bool,
    j: int,
)
    requires
        histories.len() == responses.len() + 1,
        parsed.len() == responses.len(),
        steps.len() == responses.len(),
        forall|i: int| 0 <= i < responses.len() ==> answered(
            registry, objects_only(histories[i]), #[trigger] histories[i + 1], responses[i], hosted, parsed[i], steps[i],
        ),
        1 <= j <= responses.len(),
    ensures
        histories[j].len() >= objects_only(histories[0]).len(),
        histories[j].take(objects_only(histories[0]).len() as int) == objects_only(histories[0]),
    decreases j,
{
    let h0 = objects_only(histories[0]);
    let i = j - 1;
    let before = objects_only(histories[i]);
    let after = histories[i + 1];
    assert(answered(registry, before, after, responses[i], hosted, parsed[i], steps[i]));
    assert(after == histories[j]);
    // the handled history starts with the cleaned one
    assert(after.len() >= before.len() && after.take(before.len() as int) == before) by {
        let msg = at(responses[j - 1], "message"@);
        match tool_calls_of(msg) {
            None => {
                assert(after.take(before.len() as int) =~= before);
            },
            Some(calls) => {
                assert(after.take(before.len() as int) =~= after.take(before.len() + 1int).take(before.len() as int));
                assert(before.push(msg).take(before.len() as int) =~= before);
            },
        }
    }
    if j == 1 {
    } else {
        lemma_prefix_kept(registry, histories, responses, parsed, steps, hosted, j - 1);
        let prev = histories[j - 1];
        assert(prev =~= prev.take(h0.len() as int) + prev.skip(h0.len() as int));
        lemma_objects_only_concat(h0, prev.skip(h0.len() as int));
        lemma_clean_history_idempotent(histories[0]);
        assert(before == h0 + objects_only(prev.skip(h0.len() as int)));
        assert(after.take(h0.len() as int) =~= before.take(h0.len() as int));
        assert(before.take(h0.len() as int) =~= h0);
    }
}

} // verus!
