//! The tools that the model may call: their JSON descriptions, how their arguments are read,
//! and the texts of the tools that need no outside service.
use crate::json::{members_of, views_of, Json, JsonV};
use crate::registry::Args;
use crate::gmail::{action_labels, EmailAction};
use crate::text::{cat, owned, views};
use vstd::prelude::*;

verus! {

/// A string parameter of a tool: name, description and, where not empty, its allowed values.
pub struct ParamDoc {
    pub name: String,
    pub description: String,
    pub choices: Vec<String>,
}

/// The model of a parameter.
pub type ParamV = (Seq<char>, Seq<char>, Seq<Seq<char>>);

/// The model of a parameter description.
pub open spec fn param_view(p: ParamDoc) -> ParamV {
    (p.name@, p.description@, views(p.choices@))
}

/// A JSON array of strings.
pub open spec fn strings_v(s: Seq<Seq<char>>) -> JsonV {
    JsonV::Array(Seq::new(s.len(), |i: int| JsonV::Str(s[i])))
}

/// `{"type": "string", "enum": choices, "description": ...}`, `enum` only where there are choices.
pub open spec fn param_json(p: ParamV) -> JsonV {
    let head = seq![("type"@, JsonV::Str("string"@))];
    let with_enum = if p.2.len() > 0 { head.push(("enum"@, strings_v(p.2))) } else { head };
    JsonV::Object(with_enum.push(("description"@, JsonV::Str(p.1))))
}

/// `{"type": "object", "properties": {...}, "required": [...]}`, `required` only where some are.
pub open spec fn parameters_json(params: Seq<ParamV>, required: Seq<Seq<char>>) -> JsonV {
    let props = JsonV::Object(Seq::new(params.len(), |i: int| (params[i].0, param_json(params[i]))));
    let base = seq![("type"@, JsonV::Str("object"@)), ("properties"@, props)];
    JsonV::Object(if required.len() > 0 { base.push(("required"@, strings_v(required))) } else { base })
}

/// The description of a function tool as the chat API takes it.
pub open spec fn tool_json(name: Seq<char>, description: Seq<char>, params: Seq<ParamV>, required: Seq<Seq<char>>) -> JsonV {
    JsonV::Object(seq![
        ("type"@, JsonV::Str("function"@)),
        ("function"@, JsonV::Object(seq![
            ("name"@, JsonV::Str(name)),
            ("description"@, JsonV::Str(description)),
            ("parameters"@, parameters_json(params, required)),
        ])),
    ])
}

fn strings(s: &Vec<String>) -> (r: Json)
    ensures
        r@ == strings_v(views(s@)),
{
    let mut out: Vec<Json> = Vec::new();
    let mut i: usize = 0;
    while i < s.len()
        invariant
            i <= s@.len(),
            out@.len() == i,
            forall|j: int| 0 <= j < i ==> (#[trigger] out@[j])@ == JsonV::Str(s@[j]@),
        decreases s@.len() - i,
    {
        out.push(Json::text(s[i].as_str()));
        i = i + 1;
    }
    let r = Json::array(out);
    assert(views_of(out@) =~= Seq::new(s@.len(), |k: int| JsonV::Str(views(s@)[k])));
    r
}

fn param(p: &ParamDoc) -> (r: Json)
    ensures
        r@ == param_json(param_view(*p)),
{
    let mut m: Vec<(String, Json)> = Vec::new();
    m.push((owned("type"), Json::text("string")));
    if p.choices.len() > 0 {
        let c = strings(&p.choices);
        m.push((owned("enum"), c));
    }
    m.push((owned("description"), Json::text(p.description.as_str())));
    let r = Json::object(m);
    assert(members_of(m@) =~= param_json(param_view(*p))->Object_0);
    r
}

/// The JSON description of a function tool.
pub fn tool(name: &str, description: &str, params: &Vec<ParamDoc>, required: &Vec<String>) -> (r: Json)
    ensures
        r@ == tool_json(name@, description@, Seq::new(params@.len(), |i: int| param_view(params@[i])), views(required@)),
{
    let ghost pv = Seq::new(params@.len(), |i: int| param_view(params@[i]));
    let mut props: Vec<(String, Json)> = Vec::new();
    let mut i: usize = 0;
    while i < params.len()
        invariant
            pv == Seq::new(params@.len(), |i: int| param_view(params@[i])),
            i <= params@.len(),
            props@.len() == i,
            forall|j: int| 0 <= j < i ==> (#[trigger] props@[j]).0@ == pv[j].0 && props@[j].1@ == param_json(pv[j]),
        decreases params@.len() - i,
    {
        let pj = param(&params[i]);
        props.push((owned(params[i].name.as_str()), pj));
        i = i + 1;
    }
    let props_json = Json::object(props);
    assert(members_of(props@) =~= Seq::new(pv.len(), |k: int| (pv[k].0, param_json(pv[k]))));
    let mut pm: Vec<(String, Json)> = Vec::new();
    pm.push((owned("type"), Json::text("object")));
    pm.push((owned("properties"), props_json));
    if required.len() > 0 {
        let rq = strings(required);
        pm.push((owned("required"), rq));
    }
    let parameters = Json::object(pm);
    assert(members_of(pm@) =~= parameters_json(pv, views(required@))->Object_0);
    let mut f: Vec<(String, Json)> = Vec::new();
    f.push((owned("name"), Json::text(name)));
    f.push((owned("description"), Json::text(description)));
    f.push((owned("parameters"), parameters));
    let function = Json::object(f);
    assert(members_of(f@) =~= seq![
        ("name"@, JsonV::Str(name@)),
        ("description"@, JsonV::Str(description@)),
        ("parameters"@, parameters_json(pv, views(required@))),
    ]);
    let mut t: Vec<(String, Json)> = Vec::new();
    t.push((owned("type"), Json::text("function")));
    t.push((owned("function"), function));
    let r = Json::object(t);
    assert(members_of(t@) =~= tool_json(name@, description@, pv, views(required@))->Object_0);
    r
}

/// A parameter description.
pub fn param_doc(name: &str, description: &str, choices: Vec<&str>) -> (r: ParamDoc)
    ensures
        param_view(r) == (name@, description@, Seq::new(choices@.len(), |i: int| choices@[i]@)),
{
    ParamDoc { name: owned(name), description: owned(description), choices: owned_all(choices) }
}

/// Owned copies of string slices.
pub fn owned_all(s: Vec<&str>) -> (r: Vec<String>)
    ensures
        views(r@) == Seq::new(s@.len(), |i: int| s@[i]@),
{
    let mut out: Vec<String> = Vec::new();
    let mut i: usize = 0;
    while i < s.len()
        invariant
            i <= s@.len(),
            out@.len() == i,
            forall|j: int| 0 <= j < i ==> (#[trigger] out@[j])@ == s@[j]@,
        decreases s@.len() - i,
    {
        out.push(owned(s[i]));
        i = i + 1;
    }
    assert(views(out@) =~= Seq::new(s@.len(), |k: int| s@[k]@));
    out
}

/// The text of a missing required argument.
pub open spec fn missing(name: Seq<char>) -> Seq<char> {
    "Missing argument: "@ + name
}

/// The index of the first of `names` that `args` lacks, from index `i` on.
pub open spec fn first_missing(args: Args, names: Seq<Seq<char>>, i: int) -> Option<int>
    decreases names.len() - i,
{
    if i < 0 || i >= names.len() {
        None
    } else if args.arg(names[i]) is None {
        Some(i)
    } else {
        first_missing(args, names, i + 1)
    }
}

/// The values of required arguments, in the order asked; the first missing one is reported
/// as `Missing argument: <name>`.
pub fn require(args: &Args, names: Vec<&str>) -> (r: Result<Vec<String>, String>)
    ensures
        match first_missing(*args, Seq::new(names@.len(), |i: int| names@[i]@), 0) {
            Some(k) => r is Err && r->Err_0@ == missing(names@[k]@),
            None => r is Ok && r->Ok_0@.len() == names@.len()
                && forall|i: int| 0 <= i < names@.len() ==> args.arg(names@[i]@) == Some(#[trigger] r->Ok_0@[i]@),
        },
{
    let ghost ns = Seq::new(names@.len(), |i: int| names@[i]@);
    let mut out: Vec<String> = Vec::new();
    let mut i: usize = 0;
    while i < names.len()
        invariant
            ns == Seq::new(names@.len(), |i: int| names@[i]@),
            i <= names@.len(),
            out@.len() == i,
            first_missing(*args, ns, 0) == first_missing(*args, ns, i as int),
            forall|j: int| 0 <= j < i ==> args.arg(names@[j]@) == Some(#[trigger] out@[j]@),
        decreases names@.len() - i,
    {
        match args.get(names[i]) {
            Some(v) => out.push(owned(v.as_str())),
            None => {
                return Err(cat("Missing argument: ", names[i]));
            },
        }
        i = i + 1;
    }
    Ok(out)
}

/// The value of an optional argument.
pub fn optional(args: &Args, name: &str) -> (r: Option<String>)
    ensures
        match r {
            Some(v) => args.arg(name@) == Some(v@),
            None => args.arg(name@) is None,
        },
{
    match args.get(name) {
        Some(v) => Some(owned(v.as_str())),
        None => None,
    }
}

/// The text handed back for a service result: the result, or `Erreur : <error>`.
pub fn or_error(r: Result<String, String>) -> (t: String)
    ensures
        r is Ok ==> t@ == r->Ok_0@,
        r is Err ==> t@ == "Erreur : "@ + r->Err_0@,
{
    match r {
        Ok(s) => s,
        Err(e) => cat("Erreur : ", e.as_str()),
    }
}

/// The arguments of a `create_event` call.
pub struct CreateEventArgs {
    pub summary: String,
    pub start: String,
    pub end: String,
    pub description: String,
}

/// The arguments of a `create_event` call: title, start and end are required (reported in
/// that order), the description is empty when absent.
pub fn create_event_args(args: &Args) -> (r: Result<CreateEventArgs, String>)
    ensures
        args.arg("summary"@) is None ==> r is Err && r->Err_0@ == missing("summary"@),
        args.arg("summary"@) is Some && args.arg("start"@) is None ==> r is Err && r->Err_0@ == missing("start"@),
        args.arg("summary"@) is Some && args.arg("start"@) is Some && args.arg("end"@) is None
            ==> r is Err && r->Err_0@ == missing("end"@),
        r matches Ok(a) ==> Some(a.summary@) == args.arg("summary"@) && Some(a.start@) == args.arg("start"@)
            && Some(a.end@) == args.arg("end"@) && a.description@ == match args.arg("description"@) {
                Some(d) => d,
                None => Seq::empty(),
            },
        args.arg("summary"@) is Some && args.arg("start"@) is Some && args.arg("end"@) is Some ==> r is Ok,
{
    proof {
        reveal_strlit("");
        assert(""@ =~= Seq::<char>::empty());
    }
    let summary = match args.get("summary") {
        Some(v) => owned(v.as_str()),
        None => { return Err(cat("Missing argument: ", "summary")); },
    };
    let start = match args.get("start") {
        Some(v) => owned(v.as_str()),
        None => { return Err(cat("Missing argument: ", "start")); },
    };
    let end = match args.get("end") {
        Some(v) => owned(v.as_str()),
        None => { return Err(cat("Missing argument: ", "end")); },
    };
    let description = match args.get("description") {
        Some(v) => owned(v.as_str()),
        None => owned(""),
    };
    Ok(CreateEventArgs { summary, start, end, description })
}

/// The arguments of an `update_event` call.
pub struct UpdateEventArgs {
    pub event_id: String,
    pub summary: Option<String>,
    pub start: Option<String>,
    pub end: Option<String>,
}

/// The optional view of an optional string.
pub open spec fn opt_view(o: Option<String>) -> Option<Seq<char>> {
    match o {
        Some(s) => Some(s@),
        None => None,
    }
}

/// The arguments of an `update_event` call: the event id is required, the rest optional.
pub fn update_event_args(args: &Args) -> (r: Result<UpdateEventArgs, String>)
    ensures
        args.arg("event_id"@) is None ==> r is Err && r->Err_0@ == missing("event_id"@),
        args.arg("event_id"@) is Some ==> (r matches Ok(a) && Some(a.event_id@) == args.arg("event_id"@)
            && opt_view(a.summary) == args.arg("summary"@) && opt_view(a.start) == args.arg("start"@)
            && opt_view(a.end) == args.arg("end"@)),
{
    let event_id = match args.get("event_id") {
        Some(v) => owned(v.as_str()),
        None => { return Err(cat("Missing argument: ", "event_id")); },
    };
    Ok(UpdateEventArgs {
        event_id,
        summary: optional(args, "summary"),
        start: optional(args, "start"),
        end: optional(args, "end"),
    })
}

/// The message id and change of a `manage_email` call; the text handed back otherwise:
/// a missing argument (message id first), or `Erreur : Action inconnue : <action>`.
pub fn manage_email_args(args: &Args) -> (r: Result<(String, EmailAction), String>)
    ensures
        args.arg("message_id"@) is None ==> r is Err && r->Err_0@ == missing("message_id"@),
        args.arg("message_id"@) is Some && args.arg("action"@) is None ==> r is Err && r->Err_0@ == missing("action"@),
        args.arg("message_id"@) matches Some(id) ==> (args.arg("action"@) matches Some(a) ==> match r {
            Ok((mid, EmailAction::Labels { add, remove })) => mid@ == id
                && action_labels(a) == Some((views(add@), views(remove@))),
            Ok((mid, EmailAction::Trash)) => mid@ == id && a == "delete"@,
            Err(e) => action_labels(a) is None && a != "delete"@ && e@ == "Erreur : Action inconnue : "@ + a,
        }),
{
    let message_id = match args.get("message_id") {
        Some(v) => owned(v.as_str()),
        None => { return Err(cat("Missing argument: ", "message_id")); },
    };
    let action = match args.get("action") {
        Some(v) => v,
        None => { return Err(cat("Missing argument: ", "action")); },
    };
    match EmailAction::from_action(action.as_str()) {
        Ok(op) => Ok((message_id, op)),
        Err(e) => {
            proof {
                reveal_strlit("Erreur : ");
                reveal_strlit("Action inconnue : ");
                reveal_strlit("Erreur : Action inconnue : ");
                assert("Erreur : "@ + "Action inconnue : "@ =~= "Erreur : Action inconnue : "@);
            }
            let t = cat("Erreur : ", e.as_str());
            assert(t@ =~= "Erreur : Action inconnue : "@ + action@);
            Err(t)
        },
    }
}

} // verus!
