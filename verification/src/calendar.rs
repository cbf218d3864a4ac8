//! Google Calendar: reading the upcoming events, the bodies of create and update requests, and
//! the texts handed back to the model.
use crate::gmail::{array_at, array_at_exec, str_at_or};
use crate::json::{at, members_of, str_of, str_or, views_of, Json, JsonV};
use crate::text::{failure, failure_text, join, joined, owned, push_str, u64_to_string, decimal, views};
use vstd::prelude::*;

verus! {

/// An upcoming event.
pub struct CalendarEvent {
    pub id: String,
    pub summary: String,
    pub start: String,
    pub end: String,
}

/// The time of an event boundary: `dateTime`, else `date`, else empty.
pub open spec fn boundary(b: JsonV) -> Seq<char> {
    match str_of(at(b, "dateTime"@)) {
        Some(t) => t,
        None => str_or(at(b, "date"@), Seq::empty()),
    }
}

/// The event read from an item of an events list.
pub open spec fn event_matches(e: CalendarEvent, item: JsonV) -> bool {
    &&& e.id@ == str_or(at(item, "id"@), Seq::empty())
    &&& e.summary@ == str_or(at(item, "summary"@), "(sans titre)"@)
    &&& e.start@ == boundary(at(item, "start"@))
    &&& e.end@ == boundary(at(item, "end"@))
}

fn boundary_exec(item: &Json, key: &str) -> (r: String)
    ensures
        r@ == boundary(at(item@, key@)),
{
    proof {
        reveal_strlit("");
        assert(""@ =~= Seq::<char>::empty());
    }
    match item.get(key) {
        Some(b) => match b.get("dateTime") {
            Some(t) => match t.as_str() {
                Some(s) => owned(s.as_str()),
                None => str_at_or(b, "date", ""),
            },
            None => str_at_or(b, "date", ""),
        },
        None => {
            let n = Json::Null;
            str_at_or(&n, "date", "")
        },
    }
}

impl CalendarEvent {
    /// The upcoming events of an events list answer (`items`), in order: a missing id or time
    /// becomes empty and a missing title `(sans titre)`.
    pub fn list_from(body: &Json) -> (r: Vec<CalendarEvent>)
        ensures
            r@.len() == array_at(body@, "items"@).len(),
            forall|i: int| 0 <= i < r@.len() ==> event_matches(#[trigger] r@[i], array_at(body@, "items"@)[i]),
    {
        proof {
            reveal_strlit("");
            assert(""@ =~= Seq::<char>::empty());
        }
        let mut out: Vec<CalendarEvent> = Vec::new();
        match array_at_exec(body, "items") {
            Some(items) => {
                let mut i: usize = 0;
                while i < items.len()
                    invariant
                        array_at(body@, "items"@) == views_of(items@),
                        i <= items@.len(),
                        out@.len() == i,
                        ""@ == Seq::<char>::empty(),
                        forall|j: int| 0 <= j < i ==> event_matches(#[trigger] out@[j], items@[j]@),
                    decreases items@.len() - i,
                {
                    let it = &items[i];
                    out.push(CalendarEvent {
                        id: str_at_or(it, "id", ""),
                        summary: str_at_or(it, "summary", "(sans titre)"),
                        start: boundary_exec(it, "start"),
                        end: boundary_exec(it, "end"),
                    });
                    i = i + 1;
                }
            },
            None => {},
        }
        out
    }
}

/// The query of an events list: upcoming single events from `now`, by start time.
pub fn list_params(max_results: u32, now: &str) -> (r: Vec<(String, String)>)
    ensures
        r@.len() == 4,
        r@[0].0@ == "timeMin"@ && r@[0].1@ == now@,
        r@[1].0@ == "maxResults"@ && r@[1].1@ == decimal(max_results as nat),
        r@[2].0@ == "singleEvents"@ && r@[2].1@ == "true"@,
        r@[3].0@ == "orderBy"@ && r@[3].1@ == "startTime"@,
{
    let mut r: Vec<(String, String)> = Vec::new();
    r.push((owned("timeMin"), owned(now)));
    r.push((owned("maxResults"), u64_to_string(max_results as u64)));
    r.push((owned("singleEvents"), owned("true")));
    r.push((owned("orderBy"), owned("startTime")));
    r
}

/// `{"dateTime": t}`.
pub open spec fn date_time_v(t: Seq<char>) -> JsonV {
    JsonV::Object(seq![("dateTime"@, JsonV::Str(t))])
}

fn date_time(t: &str) -> (r: Json)
    ensures
        r@ == date_time_v(t@),
{
    let mut m: Vec<(String, Json)> = Vec::new();
    m.push((owned("dateTime"), Json::text(t)));
    let r = Json::object(m);
    assert(members_of(m@) =~= seq![("dateTime"@, JsonV::Str(t@))]);
    r
}

/// The body of an event creation.
pub fn create_request(summary: &str, start: &str, end: &str, description: &str) -> (r: Json)
    ensures
        r@ == JsonV::Object(seq![
            ("summary"@, JsonV::Str(summary@)),
            ("description"@, JsonV::Str(description@)),
            ("start"@, date_time_v(start@)),
            ("end"@, date_time_v(end@)),
        ]),
{
    let mut m: Vec<(String, Json)> = Vec::new();
    m.push((owned("summary"), Json::text(summary)));
    m.push((owned("description"), Json::text(description)));
    let s = date_time(start);
    let e = date_time(end);
    m.push((owned("start"), s));
    m.push((owned("end"), e));
    let r = Json::object(m);
    assert(members_of(m@) =~= seq![
        ("summary"@, JsonV::Str(summary@)),
        ("description"@, JsonV::Str(description@)),
        ("start"@, date_time_v(start@)),
        ("end"@, date_time_v(end@)),
    ]);
    r
}

/// The members of an event update: only the given fields, in the order title, start, end.
pub open spec fn update_members(summary: Option<Seq<char>>, start: Option<Seq<char>>, end: Option<Seq<char>>) -> Seq<(Seq<char>, JsonV)> {
    let a: Seq<(Seq<char>, JsonV)> = match summary {
        Some(s) => seq![("summary"@, JsonV::Str(s))],
        None => Seq::empty(),
    };
    let b = match start {
        Some(s) => a.push(("start"@, date_time_v(s))),
        None => a,
    };
    match end {
        Some(e) => b.push(("end"@, date_time_v(e))),
        None => b,
    }
}

/// An update carries exactly the fields it is given: a given title is the member
/// `"summary": title`, a given start or end the member `"start"` or `"end"` holding
/// `{"dateTime": time}`; a field not given has no member, and there is one member per given field.
pub proof fn lemma_update_carries_given_fields(
    summary: Option<Seq<char>>,
    start: Option<Seq<char>>,
    end: Option<Seq<char>>,
)
    ensures
        ({
            let m = update_members(summary, start, end);
            &&& summary matches Some(s) ==> m.contains(("summary"@, JsonV::Str(s)))
            &&& start matches Some(s) ==> m.contains(
                ("start"@, JsonV::Object(seq![("dateTime"@, JsonV::Str(s))])),
            )
            &&& end matches Some(e) ==> m.contains(
                ("end"@, JsonV::Object(seq![("dateTime"@, JsonV::Str(e))])),
            )
            &&& summary is None ==> forall|i: int| 0 <= i < m.len() ==> (#[trigger] m[i]).0 != "summary"@
            &&& start is None ==> forall|i: int| 0 <= i < m.len() ==> (#[trigger] m[i]).0 != "start"@
            &&& end is None ==> forall|i: int| 0 <= i < m.len() ==> (#[trigger] m[i]).0 != "end"@
            &&& m.len() == (if summary is Some { 1int } else { 0int }) + (if start is Some { 1int } else { 0int })
                + (if end is Some { 1int } else { 0int })
        }),
{
    reveal_strlit("summary");
    reveal_strlit("start");
    reveal_strlit("end");
    let m = update_members(summary, start, end);
    let a: Seq<(Seq<char>, JsonV)> = match summary {
        Some(s) => seq![("summary"@, JsonV::Str(s))],
        None => Seq::empty(),
    };
    let b = match start {
        Some(s) => a.push(("start"@, date_time_v(s))),
        None => a,
    };
    assert("summary"@ != "start"@) by {
        assert("summary"@[1] != "start"@[1]);
    }
    assert("summary"@ != "end"@) by {
        assert("summary"@.len() != "end"@.len());
    }
    assert("start"@ != "end"@) by {
        assert("start"@.len() != "end"@.len());
    }
    if let Some(s) = summary {
        assert(m[0] == ("summary"@, JsonV::Str(s)));
    }
    if let Some(s) = start {
        assert(m[a.len() as int] == ("start"@, JsonV::Object(seq![("dateTime"@, JsonV::Str(s))])));
    }
    if let Some(e) = end {
        assert(m[b.len() as int] == ("end"@, JsonV::Object(seq![("dateTime"@, JsonV::Str(e))])));
    }
}

/// The optional view of an optional string slice.
pub open spec fn opt_str(o: Option<&str>) -> Option<Seq<char>> {
    match o {
        Some(s) => Some(s@),
        None => None,
    }
}

/// The body of an event update.
pub fn update_request(summary: Option<&str>, start: Option<&str>, end: Option<&str>) -> (r: Json)
    ensures
        r@ == JsonV::Object(update_members(opt_str(summary), opt_str(start), opt_str(end))),
{
    let mut m: Vec<(String, Json)> = Vec::new();
    match summary {
        Some(s) => m.push((owned("summary"), Json::text(s))),
        None => {},
    }
    match start {
        Some(s) => {
            let d = date_time(s);
            m.push((owned("start"), d));
        },
        None => {},
    }
    match end {
        Some(e) => {
            let d = date_time(e);
            m.push((owned("end"), d));
        },
        None => {},
    }
    let r = Json::object(m);
    assert(members_of(m@) =~= update_members(opt_str(summary), opt_str(start), opt_str(end)));
    r
}

/// What an event creation's answer is reported as.
pub fn create_outcome(success: bool, summary: &str, status: &str, err_body: &str) -> (r: Result<String, String>)
    ensures
        success ==> r is Ok && r->Ok_0@ == "Événement '"@ + summary@ + "' créé."@,
        !success ==> r is Err && r->Err_0@ == failure_text("Échec création"@, status@, err_body@),
{
    if success {
        let mut m = owned("Événement '");
        push_str(&mut m, summary);
        push_str(&mut m, "' créé.");
        Ok(m)
    } else {
        Err(failure("Échec création", status, err_body))
    }
}

/// What an event update's answer is reported as.
pub fn update_outcome(success: bool, status: &str, err_body: &str) -> (r: Result<String, String>)
    ensures
        success ==> r is Ok && r->Ok_0@ == "Événement mis à jour."@,
        !success ==> r is Err && r->Err_0@ == failure_text("Échec mise à jour"@, status@, err_body@),
{
    if success {
        Ok(owned("Événement mis à jour."))
    } else {
        Err(failure("Échec mise à jour", status, err_body))
    }
}

/// What an event deletion's answer is reported as.
pub fn delete_outcome(success: bool, status: &str, err_body: &str) -> (r: Result<String, String>)
    ensures
        success ==> r is Ok && r->Ok_0@ == "Événement supprimé."@,
        !success ==> r is Err && r->Err_0@ == failure_text("Échec suppression"@, status@, err_body@),
{
    if success {
        Ok(owned("Événement supprimé."))
    } else {
        Err(failure("Échec suppression", status, err_body))
    }
}

/// The way an event is written on a line.
pub enum EventStyle {
    /// `[id] summary — de start à end` (the event list tool).
    Listing,
    /// `- summary (from start to end)` (the morning briefing).
    Briefing,
    /// `- [id] summary (Start: start, End: end)` (the calendar watcher).
    Watch,
}

/// One event on a line, in a style.
pub open spec fn event_line(style: EventStyle, e: CalendarEvent) -> Seq<char> {
    match style {
        EventStyle::Listing => "["@ + e.id@ + "] "@ + e.summary@ + " — de "@ + e.start@ + " à "@ + e.end@,
        EventStyle::Briefing => "- "@ + e.summary@ + " (from "@ + e.start@ + " to "@ + e.end@ + ")"@,
        EventStyle::Watch => "- ["@ + e.id@ + "] "@ + e.summary@ + " (Start: "@ + e.start@ + ", End: "@ + e.end@ + ")"@,
    }
}

/// Events one per line, in a style.
pub open spec fn event_lines(style: EventStyle, events: Seq<CalendarEvent>) -> Seq<char> {
    joined(Seq::new(events.len(), |i: int| event_line(style, events[i])), "\n"@)
}

fn line_of(style: &EventStyle, e: &CalendarEvent) -> (r: String)
    ensures
        r@ == event_line(*style, *e),
{
    match style {
        EventStyle::Listing => {
            let mut l = owned("[");
            push_str(&mut l, e.id.as_str());
            push_str(&mut l, "] ");
            push_str(&mut l, e.summary.as_str());
            push_str(&mut l, " — de ");
            push_str(&mut l, e.start.as_str());
            push_str(&mut l, " à ");
            push_str(&mut l, e.end.as_str());
            l
        },
        EventStyle::Briefing => {
            let mut l = owned("- ");
            push_str(&mut l, e.summary.as_str());
            push_str(&mut l, " (from ");
            push_str(&mut l, e.start.as_str());
            push_str(&mut l, " to ");
            push_str(&mut l, e.end.as_str());
            push_str(&mut l, ")");
            l
        },
        EventStyle::Watch => {
            let mut l = owned("- [");
            push_str(&mut l, e.id.as_str());
            push_str(&mut l, "] ");
            push_str(&mut l, e.summary.as_str());
            push_str(&mut l, " (Start: ");
            push_str(&mut l, e.start.as_str());
            push_str(&mut l, ", End: ");
            push_str(&mut l, e.end.as_str());
            push_str(&mut l, ")");
            l
        },
    }
}

/// Events one per line, in a style.
pub fn format_events(style: &EventStyle, events: &Vec<CalendarEvent>) -> (r: String)
    ensures
        r@ == event_lines(*style, events@),
{
    let mut lines: Vec<String> = Vec::new();
    let mut i: usize = 0;
    while i < events.len()
        invariant
            i <= events@.len(),
            lines@.len() == i,
            forall|j: int| 0 <= j < i ==> (#[trigger] lines@[j])@ == event_line(*style, events@[j]),
        decreases events@.len() - i,
    {
        lines.push(line_of(style, &events[i]));
        i = i + 1;
    }
    assert(views(lines@) =~= Seq::new(events@.len(), |k: int| event_line(*style, events@[k])));
    join(&lines, "\n")
}

/// The text of the event list tool: one event per line, or `Aucun événement à venir.`.
pub fn events_listing(events: &Vec<CalendarEvent>) -> (r: String)
    ensures
        events@.len() == 0 ==> r@ == "Aucun événement à venir."@,
        events@.len() > 0 ==> r@ == event_lines(EventStyle::Listing, events@),
{
    if events.len() == 0 {
        owned("Aucun événement à venir.")
    } else {
        format_events(&EventStyle::Listing, events)
    }
}

} // verus!
