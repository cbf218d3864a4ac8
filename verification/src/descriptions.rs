//! The JSON descriptions of the tools handed to the model.
use crate::json::{Json, JsonV};
use crate::text::views;
use crate::tools::{owned_all, param_doc, param_view, tool, tool_json, ParamDoc};
use vstd::prelude::*;

verus! {

/// The description of the `morning_briefing` tool, as a value.
pub open spec fn morning_tool_json() -> JsonV {
    tool_json(
        "morning_briefing"@,
        "Generates and retrieves the full morning briefing (day's agenda, upcoming appointments, and important messages). To be used when the user asks for their wake-up call, agenda for the day, or briefing."@,
        Seq::empty(),
        Seq::empty(),
    )
}

/// The description of the `morning_briefing` tool.
pub fn morning_tool() -> (r: Json)
    ensures
        r@ == morning_tool_json(),
{
    let mut params: Vec<ParamDoc> = Vec::new();
    let required = owned_all(vec![]);
    let r = tool("morning_briefing", "Generates and retrieves the full morning briefing (day's agenda, upcoming appointments, and important messages). To be used when the user asks for their wake-up call, agenda for the day, or briefing.", &params, &required);
    assert(Seq::new(params@.len(), |i: int| param_view(params@[i])) =~~= Seq::empty());
    assert(views(required@) =~= Seq::empty());
    r
}

/// The description of the `open` tool, as a value.
pub open spec fn open_tool_json() -> JsonV {
    tool_json(
        "open"@,
        "Open an application on the computer with no specific content .(e.g. open a text editor, open a browser). Do NOT use this to play music or a specific song — use manage_music for that instead."@,
        seq![("app_name"@, "Name of the application to open"@, Seq::empty())],
        seq!["app_name"@],
    )
}

/// The description of the `open` tool.
pub fn open_tool() -> (r: Json)
    ensures
        r@ == open_tool_json(),
{
    let mut params: Vec<ParamDoc> = Vec::new();
    params.push(param_doc("app_name", "Name of the application to open", vec![]));
    let required = owned_all(vec!["app_name"]);
    let r = tool("open", "Open an application on the computer with no specific content .(e.g. open a text editor, open a browser). Do NOT use this to play music or a specific song — use manage_music for that instead.", &params, &required);
    assert(Seq::new(params@.len(), |i: int| param_view(params@[i])) =~~= seq![("app_name"@, "Name of the application to open"@, Seq::empty())]);
    assert(views(required@) =~= seq!["app_name"@]);
    r
}

/// The description of the `search` tool, as a value.
pub open spec fn search_tool_json() -> JsonV {
    tool_json(
        "search"@,
        "Search the web for current or recent factual information (news, facts, prices, general knowledge). Do NOT use this to play a song or artist — use manage_music for that instead, even if the request looks like 'find me a song' or names a track/artist."@,
        seq![("query"@, "The search query"@, Seq::empty())],
        seq!["query"@],
    )
}

/// The description of the `search` tool.
pub fn search_tool() -> (r: Json)
    ensures
        r@ == search_tool_json(),
{
    let mut params: Vec<ParamDoc> = Vec::new();
    params.push(param_doc("query", "The search query", vec![]));
    let required = owned_all(vec!["query"]);
    let r = tool("search", "Search the web for current or recent factual information (news, facts, prices, general knowledge). Do NOT use this to play a song or artist — use manage_music for that instead, even if the request looks like 'find me a song' or names a track/artist.", &params, &required);
    assert(Seq::new(params@.len(), |i: int| param_view(params@[i])) =~~= seq![("query"@, "The search query"@, Seq::empty())]);
    assert(views(required@) =~= seq!["query"@]);
    r
}

/// The description of the `create_event` tool, as a value.
pub open spec fn create_event_tool_json() -> JsonV {
    tool_json(
        "create_event"@,
        "Create a calendar event. Dates must be in RFC3339 format (e.g. 2026-08-15T14:00:00+02:00)."@,
        seq![("summary"@, "Event title"@, Seq::empty()), ("start"@, "Start datetime, RFC3339 format"@, Seq::empty()), ("end"@, "End datetime, RFC3339 format"@, Seq::empty()), ("description"@, "Optional event description"@, Seq::empty())],
        seq!["summary"@, "start"@, "end"@],
    )
}

/// The description of the `create_event` tool.
pub fn create_event_tool() -> (r: Json)
    ensures
        r@ == create_event_tool_json(),
{
    let mut params: Vec<ParamDoc> = Vec::new();
    params.push(param_doc("summary", "Event title", vec![]));
    params.push(param_doc("start", "Start datetime, RFC3339 format", vec![]));
    params.push(param_doc("end", "End datetime, RFC3339 format", vec![]));
    params.push(param_doc("description", "Optional event description", vec![]));
    let required = owned_all(vec!["summary", "start", "end"]);
    let r = tool("create_event", "Create a calendar event. Dates must be in RFC3339 format (e.g. 2026-08-15T14:00:00+02:00).", &params, &required);
    assert(Seq::new(params@.len(), |i: int| param_view(params@[i])) =~~= seq![("summary"@, "Event title"@, Seq::empty()), ("start"@, "Start datetime, RFC3339 format"@, Seq::empty()), ("end"@, "End datetime, RFC3339 format"@, Seq::empty()), ("description"@, "Optional event description"@, Seq::empty())]);
    assert(views(required@) =~= seq!["summary"@, "start"@, "end"@]);
    r
}

/// The description of the `delete_event` tool, as a value.
pub open spec fn delete_event_tool_json() -> JsonV {
    tool_json(
        "delete_event"@,
        "Permanently delete a calendar event. This action is irreversible."@,
        seq![("event_id"@, "ID of the event to delete (from list_events)"@, Seq::empty())],
        seq!["event_id"@],
    )
}

/// The description of the `delete_event` tool.
pub fn delete_event_tool() -> (r: Json)
    ensures
        r@ == delete_event_tool_json(),
{
    let mut params: Vec<ParamDoc> = Vec::new();
    params.push(param_doc("event_id", "ID of the event to delete (from list_events)", vec![]));
    let required = owned_all(vec!["event_id"]);
    let r = tool("delete_event", "Permanently delete a calendar event. This action is irreversible.", &params, &required);
    assert(Seq::new(params@.len(), |i: int| param_view(params@[i])) =~~= seq![("event_id"@, "ID of the event to delete (from list_events)"@, Seq::empty())]);
    assert(views(required@) =~= seq!["event_id"@]);
    r
}

/// The description of the `list_events` tool, as a value.
pub open spec fn list_events_tool_json() -> JsonV {
    tool_json(
        "list_events"@,
        "List upcoming calendar events."@,
        Seq::empty(),
        Seq::empty(),
    )
}

/// The description of the `list_events` tool.
pub fn list_events_tool() -> (r: Json)
    ensures
        r@ == list_events_tool_json(),
{
    let mut params: Vec<ParamDoc> = Vec::new();
    let required = owned_all(vec![]);
    let r = tool("list_events", "List upcoming calendar events.", &params, &required);
    assert(Seq::new(params@.len(), |i: int| param_view(params@[i])) =~~= Seq::empty());
    assert(views(required@) =~= Seq::empty());
    r
}

/// The description of the `update_event` tool, as a value.
pub open spec fn update_event_tool_json() -> JsonV {
    tool_json(
        "update_event"@,
        "Update an existing calendar event. Only provided fields are changed."@,
        seq![("event_id"@, "ID of the event (from list_events)"@, Seq::empty()), ("summary"@, "New title, optional"@, Seq::empty()), ("start"@, "New start datetime RFC3339, optional"@, Seq::empty()), ("end"@, "New end datetime RFC3339, optional"@, Seq::empty())],
        seq!["event_id"@],
    )
}

/// The description of the `update_event` tool.
pub fn update_event_tool() -> (r: Json)
    ensures
        r@ == update_event_tool_json(),
{
    let mut params: Vec<ParamDoc> = Vec::new();
    params.push(param_doc("event_id", "ID of the event (from list_events)", vec![]));
    params.push(param_doc("summary", "New title, optional", vec![]));
    params.push(param_doc("start", "New start datetime RFC3339, optional", vec![]));
    params.push(param_doc("end", "New end datetime RFC3339, optional", vec![]));
    let required = owned_all(vec!["event_id"]);
    let r = tool("update_event", "Update an existing calendar event. Only provided fields are changed.", &params, &required);
    assert(Seq::new(params@.len(), |i: int| param_view(params@[i])) =~~= seq![("event_id"@, "ID of the event (from list_events)"@, Seq::empty()), ("summary"@, "New title, optional"@, Seq::empty()), ("start"@, "New start datetime RFC3339, optional"@, Seq::empty()), ("end"@, "New end datetime RFC3339, optional"@, Seq::empty())]);
    assert(views(required@) =~= seq!["event_id"@]);
    r
}

/// The description of the `draft_reply` tool, as a value.
pub open spec fn draft_reply_tool_json() -> JsonV {
    tool_json(
        "draft_reply"@,
        "Create a DRAFT reply to an email. This NEVER sends the email — it only saves a draft for the user to review and send manually."@,
        seq![("message_id"@, "ID of the email to reply to (from list_unread_emails or search_emails)"@, Seq::empty()), ("to"@, "Recipient email address"@, Seq::empty()), ("subject"@, "Reply subject"@, Seq::empty()), ("body"@, "Reply body content"@, Seq::empty())],
        seq!["message_id"@, "to"@, "subject"@, "body"@],
    )
}

/// The description of the `draft_reply` tool.
pub fn draft_reply_tool() -> (r: Json)
    ensures
        r@ == draft_reply_tool_json(),
{
    let mut params: Vec<ParamDoc> = Vec::new();
    params.push(param_doc("message_id", "ID of the email to reply to (from list_unread_emails or search_emails)", vec![]));
    params.push(param_doc("to", "Recipient email address", vec![]));
    params.push(param_doc("subject", "Reply subject", vec![]));
    params.push(param_doc("body", "Reply body content", vec![]));
    let required = owned_all(vec!["message_id", "to", "subject", "body"]);
    let r = tool("draft_reply", "Create a DRAFT reply to an email. This NEVER sends the email — it only saves a draft for the user to review and send manually.", &params, &required);
    assert(Seq::new(params@.len(), |i: int| param_view(params@[i])) =~~= seq![("message_id"@, "ID of the email to reply to (from list_unread_emails or search_emails)"@, Seq::empty()), ("to"@, "Recipient email address"@, Seq::empty()), ("subject"@, "Reply subject"@, Seq::empty()), ("body"@, "Reply body content"@, Seq::empty())]);
    assert(views(required@) =~= seq!["message_id"@, "to"@, "subject"@, "body"@]);
    r
}

/// The description of the `list_unread_emails` tool, as a value.
pub open spec fn list_unread_emails_tool_json() -> JsonV {
    tool_json(
        "list_unread_emails"@,
        "List unread emails in the inbox."@,
        Seq::empty(),
        Seq::empty(),
    )
}

/// The description of the `list_unread_emails` tool.
pub fn list_unread_emails_tool() -> (r: Json)
    ensures
        r@ == list_unread_emails_tool_json(),
{
    let mut params: Vec<ParamDoc> = Vec::new();
    let required = owned_all(vec![]);
    let r = tool("list_unread_emails", "List unread emails in the inbox.", &params, &required);
    assert(Seq::new(params@.len(), |i: int| param_view(params@[i])) =~~= Seq::empty());
    assert(views(required@) =~= Seq::empty());
    r
}

/// The description of the `manage_email` tool, as a value.
pub open spec fn manage_email_tool_json() -> JsonV {
    tool_json(
        "manage_email"@,
        "Modify an email's status: mark as read/unread, star/unstar, archive (remove from inbox), or delete (move to trash, recoverable for 30 days). Never sends or permanently deletes an email."@,
        seq![("message_id"@, "ID of the email (from list_unread_emails or search_emails)"@, Seq::empty()), ("action"@, "Action to perform on the email"@, seq!["mark_read"@, "mark_unread"@, "star"@, "unstar"@, "archive"@, "delete"@])],
        seq!["message_id"@, "action"@],
    )
}

/// The description of the `manage_email` tool.
pub fn manage_email_tool() -> (r: Json)
    ensures
        r@ == manage_email_tool_json(),
{
    let mut params: Vec<ParamDoc> = Vec::new();
    params.push(param_doc("message_id", "ID of the email (from list_unread_emails or search_emails)", vec![]));
    params.push(param_doc("action", "Action to perform on the email", vec!["mark_read", "mark_unread", "star", "unstar", "archive", "delete"]));
    assert(param_view(params@[params@.len() - 1]).2 =~= seq!["mark_read"@, "mark_unread"@, "star"@, "unstar"@, "archive"@, "delete"@]);
    let required = owned_all(vec!["message_id", "action"]);
    let r = tool("manage_email", "Modify an email's status: mark as read/unread, star/unstar, archive (remove from inbox), or delete (move to trash, recoverable for 30 days). Never sends or permanently deletes an email.", &params, &required);
    assert(Seq::new(params@.len(), |i: int| param_view(params@[i])) =~~= seq![("message_id"@, "ID of the email (from list_unread_emails or search_emails)"@, Seq::empty()), ("action"@, "Action to perform on the email"@, seq!["mark_read"@, "mark_unread"@, "star"@, "unstar"@, "archive"@, "delete"@])]);
    assert(views(required@) =~= seq!["message_id"@, "action"@]);
    r
}

/// The description of the `search_emails` tool, as a value.
pub open spec fn search_emails_tool_json() -> JsonV {
    tool_json(
        "search_emails"@,
        "Search emails using Gmail search syntax (e.g. 'from:x@y.com', 'subject:invoice', 'after:2026/01/01')."@,
        seq![("query"@, "Gmail search query"@, Seq::empty())],
        seq!["query"@],
    )
}

/// The description of the `search_emails` tool.
pub fn search_emails_tool() -> (r: Json)
    ensures
        r@ == search_emails_tool_json(),
{
    let mut params: Vec<ParamDoc> = Vec::new();
    params.push(param_doc("query", "Gmail search query", vec![]));
    let required = owned_all(vec!["query"]);
    let r = tool("search_emails", "Search emails using Gmail search syntax (e.g. 'from:x@y.com', 'subject:invoice', 'after:2026/01/01').", &params, &required);
    assert(Seq::new(params@.len(), |i: int| param_view(params@[i])) =~~= seq![("query"@, "Gmail search query"@, Seq::empty())]);
    assert(views(required@) =~= seq!["query"@]);
    r
}

/// The description of the `manage_music` tool, as a value.
pub open spec fn manage_music_tool_json() -> JsonV {
    tool_json(
        "manage_music"@,
        "Control Spotify music playback: play a specific song or artist, pause, resume, or skip tracks. Use this tool whenever the user asks to play, launch, start, or listen to a song, artist, or music — even if they say 'lance' or 'ouvre' a song. Do NOT use the 'open' tool for playing music."@,
        seq![("action"@, "Action to perform"@, seq!["play"@, "pause"@, "next"@, "search_and_play"@]), ("query"@, "Song title and/or artist to search, required only for search_and_play"@, Seq::empty())],
        seq!["action"@],
    )
}

/// The description of the `manage_music` tool.
pub fn manage_music_tool() -> (r: Json)
    ensures
        r@ == manage_music_tool_json(),
{
    let mut params: Vec<ParamDoc> = Vec::new();
    params.push(param_doc("action", "Action to perform", vec!["play", "pause", "next", "search_and_play"]));
    assert(param_view(params@[params@.len() - 1]).2 =~= seq!["play"@, "pause"@, "next"@, "search_and_play"@]);
    params.push(param_doc("query", "Song title and/or artist to search, required only for search_and_play", vec![]));
    let required = owned_all(vec!["action"]);
    let r = tool("manage_music", "Control Spotify music playback: play a specific song or artist, pause, resume, or skip tracks. Use this tool whenever the user asks to play, launch, start, or listen to a song, artist, or music — even if they say 'lance' or 'ouvre' a song. Do NOT use the 'open' tool for playing music.", &params, &required);
    assert(Seq::new(params@.len(), |i: int| param_view(params@[i])) =~~= seq![("action"@, "Action to perform"@, seq!["play"@, "pause"@, "next"@, "search_and_play"@]), ("query"@, "Song title and/or artist to search, required only for search_and_play"@, Seq::empty())]);
    assert(views(required@) =~= seq!["action"@]);
    r
}

/// The description of the `quit` tool, as a value.
pub open spec fn quit_tool_json() -> JsonV {
    tool_json(
        "quit"@,
        "Exit the assistant application."@,
        Seq::empty(),
        Seq::empty(),
    )
}

/// The description of the `quit` tool.
pub fn quit_tool() -> (r: Json)
    ensures
        r@ == quit_tool_json(),
{
    let mut params: Vec<ParamDoc> = Vec::new();
    let required = owned_all(vec![]);
    let r = tool("quit", "Exit the assistant application.", &params, &required);
    assert(Seq::new(params@.len(), |i: int| param_view(params@[i])) =~~= Seq::empty());
    assert(views(required@) =~= Seq::empty());
    r
}

/// The description of the `time` tool, as a value.
pub open spec fn time_tool_json() -> JsonV {
    tool_json(
        "time"@,
        "Get the current time in Paris."@,
        Seq::empty(),
        Seq::empty(),
    )
}

/// The description of the `time` tool.
pub fn time_tool() -> (r: Json)
    ensures
        r@ == time_tool_json(),
{
    let mut params: Vec<ParamDoc> = Vec::new();
    let required = owned_all(vec![]);
    let r = tool("time", "Get the current time in Paris.", &params, &required);
    assert(Seq::new(params@.len(), |i: int| param_view(params@[i])) =~~= Seq::empty());
    assert(views(required@) =~= Seq::empty());
    r
}

/// The description of the `weather` tool, as a value.
pub open spec fn weather_tool_json() -> JsonV {
    tool_json(
        "weather"@,
        "Get the current or forecasted weather for a given city."@,
        seq![("date"@, "Date in YYYY-MM-DD format, or 'now' for current weather"@, Seq::empty()), ("city"@, "Name of the city"@, Seq::empty())],
        seq!["date"@, "city"@],
    )
}

/// The description of the `weather` tool.
pub fn weather_tool() -> (r: Json)
    ensures
        r@ == weather_tool_json(),
{
    let mut params: Vec<ParamDoc> = Vec::new();
    params.push(param_doc("date", "Date in YYYY-MM-DD format, or 'now' for current weather", vec![]));
    params.push(param_doc("city", "Name of the city", vec![]));
    let required = owned_all(vec!["date", "city"]);
    let r = tool("weather", "Get the current or forecasted weather for a given city.", &params, &required);
    assert(Seq::new(params@.len(), |i: int| param_view(params@[i])) =~~= seq![("date"@, "Date in YYYY-MM-DD format, or 'now' for current weather"@, Seq::empty()), ("city"@, "Name of the city"@, Seq::empty())]);
    assert(views(required@) =~= seq!["date"@, "city"@]);
    r
}

} // verus!
