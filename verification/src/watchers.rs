//! Watchers: what the mail and calendar observers hand to the assistant, and which of the
//! assistant's answers become notifications.
use crate::calendar::{event_lines, format_events, CalendarEvent, EventStyle};
use crate::gmail::EmailDetail;
use crate::text::{
    cat, contains, contains_word, has_sub, has_word, lowercase, owned, push_str, str_eq, to_lowercase, trim, trimmed,
    views,
};
use vstd::prelude::*;

verus! {

/// An incident seen by a watcher, handed to the assistant for assessment.
pub struct WatcherEvent {
    pub source: String,
    /// The text given to the model.
    pub context: String,
}

/// The prompt that hands a watcher's event to the assistant: its source, its context and the watcher's own instructions, then the general guidelines.
pub open spec fn observation_prompt_text(source: Seq<char>, context: Seq<char>, instructions: Seq<char>) -> Seq<char> {
    "AUTOMATED OBSERVATION (source: "@ + source + ").\n\n[EVENT CONTEXT]\n"@ + context + "\n\n[SPECIFIC OBSERVER INSTRUCTIONS]\n"@ + instructions + "\n\n[GENERAL PROCESSING GUIDELINES]\n1. Analyze the event above. Feel free to use your investigative tools (calendar, memory, notes, etc.) to verify whether this event requires your attention or action.\n2. If concrete action is required (e.g., replying, blocking a time slot), carry it out using the appropriate tool.\n3. If no action is necessary after verification, do not trigger any unnecessary action tools.\n4. ALWAYS conclude with a brief response (1–2 sentences max) summarizing what you have verified, cross-referenced, or accomplished, to serve as a notification to the user. Example:\n'Team seminar on August 28: Confirmation draft prepared (lunch attendance included). Awaiting your instruction to send.'"@
}

/// The prompt that hands a watcher's event to the assistant.
pub fn observation_prompt(source: &str, context: &str, instructions: &str) -> (r: String)
    ensures
        r@ == observation_prompt_text(source@, context@, instructions@),
{
    let mut r = String::new();
    push_str(&mut r, "AUTOMATED OBSERVATION (source: ");
    push_str(&mut r, source);
    push_str(&mut r, ").\n\n[EVENT CONTEXT]\n");
    push_str(&mut r, context);
    push_str(&mut r, "\n\n[SPECIFIC OBSERVER INSTRUCTIONS]\n");
    push_str(&mut r, instructions);
    push_str(&mut r, "\n\n[GENERAL PROCESSING GUIDELINES]\n1. Analyze the event above. Feel free to use your investigative tools (calendar, memory, notes, etc.) to verify whether this event requires your attention or action.\n2. If concrete action is required (e.g., replying, blocking a time slot), carry it out using the appropriate tool.\n3. If no action is necessary after verification, do not trigger any unnecessary action tools.\n4. ALWAYS conclude with a brief response (1–2 sentences max) summarizing what you have verified, cross-referenced, or accomplished, to serve as a notification to the user. Example:\n'Team seminar on August 28: Confirmation draft prepared (lunch attendance included). Awaiting your instruction to send.'");
    assert(r@ =~= observation_prompt_text(source@, context@, instructions@));
    r
}

/// The calendar watcher's instructions.
pub open spec fn calendar_instructions() -> Seq<char> {
    "ROLE: You are Alfred. You must act like a proper butler / personal assistant.\n\n        STRICT GUIDELINES:\n        1. Review the incoming events. Your role is SOLELY to:\n        - Detect any event starting VERY SOON (within the next 6 hours) to issue a brief reminder.\n        - Detect any strict CONFLICT OR OVERLAP between two events.\n\n        2. SILENCE RULE (CRITICAL):\n        - If all events are routine, not imminent, and conflict-free, REPLY ONLY WITH THE WORD: 'RAS'.\n        - Do NOT make comments like 'Everything is fine', 'Clear schedule', or 'No overlaps'. Remain silent.\n\n        3. REMINDER FORMAT (If applicable)\n        - Be extremely concise (1 sentence).\n        - Example: 'Reminder: Your meeting with Polar starts at 2:00 PM.'\n        - Conflict example: 'Alert: Conflict at 2:00 PM between the Polar appointment and the Client Meeting.'"@
}

/// The calendar watcher's instructions.
fn calendar_prompt_text() -> (r: String)
    ensures
        r@ == calendar_instructions(),
{
    let mut r = String::new();
    push_str(&mut r, "ROLE: You are Alfred. You must act like a proper butler / personal assistant.\n\n        STRICT GUIDELINES:\n        1. Review the incoming events. Your role is SOLELY to:\n        - Detect any event starting VERY SOON (within the next 6 hours) to issue a brief reminder.\n        - Detect any strict CONFLICT OR OVERLAP between two events.\n\n        2. SILENCE RULE (CRITICAL):\n        - If all events are routine, not imminent, and conflict-free, REPLY ONLY WITH THE WORD: 'RAS'.\n        - Do NOT make comments like 'Everything is fine', 'Clear schedule', or 'No overlaps'. Remain silent.\n\n        3. REMINDER FORMAT (If applicable)\n        - Be extremely concise (1 sentence).\n        - Example: 'Reminder: Your meeting with Polar starts at 2:00 PM.'\n        - Conflict example: 'Alert: Conflict at 2:00 PM between the Polar appointment and the Client Meeting.'");
    assert(r@ =~= calendar_instructions());
    r
}

/// The mail watcher's instructions.
pub open spec fn gmail_instructions() -> Seq<char> {
    "Specific instructions for email management:\n\n        1. INVESTIGATION AND VERIFICATION:\n        - Determine the main subject of the message (invitation, appointment, project question, task follow-up, etc.).\n        - Use your reference tools (calendar, memory, notes, etc.) to check availability and context before deciding on or preparing a response.\n\n        2. RESPONSE AND SILENCE ('RAS') RULES:\n        - If the email is a NEWSLETTER, a PROMOTION (H&M, KFC, etc.), an APP NOTIFICATION (Google, Tiktok, etc.), an AUTOMATED ALERT, or a message requiring NO human response:\n        RESPOND ONLY WITH THE WORD: 'RAS'\n        - Do NOT generate comments such as 'No action required', 'Promotional email', or 'Draft not necessary'.\n\n        3. ACTION FOR IMPORTANT HUMAN MESSAGES:\n        - Prepare a response via 'draft_reply' ONLY if the email comes from a human expecting a genuine reply or action.\n        - NEVER use 'draft_reply' for 'no-reply' emails, security alerts, or social media notifications.\n        - If a draft is required, enrich it with precise data found via your tools (e.g., your free time slots, project status).\n        - Write a summary in French (max. 2 sentences) stating the event and confirming that the draft is ready for validation."@
}

/// The mail watcher's instructions.
fn gmail_prompt_text() -> (r: String)
    ensures
        r@ == gmail_instructions(),
{
    let mut r = String::new();
    push_str(&mut r, "Specific instructions for email management:\n\n        1. INVESTIGATION AND VERIFICATION:\n        - Determine the main subject of the message (invitation, appointment, project question, task follow-up, etc.).\n        - Use your reference tools (calendar, memory, notes, etc.) to check availability and context before deciding on or preparing a response.\n\n        2. RESPONSE AND SILENCE ('RAS') RULES:\n        - If the email is a NEWSLETTER, a PROMOTION (H&M, KFC, etc.), an APP NOTIFICATION (Google, Tiktok, etc.), an AUTOMATED ALERT, or a message requiring NO human response:\n        RESPOND ONLY WITH THE WORD: 'RAS'\n        - Do NOT generate comments such as 'No action required', 'Promotional email', or 'Draft not necessary'.\n\n        3. ACTION FOR IMPORTANT HUMAN MESSAGES:\n        - Prepare a response via 'draft_reply' ONLY if the email comes from a human expecting a genuine reply or action.\n        - NEVER use 'draft_reply' for 'no-reply' emails, security alerts, or social media notifications.\n        - If a draft is required, enrich it with precise data found via your tools (e.g., your free time slots, project status).\n        - Write a summary in French (max. 2 sentences) stating the event and confirming that the draft is ready for validation.");
    assert(r@ =~= gmail_instructions());
    r
}

/// The notification that a watcher's answer gives: the answer trimmed, unless it is empty or
/// holds the word `ras` (the assistant's "nothing to report") in any case.
pub open spec fn notification_of(answer: Seq<char>) -> Option<Seq<char>> {
    let t = trimmed(answer);
    if t.len() > 0 && !has_word(t, "ras"@) {
        Some(t)
    } else {
        None
    }
}

/// Runs the watchers and turns their events into notifications.
pub struct WatcherScheduler;

/// A watcher: its name and its instructions to the assistant.
pub trait Watcher {
    fn name(&self) -> String;

    fn prompt(&self) -> String;
}

impl WatcherScheduler {
    /// The prompt that hands a watcher's event to the assistant.
    pub fn prompt_for(event: &WatcherEvent, instructions: &str) -> (r: String)
        ensures
            r@ == observation_prompt_text(event.source@, event.context@, instructions@),
    {
        observation_prompt(event.source.as_str(), event.context.as_str(), instructions)
    }

/// The notification that a watcher's answer gives, if any.
pub fn notification_text(answer: &str) -> (r: Option<String>)
    ensures
        match r {
            Some(t) => notification_of(answer@) == Some(t@),
            None => notification_of(answer@) is None,
        },
{
    let t = trim(answer);
    if t.unicode_len() > 0 && !contains_word(t.as_str(), "ras") {
        Some(t)
    } else {
        None
    }
}
}

/// The calendar watcher.
pub struct CalendarWatcher;

/// The context of the calendar watcher's event.
pub open spec fn calendar_context(events: Seq<CalendarEvent>) -> Seq<char> {
    "Here are the upcoming events listed in the calendar. :\n\n"@ + event_lines(EventStyle::Watch, events)
}

impl Watcher for CalendarWatcher {
    fn name(&self) -> (r: String)
        ensures
            r@ == "calendar"@,
    {
        owned("calendar")
    }

    fn prompt(&self) -> (r: String)
        ensures
            r@ == calendar_instructions(),
    {
        calendar_prompt_text()
    }
}

impl Watcher for GmailWatcher {
    fn name(&self) -> (r: String)
        ensures
            r@ == "gmail"@,
    {
        owned("gmail")
    }

    fn prompt(&self) -> (r: String)
        ensures
            r@ == gmail_instructions(),
    {
        gmail_prompt_text()
    }
}

impl CalendarWatcher {
    /// What the watcher reports for the upcoming events: nothing when there are none, else one
    /// event from `Google Calendar` listing them all.
    pub fn check(events: &Vec<CalendarEvent>) -> (r: Vec<WatcherEvent>)
        ensures
            events@.len() == 0 ==> r@.len() == 0,
            events@.len() > 0 ==> r@.len() == 1 && r@[0].source@ == "Google Calendar"@
                && r@[0].context@ == calendar_context(events@),
    {
        let mut out: Vec<WatcherEvent> = Vec::new();
        if events.len() > 0 {
            let lines = format_events(&EventStyle::Watch, events);
            let context = cat("Here are the upcoming events listed in the calendar. :\n\n", lines.as_str());
            out.push(WatcherEvent { source: owned("Google Calendar"), context });
        }
        out
    }

    /// The error when the calendar cannot be read.
    pub fn read_error(err: &str) -> (r: String)
        ensures
            r@ == "[CALENDAR WATCHER] Error reading the calendar : "@ + err@,
    {
        cat("[CALENDAR WATCHER] Error reading the calendar : ", err)
    }
}

/// The mail watcher: the ids of the messages it has already handed on.
pub struct GmailWatcher {
    seen_ids: Vec<String>,
}

/// The ids that a batch hands on, in order, and the seen ids after it: each id not seen yet is
/// handed on once and becomes seen.
pub open spec fn fresh_scan(seen: Set<Seq<char>>, ids: Seq<Seq<char>>) -> (Seq<Seq<char>>, Set<Seq<char>>)
    decreases ids.len(),
{
    if ids.len() == 0 {
        (Seq::empty(), seen)
    } else {
        let (out, s) = fresh_scan(seen, ids.drop_last());
        let id = ids.last();
        if s.contains(id) {
            (out, s)
        } else {
            (out.push(id), s.insert(id))
        }
    }
}

/// Whether a sender looks automated: its lower-case form holds `no-reply`, `noreply` or
/// `newsletter`.
pub open spec fn automated_sender(from: Seq<char>) -> bool {
    let l = lowercase(from);
    has_sub(l, "no-reply"@) || has_sub(l, "noreply"@) || has_sub(l, "newsletter"@)
}

/// The context of the mail watcher's event for a message.
pub open spec fn mail_context(d: EmailDetail) -> Seq<char> {
    "New important unread email (id: "@ + d.id@ + "). From: "@ + d.from@ + ". Subject: "@ + d.subject@
        + ". Full content: "@ + d.body@
}

fn contains_id(v: &Vec<String>, s: &str) -> (r: bool)
    ensures
        r == views(v@).contains(s@),
{
    let mut i: usize = 0;
    while i < v.len()
        invariant
            i <= v@.len(),
            forall|j: int| 0 <= j < i ==> v@[j]@ != s@,
        decreases v@.len() - i,
    {
        if str_eq(v[i].as_str(), s) {
            assert(views(v@)[i as int] == s@);
            return true;
        }
        i = i + 1;
    }
    proof {
        if views(v@).contains(s@) {
            let k = choose|k: int| 0 <= k < views(v@).len() && views(v@)[k] == s@;
            assert(v@[k]@ == s@);
        }
    }
    false
}

impl GmailWatcher {
    /// The ids already handed on.
    pub closed spec fn seen(&self) -> Set<Seq<char>> {
        Set::new(|s: Seq<char>| views(self.seen_ids@).contains(s))
    }

    /// A watcher that has seen nothing.
    pub fn new() -> (r: Self)
        ensures
            r.seen() == Set::<Seq<char>>::empty(),
    {
        let r = GmailWatcher { seen_ids: Vec::new() };
        assert(r.seen() =~= Set::<Seq<char>>::empty());
        r
    }

    /// Takes the ids of the unread messages just listed: hands on, in order, those not seen
    /// before (each once) and remembers them as seen.
    pub fn take_unseen(&mut self, ids: &Vec<String>) -> (r: Vec<String>)
        ensures
            (views(r@), final(self).seen()) == fresh_scan(old(self).seen(), views(ids@)),
    {
        let mut out: Vec<String> = Vec::new();
        let mut i: usize = 0;
        while i < ids.len()
            invariant
                i <= ids@.len(),
                (views(out@), self.seen()) == fresh_scan(old(self).seen(), views(ids@).take(i as int)),
            decreases ids@.len() - i,
        {
            assert(views(ids@).take(i + 1).drop_last() =~= views(ids@).take(i as int));
            let id = &ids[i];
            if !contains_id(&self.seen_ids, id.as_str()) {
                let ghost before = self.seen();
                let ghost v1 = views(self.seen_ids@);
                self.seen_ids.push(owned(id.as_str()));
                proof {
                    let v2 = views(self.seen_ids@);
                    assert(v2 =~= v1.push(id@));
                    assert forall|s: Seq<char>| self.seen().contains(s) == before.insert(id@).contains(s) by {
                        if v2.contains(s) {
                            let k = choose|k: int| 0 <= k < v2.len() && v2[k] == s;
                            if k < v1.len() {
                                assert(v1[k] == s);
                            }
                        }
                        if v1.contains(s) {
                            let k = choose|k: int| 0 <= k < v1.len() && v1[k] == s;
                            assert(v2[k] == s);
                        }
                        assert(v2[v2.len() - 1] == id@);
                    }
                    assert(self.seen() =~= before.insert(id@));
                }
                out.push(owned(id.as_str()));
                assert(views(out@) =~= fresh_scan(old(self).seen(), views(ids@).take(i as int)).0.push(id@));
            }
            i = i + 1;
        }
        assert(views(ids@).take(ids@.len() as int) =~= views(ids@));
        out
    }

    /// The event for a newly seen message: none for an automated sender, else one from `gmail`
    /// with the message's id, sender, subject and body.
    pub fn event_for(detail: &EmailDetail) -> (r: Option<WatcherEvent>)
        ensures
            automated_sender(detail.from@) ==> r is None,
            !automated_sender(detail.from@) ==> (r matches Some(e) && e.source@ == "gmail"@
                && e.context@ == mail_context(*detail)),
    {
        let sender = to_lowercase(detail.from.as_str());
        if contains(sender.as_str(), "no-reply") || contains(sender.as_str(), "noreply")
            || contains(sender.as_str(), "newsletter") {
            return None;
        }
        let mut c = owned("New important unread email (id: ");
        push_str(&mut c, detail.id.as_str());
        push_str(&mut c, "). From: ");
        push_str(&mut c, detail.from.as_str());
        push_str(&mut c, ". Subject: ");
        push_str(&mut c, detail.subject.as_str());
        push_str(&mut c, ". Full content: ");
        push_str(&mut c, detail.body.as_str());
        Some(WatcherEvent { source: owned("gmail"), context: c })
    }
}

/// After a batch every id of it is seen, ids seen before stay seen, and nothing else becomes
/// seen; what the batch hands on was not seen before.
pub proof fn lemma_fresh_scan_seen(seen: Set<Seq<char>>, ids: Seq<Seq<char>>)
    ensures
        forall|i: int| 0 <= i < ids.len() ==> fresh_scan(seen, ids).1.contains(#[trigger] ids[i]),
        forall|x: Seq<char>| seen.contains(x) ==> fresh_scan(seen, ids).1.contains(x),
        forall|x: Seq<char>| #[trigger] fresh_scan(seen, ids).1.contains(x) ==> seen.contains(x) || ids.contains(x),
        forall|i: int| 0 <= i < fresh_scan(seen, ids).0.len() ==> !seen.contains(#[trigger] fresh_scan(seen, ids).0[i]),
    decreases ids.len(),
{
    if ids.len() > 0 {
        let prev = ids.drop_last();
        lemma_fresh_scan_seen(seen, prev);
        assert forall|i: int| 0 <= i < ids.len() implies fresh_scan(seen, ids).1.contains(#[trigger] ids[i]) by {
            if i < ids.len() - 1 {
                assert(prev[i] == ids[i]);
            }
        }
        assert forall|x: Seq<char>| #[trigger] fresh_scan(seen, ids).1.contains(x) implies seen.contains(x) || ids.contains(x) by {
            if fresh_scan(seen, prev).1.contains(x) {
                if !seen.contains(x) {
                    let k = choose|k: int| 0 <= k < prev.len() && prev[k] == x;
                    assert(ids[k] == x);
                }
            } else {
                assert(ids[ids.len() - 1] == x);
            }
        }
    }
}

/// A message id is handed on at most once: running the same batch again hands on nothing.
pub proof fn lemma_ids_handed_on_once(seen: Set<Seq<char>>, ids: Seq<Seq<char>>)
    ensures
        fresh_scan(fresh_scan(seen, ids).1, ids).0.len() == 0,
{
    lemma_fresh_scan_seen(seen, ids);
    let s2 = fresh_scan(seen, ids).1;
    lemma_fresh_scan_seen(s2, ids);
    let out = fresh_scan(s2, ids).0;
    if out.len() > 0 {
        lemma_handed_on_from_batch(s2, ids);
        let k = choose|k: int| 0 <= k < ids.len() && ids[k] == out[0];
        assert(s2.contains(ids[k]));
        assert(!s2.contains(out[0]));
    }
}

/// No new message is lost: every id of a batch that was not seen before is handed on.
pub proof fn lemma_unseen_handed_on(seen: Set<Seq<char>>, ids: Seq<Seq<char>>)
    ensures
        forall|i: int| 0 <= i < ids.len() && !seen.contains(#[trigger] ids[i])
            ==> fresh_scan(seen, ids).0.contains(ids[i]),
    decreases ids.len(),
{
    if ids.len() > 0 {
        let prev = ids.drop_last();
        lemma_unseen_handed_on(seen, prev);
        lemma_fresh_scan_seen(seen, prev);
        let pout = fresh_scan(seen, prev).0;
        let out = fresh_scan(seen, ids).0;
        assert forall|i: int| 0 <= i < ids.len() && !seen.contains(#[trigger] ids[i])
            implies out.contains(ids[i]) by {
            if i < ids.len() - 1 {
                assert(prev[i] == ids[i]);
                let k = choose|k: int| 0 <= k < pout.len() && pout[k] == prev[i];
                if out != pout {
                    assert(out[k] == pout[k]);
                }
                assert(out[k] == ids[i]);
            } else {
                let id = ids.last();
                if fresh_scan(seen, prev).1.contains(id) {
                    let k = choose|k: int| 0 <= k < prev.len() && prev[k] == id;
                    assert(!seen.contains(prev[k]));
                    let q = choose|q: int| 0 <= q < pout.len() && pout[q] == prev[k];
                    assert(out[q] == ids[i]);
                } else {
                    assert(out[out.len() - 1] == ids[i]);
                }
            }
        }
    }
}

/// What a batch hands on comes from the batch.
pub proof fn lemma_handed_on_from_batch(seen: Set<Seq<char>>, ids: Seq<Seq<char>>)
    ensures
        forall|i: int| 0 <= i < fresh_scan(seen, ids).0.len() ==> ids.contains(#[trigger] fresh_scan(seen, ids).0[i]),
    decreases ids.len(),
{
    if ids.len() > 0 {
        let prev = ids.drop_last();
        lemma_handed_on_from_batch(seen, prev);
        assert forall|i: int| 0 <= i < fresh_scan(seen, ids).0.len() implies ids.contains(#[trigger] fresh_scan(seen, ids).0[i]) by {
            let out = fresh_scan(seen, ids).0;
            let pout = fresh_scan(seen, prev).0;
            if i < pout.len() {
                assert(out[i] == pout[i]);
                let k = choose|k: int| 0 <= k < prev.len() && prev[k] == pout[i];
                assert(ids[k] == out[i]);
            } else {
                assert(out[i] == ids[ids.len() - 1]);
            }
        }
    }
}

/// A message id is handed on at most once over any two successive batches: what the first
/// hands on, the second never hands on again.
pub proof fn lemma_never_handed_twice(seen: Set<Seq<char>>, first: Seq<Seq<char>>, second: Seq<Seq<char>>)
    ensures
        forall|x: Seq<char>| fresh_scan(seen, first).0.contains(x)
            ==> !(#[trigger] fresh_scan(fresh_scan(seen, first).1, second).0.contains(x)),
{
    let s1 = fresh_scan(seen, first).1;
    lemma_fresh_scan_seen(seen, first);
    lemma_handed_on_from_batch(seen, first);
    lemma_fresh_scan_seen(s1, second);
    assert forall|x: Seq<char>| fresh_scan(seen, first).0.contains(x)
        implies !(#[trigger] fresh_scan(s1, second).0.contains(x)) by {
        let k = choose|k: int| 0 <= k < fresh_scan(seen, first).0.len() && fresh_scan(seen, first).0[k] == x;
        let j = choose|j: int| 0 <= j < first.len() && first[j] == fresh_scan(seen, first).0[k];
        assert(s1.contains(first[j]));
        if fresh_scan(s1, second).0.contains(x) {
            let q = choose|q: int| 0 <= q < fresh_scan(s1, second).0.len() && fresh_scan(s1, second).0[q] == x;
            assert(!s1.contains(fresh_scan(s1, second).0[q]));
        }
    }
}

/// The ids that successive batches hand on, batch by batch, and the seen ids after them all,
/// starting from `seen`.
pub open spec fn scans(seen: Set<Seq<char>>, batches: Seq<Seq<Seq<char>>>) -> (Seq<Seq<Seq<char>>>, Set<Seq<char>>)
    decreases batches.len(),
{
    if batches.len() == 0 {
        (Seq::empty(), seen)
    } else {
        let (outs, s) = scans(seen, batches.drop_last());
        let (o, s2) = fresh_scan(s, batches.last());
        (outs.push(o), s2)
    }
}

/// What any batch hands on is seen after all the batches, and so is what was seen before.
proof fn lemma_scans_seen(seen: Set<Seq<char>>, batches: Seq<Seq<Seq<char>>>)
    ensures
        scans(seen, batches).0.len() == batches.len(),
        forall|x: Seq<char>| seen.contains(x) ==> #[trigger] scans(seen, batches).1.contains(x),
        forall|k: int, x: Seq<char>| 0 <= k < batches.len() && #[trigger] scans(seen, batches).0[k].contains(x)
            ==> scans(seen, batches).1.contains(x),
    decreases batches.len(),
{
    if batches.len() > 0 {
        let prev = batches.drop_last();
        lemma_scans_seen(seen, prev);
        let (outs, s) = scans(seen, prev);
        lemma_fresh_scan_seen(s, batches.last());
        lemma_handed_on_from_batch(s, batches.last());
        let o = fresh_scan(s, batches.last()).0;
        assert forall|x: Seq<char>| seen.contains(x) implies #[trigger] scans(seen, batches).1.contains(x) by {
            assert(scans(seen, prev).1.contains(x));
            assert(s.contains(x));
        }
        assert forall|k: int, x: Seq<char>| 0 <= k < batches.len() && #[trigger] scans(seen, batches).0[k].contains(x)
            implies scans(seen, batches).1.contains(x) by {
            if k < prev.len() {
                assert(scans(seen, batches).0[k] == outs[k]);
                assert(scans(seen, prev).0[k].contains(x));
                assert(s.contains(x));
            } else {
                assert(scans(seen, batches).0[k] == o);
                let i = choose|i: int| 0 <= i < o.len() && o[i] == x;
                let j = choose|j: int| 0 <= j < batches.last().len() && batches.last()[j] == o[i];
                assert(fresh_scan(s, batches.last()).1.contains(batches.last()[j]));
            }
        }
    }
}

/// Over any run of batches, a message id is handed on by at most one batch, and at most once
/// in it.
pub proof fn lemma_each_id_handed_on_once(seen: Set<Seq<char>>, batches: Seq<Seq<Seq<char>>>)
    ensures
        scans(seen, batches).0.len() == batches.len(),
        forall|k: int| 0 <= k < batches.len() ==> (#[trigger] scans(seen, batches).0[k]).no_duplicates(),
        forall|k: int, l: int, x: Seq<char>| 0 <= k < l < batches.len()
            && #[trigger] scans(seen, batches).0[k].contains(x) ==> !(#[trigger] scans(seen, batches).0[l]).contains(x),
    decreases batches.len(),
{
    lemma_scans_seen(seen, batches);
    if batches.len() > 0 {
        let prev = batches.drop_last();
        lemma_each_id_handed_on_once(seen, prev);
        lemma_scans_seen(seen, prev);
        let (outs, s) = scans(seen, prev);
        let o = fresh_scan(s, batches.last()).0;
        lemma_batch_without_repeats(s, batches.last());
        lemma_fresh_scan_seen(s, batches.last());
        assert forall|k: int| 0 <= k < batches.len() implies (#[trigger] scans(seen, batches).0[k]).no_duplicates() by {
            if k < prev.len() {
                assert(scans(seen, batches).0[k] == outs[k]);
            }
        }
        assert forall|k: int, l: int, x: Seq<char>| 0 <= k < l < batches.len()
            && #[trigger] scans(seen, batches).0[k].contains(x) implies !(#[trigger] scans(seen, batches).0[l]).contains(x) by {
            assert(scans(seen, batches).0[k] == outs[k]);
            if l < prev.len() {
                assert(scans(seen, batches).0[l] == outs[l]);
                assert(scans(seen, prev).0[k].contains(x));
            } else {
                assert(scans(seen, batches).0[l] == o);
                assert(scans(seen, prev).0[k].contains(x));
                assert(s.contains(x));
                if o.contains(x) {
                    let i = choose|i: int| 0 <= i < o.len() && o[i] == x;
                    assert(!s.contains(o[i]));
                }
            }
        }
    }
}

/// Within a batch no id is handed on twice.
pub proof fn lemma_batch_without_repeats(seen: Set<Seq<char>>, ids: Seq<Seq<char>>)
    ensures
        fresh_scan(seen, ids).0.no_duplicates(),
    decreases ids.len(),
{
    if ids.len() > 0 {
        let prev = ids.drop_last();
        lemma_batch_without_repeats(seen, prev);
        lemma_fresh_scan_seen(seen, prev);
        let (out, s) = fresh_scan(seen, prev);
        let id = ids.last();
        if !s.contains(id) {
            assert forall|i: int, j: int| 0 <= i < j < out.push(id).len() implies out.push(id)[i] != out.push(id)[j] by {
                if j == out.len() {
                    lemma_handed_on_from_batch(seen, prev);
                    assert(prev.contains(out[i]));
                    let k = choose|k: int| 0 <= k < prev.len() && prev[k] == out[i];
                    assert(s.contains(prev[k]));
                }
            }
        }
    }
}

/// An answer that holds the word `ras` in any case, or that is blank, never becomes a
/// notification; a notification is the answer trimmed, never empty.
pub proof fn lemma_silence_rule(answer: Seq<char>)
    ensures
        has_word(trimmed(answer), "ras"@) ==> notification_of(answer) is None,
        trimmed(answer).len() == 0 ==> notification_of(answer) is None,
        notification_of(answer) matches Some(t) ==> t == trimmed(answer) && t.len() > 0,
{
}

} // verus!
