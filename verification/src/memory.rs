//! The assistant's long-term memory: the interaction log, its consolidation prompt and the
//! conversation that a new session starts from.
use crate::json::{at, str_or, views_of, Json, JsonV};
use crate::orchestrator::{message_v, Orchestrator};
use crate::text::{cat, join, joined, owned, push_str, str_eq, views};
use vstd::prelude::*;

verus! {

/// The memory consolidation prompt: the existing long-term memory and the new interaction log.
pub open spec fn dream_prompt_text(existing_memory: Seq<char>, logs: Seq<char>) -> Seq<char> {
    "You are a memory consolidation system for an AI assistant named Alfred, modeled after human long-term memory systems (Tulving, Squire): semantic, episodic, and procedural memory.\n\nIMPORTANT CONTEXT: Alfred already has a fixed base personality and behavior rules defined elsewhere (butler tone, formal address, general interaction style). Do NOT restate or summarize that base behavior.\n\nHere is Alfred's EXISTING long-term memory (may be empty if this is the first consolidation):\n\n"@ + existing_memory + "\n\nHere is the NEW raw log of recent interactions to integrate:\n\n"@ + logs + "\n\nYour task: MERGE the new information into the existing memory, producing a single updated version. - If new information confirms or adds detail to something already in memory, keep the most complete/recent version.\n- If new information CONTRADICTS existing memory (e.g. user moved to a new city), REPLACE the outdated fact with the new one — do not keep both.\n- If new information is genuinely new, add it to the appropriate category.\n- If an ACTIVE GOAL from existing memory appears to be resolved or completed based on the new log, move it out of ACTIVE GOALS (either drop it, or if significant, record it as a past event in episodic memory).\n- Do not duplicate information across categories.\n\nExtract and organize into these categories:\n\n- SEMANTIC MEMORY (facts): stable, context-independent facts about who the user is\n- PROCEDURAL MEMORY (user-specific adjustments): Include something here ONLY if the USER explicitly asked Alfred to change how it behaves (e.g. the user literally said something like 'appelle-moi X', 'sois moins formel', 'réponds plus court'). \n\nDO NOT include anything here based on how Alfred itself spoke in the log — Alfred's own tone, word choice, or way of addressing the user is NEVER a source for this category, even if repeated consistently. Only the USER's explicit requests count. \n\nTest before including anything here: can you point to a specific message FROM THE USER (not from Alfred) that explicitly requested this behavior? If not, do not include it. \n\nExample of what NOT to include: 'Alfred addresses the user formally' — this describes Alfred's own behavior, not a user request, so it must be excluded even if true in the log.\n- EPISODIC MEMORY (events): specific decisions or events tied to a moment, with context\n- ACTIVE GOALS: what the user is currently working on or has not yet resolved\n\nSTRICTLY EXCLUDE any information that is time-sensitive or reflects a snapshot of the world rather than a lasting fact (real-time data, measurements, one-off lookups). If in doubt whether it will still be true in a week, exclude it. Ignore greetings, small talk, filler exchanges. Do not invent anything not explicitly stated in either the existing memory or the new log. CRITICAL FORMATTING RULE: if a category has no genuine content, omit that section header entirely. If the merged result has no durable information at all, respond with exactly: 'Aucune information marquante pour le moment.' Write the result in French, using these Markdown headers only when they have content:\n\n## Mémoire sémantique — Faits\n## Mémoire procédurale — Ajustements spécifiques\n## Mémoire épisodique — Événements\n## Objectifs actifs\n\nRespond only with the merged Markdown content, no commentary or explanation."@
}

/// The memory consolidation prompt.
pub fn dream_prompt(existing_memory: &str, logs: &str) -> (r: String)
    ensures
        r@ == dream_prompt_text(existing_memory@, logs@),
{
    let mut r = String::new();
    push_str(&mut r, "You are a memory consolidation system for an AI assistant named Alfred, modeled after human long-term memory systems (Tulving, Squire): semantic, episodic, and procedural memory.\n\nIMPORTANT CONTEXT: Alfred already has a fixed base personality and behavior rules defined elsewhere (butler tone, formal address, general interaction style). Do NOT restate or summarize that base behavior.\n\nHere is Alfred's EXISTING long-term memory (may be empty if this is the first consolidation):\n\n");
    push_str(&mut r, existing_memory);
    push_str(&mut r, "\n\nHere is the NEW raw log of recent interactions to integrate:\n\n");
    push_str(&mut r, logs);
    push_str(&mut r, "\n\nYour task: MERGE the new information into the existing memory, producing a single updated version. - If new information confirms or adds detail to something already in memory, keep the most complete/recent version.\n- If new information CONTRADICTS existing memory (e.g. user moved to a new city), REPLACE the outdated fact with the new one — do not keep both.\n- If new information is genuinely new, add it to the appropriate category.\n- If an ACTIVE GOAL from existing memory appears to be resolved or completed based on the new log, move it out of ACTIVE GOALS (either drop it, or if significant, record it as a past event in episodic memory).\n- Do not duplicate information across categories.\n\nExtract and organize into these categories:\n\n- SEMANTIC MEMORY (facts): stable, context-independent facts about who the user is\n- PROCEDURAL MEMORY (user-specific adjustments): Include something here ONLY if the USER explicitly asked Alfred to change how it behaves (e.g. the user literally said something like 'appelle-moi X', 'sois moins formel', 'réponds plus court'). \n\nDO NOT include anything here based on how Alfred itself spoke in the log — Alfred's own tone, word choice, or way of addressing the user is NEVER a source for this category, even if repeated consistently. Only the USER's explicit requests count. \n\nTest before including anything here: can you point to a specific message FROM THE USER (not from Alfred) that explicitly requested this behavior? If not, do not include it. \n\nExample of what NOT to include: 'Alfred addresses the user formally' — this describes Alfred's own behavior, not a user request, so it must be excluded even if true in the log.\n- EPISODIC MEMORY (events): specific decisions or events tied to a moment, with context\n- ACTIVE GOALS: what the user is currently working on or has not yet resolved\n\nSTRICTLY EXCLUDE any information that is time-sensitive or reflects a snapshot of the world rather than a lasting fact (real-time data, measurements, one-off lookups). If in doubt whether it will still be true in a week, exclude it. Ignore greetings, small talk, filler exchanges. Do not invent anything not explicitly stated in either the existing memory or the new log. CRITICAL FORMATTING RULE: if a category has no genuine content, omit that section header entirely. If the merged result has no durable information at all, respond with exactly: 'Aucune information marquante pour le moment.' Write the result in French, using these Markdown headers only when they have content:\n\n## Mémoire sémantique — Faits\n## Mémoire procédurale — Ajustements spécifiques\n## Mémoire épisodique — Événements\n## Objectifs actifs\n\nRespond only with the merged Markdown content, no commentary or explanation.");
    assert(r@ =~= dream_prompt_text(existing_memory@, logs@));
    r
}

/// A logged interaction: who spoke, what was said, and when.
pub struct MemoryEvent {
    role: String,
    content: String,
    created_at: String,
}

/// A logged interaction as a line: `[created_at] role : content`.
pub open spec fn event_text(e: MemoryEvent) -> Seq<char> {
    "["@ + e.created_at() + "] "@ + e.role() + " : "@ + e.content()
}

impl MemoryEvent {
    /// A logged interaction.
    pub fn new(role: String, content: String, created_at: String) -> (r: Self)
        ensures
            r.role() == role@,
            r.content() == content@,
            r.created_at() == created_at@,
    {
        MemoryEvent { role, content, created_at }
    }

    /// Who spoke.
    pub closed spec fn role(&self) -> Seq<char> {
        self.role@
    }

    /// What was said.
    pub closed spec fn content(&self) -> Seq<char> {
        self.content@
    }

    /// When.
    pub closed spec fn created_at(&self) -> Seq<char> {
        self.created_at@
    }

    /// The interaction as a line: `[created_at] role : content`.
    pub fn to_string(&self) -> (r: String)
        ensures
            r@ == event_text(*self),
    {
        let mut r = owned("[");
        push_str(&mut r, self.created_at.as_str());
        push_str(&mut r, "] ");
        push_str(&mut r, self.role.as_str());
        push_str(&mut r, " : ");
        push_str(&mut r, self.content.as_str());
        r
    }
}

/// The log lines of the interactions that are not tool results, in order.
pub open spec fn log_lines(events: Seq<MemoryEvent>) -> Seq<Seq<char>>
    decreases events.len(),
{
    if events.len() == 0 {
        Seq::empty()
    } else {
        let r = log_lines(events.drop_last());
        if events.last().role() == "tool"@ {
            r
        } else {
            r.push(event_text(events.last()))
        }
    }
}

/// The consolidation log is exactly the texts of the interactions that are not tool results,
/// in order: one line for each of them and nothing else.
pub proof fn lemma_log_lines_skip_tools(events: Seq<MemoryEvent>)
    ensures
        log_lines(events) == events.filter(|e: MemoryEvent| e.role() != "tool"@).map_values(|e: MemoryEvent| event_text(e)),
        log_lines(events).len() == events.filter(|e: MemoryEvent| e.role() != "tool"@).len(),
    decreases events.len(),
{
    reveal(Seq::filter);
    if events.len() > 0 {
        let rest = events.drop_last();
        lemma_log_lines_skip_tools(rest);
        let f = |e: MemoryEvent| e.role() != "tool"@;
        let m = |e: MemoryEvent| event_text(e);
        assert(events.filter(f) == if f(events.last()) { rest.filter(f).push(events.last()) } else { rest.filter(f) });
        if f(events.last()) {
            assert(rest.filter(f).push(events.last()).map_values(m) =~= rest.filter(f).map_values(m).push(event_text(events.last())));
        }
    } else {
        assert(events.filter(|e: MemoryEvent| e.role() != "tool"@) =~= Seq::<MemoryEvent>::empty());
    }
}

/// The memory as the system prompt carries it.
pub open spec fn term_memory_text(content: Seq<char>) -> Seq<char> {
    "## Memory of previous conversations \n"@ + content
}

/// The consolidation's answer when it wrote the memory file.
pub open spec fn dream_done() -> Seq<char> {
    "memory.md successfully generated !"@
}

/// The logic of the long-term memory; the database and the memory file are the caller's.
pub struct MemoryService;

impl MemoryService {
    /// The consolidation prompt for the logged interactions and the existing memory text:
    /// `None` when nothing was logged; tool results are left out of the log, the other lines
    /// are joined by spaces.
    pub fn prepared_dream_prompt(events: &Vec<MemoryEvent>, existing_memory: &str) -> (r: Option<String>)
        ensures
            events@.len() == 0 ==> r is None,
            events@.len() > 0 ==> (r matches Some(p)
                && p@ == dream_prompt_text(existing_memory@, joined(log_lines(events@), " "@))),
    {
        if events.len() == 0 {
            return None;
        }
        let mut lines: Vec<String> = Vec::new();
        let mut i: usize = 0;
        while i < events.len()
            invariant
                i <= events@.len(),
                views(lines@) == log_lines(events@.take(i as int)),
            decreases events@.len() - i,
        {
            assert(events@.take(i + 1).drop_last() =~= events@.take(i as int));
            if !str_eq(events[i].role.as_str(), "tool") {
                let l = events[i].to_string();
                lines.push(l);
                assert(views(lines@) =~= log_lines(events@.take(i as int)).push(l@));
            }
            i = i + 1;
        }
        assert(events@.take(events@.len() as int) =~= events@);
        let logs = join(&lines, " ");
        Some(dream_prompt(existing_memory, logs.as_str()))
    }

    /// The memory as the system prompt carries it.
    pub fn load_term_memory(content: &str) -> (r: String)
        ensures
            r@ == term_memory_text(content@),
    {
        cat("## Memory of previous conversations \n", content)
    }

    /// The consolidation's outcome: the memory file was written and the log cleared, or the
    /// error of whichever failed.
    pub fn finalization_dream(write_error: Option<&str>, clear_error: Option<&str>) -> (r: Result<String, String>)
        ensures
            write_error matches Some(e) ==> r is Err && r->Err_0@ == "Error writing memory.md: "@ + e@,
            write_error is None && clear_error is Some ==> r is Err && r->Err_0@ == clear_error->0@,
            write_error is None && clear_error is None ==> r is Ok && r->Ok_0@ == dream_done(),
    {
        match write_error {
            Some(e) => Err(cat("Error writing memory.md: ", e)),
            None => match clear_error {
                Some(e) => Err(owned(e)),
                None => Ok(owned("memory.md successfully generated !")),
            },
        }
    }

}

/// The consolidation of the interaction log into the long-term memory.
pub struct DreamTimer;

impl DreamTimer {
    /// The conversation sent to the model: the consolidation prompt as the only user message.
    pub fn messages(prompt: &str) -> (r: Json)
        ensures
            r@ == JsonV::Array(seq![message_v("user"@, prompt@)]),
    {
        let mut v: Vec<Json> = Vec::new();
        v.push(Orchestrator::message("user", prompt));
        let r = Json::array(v);
        assert(views_of(v@) =~= seq![message_v("user"@, prompt@)]);
        r
    }

    /// The summary in the model's answer to the consolidation prompt.
    pub fn summary(response: &Json) -> (r: String)
        ensures
            r@ == str_or(at(at(response@, "message"@), "content"@), "Error: no summary generated"@),
    {
        match response.get("message") {
            Some(m) => crate::gmail::str_at_or(m, "content", "Error: no summary generated"),
            None => {
                let n = Json::Null;
                crate::gmail::str_at_or(&n, "content", "Error: no summary generated")
            },
        }
    }
}

/// The system prompt of a session: the skill file (or a default when it cannot be read), a
/// blank line, and the long-term memory.
pub open spec fn system_prompt_text(skill: Option<Seq<char>>, memory: Seq<char>) -> Seq<char> {
    let base = match skill {
        Some(s) => s,
        None => "Tu es Alfred, un assistant utile."@,
    };
    base + "\n\n"@ + term_memory_text(memory)
}

/// The conversation a session starts from: the system prompt, then every logged interaction
/// as a message with its role and content.
pub fn initial_history(skill: Option<&str>, memory: &str, logged: &Vec<(String, String)>) -> (r: Vec<Json>)
    ensures
        r@.len() == logged@.len() + 1,
        r@[0]@ == message_v("system"@, system_prompt_text(match skill { Some(s) => Some(s@), None => None }, memory@)),
        forall|i: int| 0 <= i < logged@.len() ==> (#[trigger] r@[i + 1])@ == message_v(logged@[i].0@, logged@[i].1@),
{
    let mut prompt = match skill {
        Some(s) => owned(s),
        None => owned("Tu es Alfred, un assistant utile."),
    };
    push_str(&mut prompt, "\n\n");
    let m = MemoryService::load_term_memory(memory);
    push_str(&mut prompt, m.as_str());
    let mut history: Vec<Json> = Vec::new();
    history.push(Orchestrator::message("system", prompt.as_str()));
    let mut i: usize = 0;
    while i < logged.len()
        invariant
            i <= logged@.len(),
            history@.len() == i + 1,
            history@[0]@ == message_v("system"@, system_prompt_text(match skill { Some(s) => Some(s@), None => None }, memory@)),
            forall|j: int| 0 <= j < i ==> (#[trigger] history@[j + 1])@ == message_v(logged@[j].0@, logged@[j].1@),
        decreases logged@.len() - i,
    {
        history.push(Orchestrator::message(logged[i].0.as_str(), logged[i].1.as_str()));
        i = i + 1;
    }
    history
}

} // verus!
