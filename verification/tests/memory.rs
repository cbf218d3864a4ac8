use alfred::json::{json_text, Json};
use alfred::memory::{dream_prompt, initial_history, DreamTimer, MemoryEvent, MemoryService};

fn ev(role: &str, content: &str, at: &str) -> MemoryEvent {
    MemoryEvent::new(role.to_string(), content.to_string(), at.to_string())
}

#[test]
fn memory_event_line() {
    assert_eq!(ev("user", "Bonjour", "2026-01-01 10:00").to_string(), "[2026-01-01 10:00] user : Bonjour");
}

#[test]
fn dream_prompt_leaves_tool_results_out() {
    assert!(MemoryService::prepared_dream_prompt(&vec![], "old").is_none());
    let events = vec![ev("user", "a", "t1"), ev("tool", "ZZTOOLOUT", "t2"), ev("assistant", "b", "t3")];
    let p = MemoryService::prepared_dream_prompt(&events, "OLD MEMORY").unwrap();
    assert_eq!(p, dream_prompt("OLD MEMORY", "[t1] user : a [t3] assistant : b"));
    assert!(p.contains("OLD MEMORY"));
    assert!(!p.contains("ZZTOOLOUT"));
    let only_tools = vec![ev("tool", "ZZTOOLOUT", "t2")];
    assert_eq!(MemoryService::prepared_dream_prompt(&only_tools, "m").unwrap(), dream_prompt("m", ""));
}

#[test]
fn memory_texts_and_outcomes() {
    assert_eq!(MemoryService::load_term_memory("facts"), "## Memory of previous conversations \nfacts");
    assert_eq!(MemoryService::finalization_dream(None, None), Ok("memory.md successfully generated !".to_string()));
    assert_eq!(MemoryService::finalization_dream(Some("disk full"), None), Err("Error writing memory.md: disk full".to_string()));
    assert_eq!(MemoryService::finalization_dream(Some("disk full"), Some("locked")), Err("Error writing memory.md: disk full".to_string()));
    assert_eq!(MemoryService::finalization_dream(None, Some("locked")), Err("locked".to_string()));
}

#[test]
fn dream_timer_messages_and_summary() {
    assert_eq!(json_text(&DreamTimer::messages("P")), "[{\"role\":\"user\",\"content\":\"P\"}]");
    let resp = Json::Object(vec![(
        "message".to_string(),
        Json::Object(vec![("content".to_string(), Json::Str("Summary".to_string()))]),
    )]);
    assert_eq!(DreamTimer::summary(&resp), "Summary");
    assert_eq!(DreamTimer::summary(&Json::Object(vec![])), "Error: no summary generated");
}

#[test]
fn initial_history_starts_with_the_system_prompt() {
    let logged = vec![("user".to_string(), "hi".to_string()), ("assistant".to_string(), "hello".to_string())];
    let h = initial_history(Some("SKILL"), "mem", &logged);
    assert_eq!(h.len(), 3);
    assert_eq!(
        json_text(&h[0]),
        "{\"role\":\"system\",\"content\":\"SKILL\\n\\n## Memory of previous conversations \\nmem\"}"
    );
    assert_eq!(json_text(&h[2]), "{\"role\":\"assistant\",\"content\":\"hello\"}");
    let d = initial_history(None, "", &vec![]);
    assert_eq!(d.len(), 1);
    assert!(json_text(&d[0]).contains("Tu es Alfred, un assistant utile."));
}
