use alfred::calendar::CalendarEvent;
use alfred::gmail::EmailSummary;
use alfred::morning::{briefing_prompt, MorningBriefingService};

#[test]
fn briefing_with_nothing_planned() {
    let p = MorningBriefingService::briefing_at(&vec![], &vec![], "2026-01-01 (Thursday 01 January 2026)", "07:30");
    assert_eq!(p, briefing_prompt("2026-01-01 (Thursday 01 January 2026)", "07:30", "No events", "No urgent messages."));
    assert!(p.contains("- Aujourd'hui nous sommes le : 2026-01-01 (Thursday 01 January 2026)\n"));
    assert!(p.contains("- Heure actuelle : 07:30 (Fuseau : Europe/Paris)"));
}

#[test]
fn briefing_lists_events_and_messages() {
    let events = vec![
        CalendarEvent { id: "1".to_string(), summary: "Gym".to_string(), start: "08:00".to_string(), end: "09:00".to_string() },
        CalendarEvent { id: "2".to_string(), summary: "Work".to_string(), start: "10:00".to_string(), end: "18:00".to_string() },
    ];
    let mails = vec![EmailSummary {
        id: "m".to_string(),
        thread_id: "t".to_string(),
        from: "Bob".to_string(),
        subject: "Lunch?".to_string(),
        snippet: "".to_string(),
    }];
    let p = MorningBriefingService::briefing_at(&events, &mails, "D", "T");
    assert_eq!(
        p,
        briefing_prompt("D", "T", "- Gym (from 08:00 to 09:00)\n- Work (from 10:00 to 18:00)", "- De Bob: Lunch?")
    );
    let now = MorningBriefingService::generate_briefing(&events, &mails).unwrap();
    assert!(now.contains("[Agenda]\n            - Gym (from 08:00 to 09:00)"));
    let d: Vec<char> = now.split("- Aujourd'hui nous sommes le : ").nth(1).unwrap().chars().take(12).collect();
    assert!(d[0..4].iter().all(|c| c.is_ascii_digit()) && d[4] == '-' && d[7] == '-' && d[10] == ' ' && d[11] == '(');
    let t = now.split("- Heure actuelle : ").nth(1).unwrap();
    let c: Vec<char> = t.chars().take(5).collect();
    assert!(c[0].is_ascii_digit() && c[1].is_ascii_digit() && c[2] == ':' && c[3].is_ascii_digit() && c[4].is_ascii_digit());
}
