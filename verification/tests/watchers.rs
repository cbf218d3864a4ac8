use alfred::calendar::CalendarEvent;
use alfred::gmail::EmailDetail;
use alfred::watchers::{observation_prompt, CalendarWatcher, GmailWatcher, Watcher, WatcherEvent, WatcherScheduler};

fn ids(v: &[&str]) -> Vec<String> {
    v.iter().map(|x| x.to_string()).collect()
}

fn detail(from: &str) -> EmailDetail {
    EmailDetail {
        id: "m1".to_string(),
        thread_id: "t1".to_string(),
        from: from.to_string(),
        subject: "Hello".to_string(),
        body: "Body".to_string(),
    }
}

#[test]
fn gmail_watcher_hands_each_message_on_once() {
    let mut w = GmailWatcher::new();
    assert_eq!(w.take_unseen(&ids(&["a", "b", "a"])), ids(&["a", "b"]));
    assert_eq!(w.take_unseen(&ids(&["b", "c"])), ids(&["c"]));
    assert!(w.take_unseen(&ids(&["a", "b", "c"])).is_empty());
    assert!(w.take_unseen(&vec![]).is_empty());
}

#[test]
fn automated_senders_are_skipped() {
    assert!(GmailWatcher::event_for(&detail("No-Reply <no-reply@shop.com>")).is_none());
    assert!(GmailWatcher::event_for(&detail("NOREPLY@bank.fr")).is_none());
    assert!(GmailWatcher::event_for(&detail("Weekly Newsletter <news@x.org>")).is_none());
    let e = GmailWatcher::event_for(&detail("Alice <alice@x.org>")).unwrap();
    assert_eq!(e.source, "gmail");
    assert_eq!(
        e.context,
        "New important unread email (id: m1). From: Alice <alice@x.org>. Subject: Hello. Full content: Body"
    );
}

#[test]
fn silence_rule_on_answers() {
    assert_eq!(WatcherScheduler::notification_text("RAS"), None);
    assert_eq!(WatcherScheduler::notification_text("  ras \n"), None);
    assert_eq!(WatcherScheduler::notification_text("Rien à signaler : RAS."), None);
    assert_eq!(WatcherScheduler::notification_text("   "), None);
    assert_eq!(WatcherScheduler::notification_text("Ras."), None);
    assert_eq!(WatcherScheduler::notification_text("rien, ras"), None);
    assert_eq!(WatcherScheduler::notification_text("(RaS)"), None);
    assert_eq!(WatcherScheduler::notification_text("bras cassé"), Some("bras cassé".to_string()));
    assert_eq!(WatcherScheduler::notification_text("Mail moved to trash"), Some("Mail moved to trash".to_string()));
    assert_eq!(WatcherScheduler::notification_text(" Train pour Arras "), Some("Train pour Arras".to_string()));
    assert_eq!(WatcherScheduler::notification_text("rasé"), Some("rasé".to_string()));
    assert_eq!(
        WatcherScheduler::notification_text("  Reminder: meeting at 2 PM. \n"),
        Some("Reminder: meeting at 2 PM.".to_string())
    );
}

#[test]
fn calendar_watcher_lists_events() {
    assert!(CalendarWatcher::check(&vec![]).is_empty());
    let ev = vec![CalendarEvent {
        id: "e1".to_string(),
        summary: "Polar".to_string(),
        start: "14:00".to_string(),
        end: "15:00".to_string(),
    }];
    let out = CalendarWatcher::check(&ev);
    assert_eq!(out.len(), 1);
    assert_eq!(out[0].source, "Google Calendar");
    assert_eq!(
        out[0].context,
        "Here are the upcoming events listed in the calendar. :\n\n- [e1] Polar (Start: 14:00, End: 15:00)"
    );
    assert_eq!(CalendarWatcher::read_error("timeout"), "[CALENDAR WATCHER] Error reading the calendar : timeout");
}

#[test]
fn watcher_names_and_prompts() {
    assert_eq!(CalendarWatcher.name(), "calendar");
    assert_eq!(GmailWatcher::new().name(), "gmail");
    assert!(CalendarWatcher.prompt().contains("'RAS'"));
    assert!(GmailWatcher::new().prompt().starts_with("Specific instructions for email management"));
    let ev = WatcherEvent { source: "gmail".to_string(), context: "CTX".to_string() };
    let p = WatcherScheduler::prompt_for(&ev, "INSTR");
    assert_eq!(p, observation_prompt("gmail", "CTX", "INSTR"));
    assert!(p.starts_with("AUTOMATED OBSERVATION (source: gmail).\n\n[EVENT CONTEXT]\nCTX\n\n[SPECIFIC OBSERVER INSTRUCTIONS]\nINSTR\n\n[GENERAL PROCESSING GUIDELINES]\n1. Analyze"));
}
