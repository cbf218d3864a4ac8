//! The wake-up briefing prompt.
use crate::calendar::{event_lines, format_events, CalendarEvent, EventStyle};
use crate::gmail::EmailSummary;
use crate::text::{has_sub, join, joined, lemma_joined_parts, lemma_occurs_within, occurs_at, owned, push_str, views};
use crate::trusted::{dated_text, hm_text, paris_date_and_time};
use vstd::prelude::*;

verus! {

/// The wake-up prompt: today's date and time in Paris, the agenda and the important messages, and the instructions.
pub open spec fn briefing_prompt_text(date: Seq<char>, time: Seq<char>, events: Seq<char>, mails: Seq<char>) -> Seq<char> {
    "RÔLE : Tu es Alfred, l'assistant personnel et majordome de l'utilisateur. C'est son réveil.\n\n            CONTEXTE TEMPOREL STRICT :\n            - Aujourd'hui nous sommes le : "@ + date + "\n            - Heure actuelle : "@ + time + " (Fuseau : Europe/Paris)\n\n            DONNÉES BRUTES DE L'AGENDA :\n            [Agenda]\n            "@ + events + "\n\n            [Messages importants]\n            "@ + mails + "\n\n            CONSIGNES STRICTES :\n            1. Compare la date de chaque événement avec la date d'aujourd'hui ("@ + date + ").\n               - Si un événement a lieu un autre jour (comme demain), NE DIS PAS qu'il a lieu aujourd'hui.\n            2. Salue l'utilisateur chaleureusement, souhaite-lui un bon réveil et résume uniquement sa journée d'aujourd'hui en 3 à 4 phrases maximum.\n            3. Termine par une note d'encouragement ou une phrase élégante de majordome."@
}

/// The wake-up prompt.
pub fn briefing_prompt(date: &str, time: &str, events: &str, mails: &str) -> (r: String)
    ensures
        r@ == briefing_prompt_text(date@, time@, events@, mails@),
{
    let mut r = String::new();
    push_str(&mut r, "RÔLE : Tu es Alfred, l'assistant personnel et majordome de l'utilisateur. C'est son réveil.\n\n            CONTEXTE TEMPOREL STRICT :\n            - Aujourd'hui nous sommes le : ");
    push_str(&mut r, date);
    push_str(&mut r, "\n            - Heure actuelle : ");
    push_str(&mut r, time);
    push_str(&mut r, " (Fuseau : Europe/Paris)\n\n            DONNÉES BRUTES DE L'AGENDA :\n            [Agenda]\n            ");
    push_str(&mut r, events);
    push_str(&mut r, "\n\n            [Messages importants]\n            ");
    push_str(&mut r, mails);
    push_str(&mut r, "\n\n            CONSIGNES STRICTES :\n            1. Compare la date de chaque événement avec la date d'aujourd'hui (");
    push_str(&mut r, date);
    push_str(&mut r, ").\n               - Si un événement a lieu un autre jour (comme demain), NE DIS PAS qu'il a lieu aujourd'hui.\n            2. Salue l'utilisateur chaleureusement, souhaite-lui un bon réveil et résume uniquement sa journée d'aujourd'hui en 3 à 4 phrases maximum.\n            3. Termine par une note d'encouragement ou une phrase élégante de majordome.");
    assert(r@ =~= briefing_prompt_text(date@, time@, events@, mails@));
    r
}

/// The agenda part of the briefing: one event per line, or `No events`.
pub open spec fn agenda_text(events: Seq<CalendarEvent>) -> Seq<char> {
    if events.len() == 0 {
        "No events"@
    } else {
        event_lines(EventStyle::Briefing, events)
    }
}

/// One message of the briefing: `- De from: subject`.
pub open spec fn mail_line(e: EmailSummary) -> Seq<char> {
    "- De "@ + e.from@ + ": "@ + e.subject@
}

/// The messages part of the briefing: one message per line, or `No urgent messages.`.
pub open spec fn mails_text(mails: Seq<EmailSummary>) -> Seq<char> {
    if mails.len() == 0 {
        "No urgent messages."@
    } else {
        joined(Seq::new(mails.len(), |i: int| mail_line(mails[i])), "\n"@)
    }
}

/// The briefing names every important message, in order: each message's line
/// `- De <from>: <subject>` occurs in the messages part and in the whole prompt, and the part
/// for the first messages is the beginning of the part for all of them.
pub proof fn lemma_briefing_names_every_message(
    mails: Seq<EmailSummary>,
    date: Seq<char>,
    time: Seq<char>,
    events: Seq<CalendarEvent>,
)
    requires
        mails.len() > 0,
    ensures
        forall|i: int| 0 <= i < mails.len()
            ==> has_sub(mails_text(mails), "- De "@ + (#[trigger] mails[i]).from@ + ": "@ + mails[i].subject@),
        forall|i: int| 0 <= i < mails.len()
            ==> has_sub(
                briefing_prompt_text(date, time, agenda_text(events), mails_text(mails)),
                "- De "@ + (#[trigger] mails[i]).from@ + ": "@ + mails[i].subject@,
            ),
        forall|k: int| 0 < k <= mails.len()
            ==> (#[trigger] mails_text(mails.take(k))).is_prefix_of(mails_text(mails)),
{
    let parts = Seq::new(mails.len(), |i: int| mail_line(mails[i]));
    lemma_joined_parts(parts, "\n"@);
    let m = mails_text(mails);
    let whole = briefing_prompt_text(date, time, agenda_text(events), m);
    let pre = "RÔLE : Tu es Alfred, l'assistant personnel et majordome de l'utilisateur. C'est son réveil.\n\n            CONTEXTE TEMPOREL STRICT :\n            - Aujourd'hui nous sommes le : "@ + date + "\n            - Heure actuelle : "@ + time + " (Fuseau : Europe/Paris)\n\n            DONNÉES BRUTES DE L'AGENDA :\n            [Agenda]\n            "@ + agenda_text(events) + "\n\n            [Messages importants]\n            "@;
    let post = "\n\n            CONSIGNES STRICTES :\n            1. Compare la date de chaque événement avec la date d'aujourd'hui ("@ + date + ").\n               - Si un événement a lieu un autre jour (comme demain), NE DIS PAS qu'il a lieu aujourd'hui.\n            2. Salue l'utilisateur chaleureusement, souhaite-lui un bon réveil et résume uniquement sa journée d'aujourd'hui en 3 à 4 phrases maximum.\n            3. Termine par une note d'encouragement ou une phrase élégante de majordome."@;
    assert(whole =~= pre + m + post);
    assert forall|i: int| 0 <= i < mails.len()
        implies has_sub(m, "- De "@ + (#[trigger] mails[i]).from@ + ": "@ + mails[i].subject@)
            && has_sub(whole, "- De "@ + mails[i].from@ + ": "@ + mails[i].subject@) by {
        assert(parts[i] == mail_line(mails[i]));
        assert(has_sub(m, parts[i]));
        let p = choose|p: int| occurs_at(m, parts[i], p);
        lemma_occurs_within(pre, m, post, parts[i], p);
    }
    assert forall|k: int| 0 < k <= mails.len()
        implies (#[trigger] mails_text(mails.take(k))).is_prefix_of(m) by {
        assert(Seq::new(mails.take(k).len(), |i: int| mail_line(mails.take(k)[i])) =~= parts.take(k));
        assert(joined(parts.take(k), "\n"@).is_prefix_of(joined(parts, "\n"@)));
    }
}

/// The wake-up briefing.
pub struct MorningBriefingService;

impl MorningBriefingService {
    /// The briefing prompt for the given agenda and messages, dated `date` at `time`.
    pub fn briefing_at(events: &Vec<CalendarEvent>, mails: &Vec<EmailSummary>, date: &str, time: &str) -> (r: String)
        ensures
            r@ == briefing_prompt_text(date@, time@, agenda_text(events@), mails_text(mails@)),
    {
        let agenda = if events.len() == 0 {
            owned("No events")
        } else {
            format_events(&EventStyle::Briefing, events)
        };
        let messages = if mails.len() == 0 {
            owned("No urgent messages.")
        } else {
            let mut lines: Vec<String> = Vec::new();
            let mut i: usize = 0;
            while i < mails.len()
                invariant
                    i <= mails@.len(),
                    lines@.len() == i,
                    forall|j: int| 0 <= j < i ==> (#[trigger] lines@[j])@ == mail_line(mails@[j]),
                decreases mails@.len() - i,
            {
                let mut l = owned("- De ");
                push_str(&mut l, mails[i].from.as_str());
                push_str(&mut l, ": ");
                push_str(&mut l, mails[i].subject.as_str());
                lines.push(l);
                i = i + 1;
            }
            assert(views(lines@) =~= Seq::new(mails@.len(), |k: int| mail_line(mails@[k])));
            join(&lines, "\n")
        };
        briefing_prompt(date, time, agenda.as_str(), messages.as_str())
    }

    /// The briefing prompt for the given agenda and messages, dated now in Paris.
    pub fn generate_briefing(events: &Vec<CalendarEvent>, mails: &Vec<EmailSummary>) -> (r: Result<String, String>)
        ensures
            r is Ok,
            exists|date: Seq<char>, time: Seq<char>| dated_text(date) && hm_text(time)
                && r->Ok_0@ == briefing_prompt_text(date, time, agenda_text(events@), mails_text(mails@)),
    {
        let (date, time) = paris_date_and_time();
        Ok(Self::briefing_at(events, mails, date.as_str(), time.as_str()))
    }
}

} // verus!
