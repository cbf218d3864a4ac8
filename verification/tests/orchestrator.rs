use alfred::json::{json_text, Json};
use alfred::orchestrator::{strip_markdown, Orchestrator, Step, Turn};
use alfred::registry::{Args, CommandHandler, CommandRegistry};

fn s(x: &str) -> Json {
    Json::Str(x.to_string())
}

fn obj(m: Vec<(&str, Json)>) -> Json {
    Json::Object(m.into_iter().map(|(k, v)| (k.to_string(), v)).collect())
}

struct Echo;

impl CommandHandler<Args> for Echo {
    fn execute(&self, args: &Args) -> String {
        format!("echo:{}", args.get("x").cloned().unwrap_or_default())
    }
}

#[test]
fn user_and_tool_messages() {
    assert_eq!(json_text(&Orchestrator::user_message("hi")), "{\"role\":\"user\",\"content\":\"hi\"}");
    assert_eq!(json_text(&Orchestrator::tool_message("r")), "{\"role\":\"tool\",\"content\":\"r\"}");
    assert_eq!(
        json_text(&Orchestrator::named_tool_message("time", "c1", "12:00")),
        "{\"role\":\"tool\",\"name\":\"time\",\"tool_call_id\":\"c1\",\"content\":\"12:00\"}"
    );
}

#[test]
fn clean_history_keeps_objects_in_order() {
    let mut h = vec![obj(vec![("a", Json::Null)]), Json::Null, s("x"), obj(vec![("b", Json::Null)])];
    Orchestrator::clean_history(&mut h);
    assert_eq!(h.len(), 2);
    assert_eq!(json_text(&h[0]), "{\"a\":null}");
    assert_eq!(json_text(&h[1]), "{\"b\":null}");
    Orchestrator::clean_history(&mut h);
    assert_eq!(h.len(), 2);
}

#[test]
fn reply_turn_and_default_reply() {
    let r = obj(vec![("message", obj(vec![("role", s("assistant")), ("content", s("Bien, Monsieur."))]))]);
    let (m, t) = Orchestrator::read_turn(&r);
    assert_eq!(json_text(&m), "{\"role\":\"assistant\",\"content\":\"Bien, Monsieur.\"}");
    assert!(matches!(t, Turn::Reply(ref x) if x == "Bien, Monsieur."));
    let empty_calls = obj(vec![("message", obj(vec![("tool_calls", Json::Array(vec![]))]))]);
    let (_, t2) = Orchestrator::read_turn(&empty_calls);
    assert!(matches!(t2, Turn::Reply(ref x) if x == "Pas de réponse."));
    let (m3, t3) = Orchestrator::read_turn(&obj(vec![]));
    assert!(matches!(m3, Json::Null));
    assert!(matches!(t3, Turn::Reply(ref x) if x == "Pas de réponse."));
}

#[test]
fn tool_turn_runs_each_call() {
    let call = obj(vec![(
        "function",
        obj(vec![("name", s("echo")), ("arguments", obj(vec![("x", s("1")), ("n", Json::Number("2".to_string()))]))]),
    )]);
    let r = obj(vec![("message", obj(vec![("tool_calls", Json::Array(vec![call, obj(vec![])]))]))]);
    let (_, t) = Orchestrator::read_turn(&r);
    let calls = match t {
        Turn::Tools(c) => c,
        _ => panic!("expected tools"),
    };
    assert_eq!(calls.len(), 2);
    let mut reg = CommandRegistry::new();
    reg.register("echo".to_string(), Echo);
    let mut history = Vec::new();
    let c0 = Orchestrator::ollama_call(&calls[0]);
    assert_eq!(c0.name, "echo");
    assert_eq!(c0.args.entries, vec![("x".to_string(), "1".to_string()), ("n".to_string(), String::new())]);
    assert_eq!(Orchestrator::run_tool(&reg, &mut history, &c0, false), "echo:1");
    let c1 = Orchestrator::ollama_call(&calls[1]);
    assert_eq!(c1.name, "");
    assert_eq!(Orchestrator::run_tool(&reg, &mut history, &c1, true), "Commande inconnue.");
    assert_eq!(history.len(), 2);
    assert_eq!(json_text(&history[0]), "{\"role\":\"tool\",\"content\":\"echo:1\"}");
}

#[test]
fn hosted_model_arguments() {
    let call = obj(vec![
        ("id", s("abc")),
        ("function", obj(vec![("name", s("weather")), ("arguments", s("{\"city\":\"Paris\",\"days\":3}"))])),
    ]);
    assert_eq!(Orchestrator::mistral_raw_args(&call), "{\"city\":\"Paris\",\"days\":3}");
    let parsed = obj(vec![("city", s("Paris")), ("days", Json::Number("3".to_string())), ("f", Json::Array(vec![Json::Bool(true)]))]);
    let c = Orchestrator::mistral_call(&call, Some(parsed));
    assert_eq!(c.name, "weather");
    assert_eq!(c.call_id, "abc");
    assert_eq!(
        c.args.entries,
        vec![
            ("city".to_string(), "Paris".to_string()),
            ("days".to_string(), "3".to_string()),
            ("f".to_string(), "[true]".to_string())
        ]
    );
    let none = Orchestrator::mistral_call(&call, None);
    assert!(none.args.entries.is_empty());
    let no_args = obj(vec![("function", obj(vec![]))]);
    assert_eq!(Orchestrator::mistral_raw_args(&no_args), "{}");
}

#[test]
fn failures_and_markdown() {
    assert_eq!(Orchestrator::ollama_failure("down"), "An error occurred with the connection to the LLM : down");
    assert_eq!(Orchestrator::mistral_failure("down"), "Erreur lors de la connexion à l'API Mistral : down");
    assert_eq!(strip_markdown("**Bonjour** *Monsieur*"), "Bonjour Monsieur");
    assert_eq!(strip_markdown("1. un\n- deux\n# Titre\n[lien](http://x)"), "un\ndeux\nTitre\nlien");
}

#[test]
fn answer_step_with_tools_then_reply() {
    let mut reg = CommandRegistry::new();
    reg.register("echo".to_string(), Echo);
    let call = |name: &str, x: &str| {
        obj(vec![("function", obj(vec![("name", s(name)), ("arguments", obj(vec![("x", s(x))]))]))])
    };
    let answer = obj(vec![("message", obj(vec![("role", s("assistant")), ("tool_calls", Json::Array(vec![call("echo", "7"), call("nope", "")]))]))]);
    let mut history = vec![Orchestrator::user_message("go")];
    match Orchestrator::answer_step(&reg, &mut history, &answer, false, &vec![]) {
        Step::Again(done) => {
            assert_eq!(done, vec![("echo".to_string(), "echo:7".to_string()), ("nope".to_string(), "Commande inconnue.".to_string())]);
        },
        _ => panic!("expected tool calls"),
    }
    assert_eq!(history.len(), 4);
    assert_eq!(json_text(&history[2]), "{\"role\":\"tool\",\"content\":\"echo:7\"}");
    assert_eq!(json_text(&history[3]), "{\"role\":\"tool\",\"content\":\"Commande inconnue.\"}");
    let reply = obj(vec![("message", obj(vec![("role", s("assistant")), ("content", s("**Fait**"))]))]);
    assert!(matches!(Orchestrator::answer_step(&reg, &mut history, &reply, false, &vec![]), Step::Done(ref t) if t == "**Fait**"));
    assert_eq!(history.len(), 5);
    assert!(matches!(Orchestrator::answer_step(&reg, &mut history, &reply, true, &vec![]), Step::Done(ref t) if t == "Fait"));
}

#[test]
fn answer_step_for_the_hosted_model() {
    let mut reg = CommandRegistry::new();
    reg.register("echo".to_string(), Echo);
    let call = obj(vec![
        ("id", s("c9")),
        ("function", obj(vec![("name", s("echo")), ("arguments", s("{\"x\":\"5\"}"))])),
    ]);
    let answer = obj(vec![("message", obj(vec![("tool_calls", Json::Array(vec![call]))]))]);
    assert_eq!(Orchestrator::pending_raw_args(&answer), vec!["{\"x\":\"5\"}".to_string()]);
    let parsed = vec![Some(obj(vec![("x", s("5"))]))];
    let mut history = Vec::new();
    assert!(matches!(Orchestrator::answer_step(&reg, &mut history, &answer, true, &parsed), Step::Again(ref d) if d[0].1 == "echo:5"));
    assert_eq!(json_text(&history[1]), "{\"role\":\"tool\",\"name\":\"echo\",\"tool_call_id\":\"c9\",\"content\":\"echo:5\"}");
    let mut h2 = Vec::new();
    assert!(matches!(Orchestrator::answer_step(&reg, &mut h2, &answer, true, &vec![]), Step::Again(ref d) if d[0].1 == "echo:"));
    assert!(Orchestrator::pending_raw_args(&obj(vec![])).is_empty());
}

#[test]
fn failed_model_call_ends_the_turn() {
    let reg: CommandRegistry<Echo> = CommandRegistry::new();
    let mut history = vec![Orchestrator::user_message("go")];
    let failed: Result<Json, String> = Err("timeout".to_string());
    assert!(matches!(Orchestrator::step(&reg, &mut history, &failed, false, &vec![]),
        Step::Failed(ref t) if t == "An error occurred with the connection to the LLM : timeout"));
    assert!(matches!(Orchestrator::step(&reg, &mut history, &failed, true, &vec![]),
        Step::Failed(ref t) if t == "Erreur lors de la connexion à l'API Mistral : timeout"));
    assert_eq!(history.len(), 1);
    let ok: Result<Json, String> = Ok(obj(vec![("message", obj(vec![("content", s("Oui"))]))]));
    assert!(matches!(Orchestrator::step(&reg, &mut history, &ok, false, &vec![]), Step::Done(ref t) if t == "Oui"));
    assert_eq!(history.len(), 2);
}
