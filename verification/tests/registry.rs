use alfred::json::{json_text, Json};
use alfred::registry::{Args, CommandHandler, CommandRegistry, ToolDescription};

struct Echo {
    reply: String,
}

impl CommandHandler<Args> for Echo {
    fn execute(&self, args: &Args) -> String {
        match args.get("x") {
            Some(x) => format!("{}:{}", self.reply, x),
            None => self.reply.clone(),
        }
    }
}

impl ToolDescription for Echo {
    fn description(&self) -> Json {
        Json::Str(self.reply.clone())
    }
}

fn echo(r: &str) -> Echo {
    Echo { reply: r.to_string() }
}

#[test]
fn register_appends_new_names_and_replaces_known_ones() {
    let mut reg: CommandRegistry<Echo> = CommandRegistry::new();
    assert_eq!(reg.len(), 0);
    reg.register("a".to_string(), echo("first"));
    reg.register("b".to_string(), echo("second"));
    assert_eq!(reg.len(), 2);
    reg.register("a".to_string(), echo("third"));
    assert_eq!(reg.len(), 2);
    assert_eq!(reg.lookup("a").unwrap().reply, "third");
    assert_eq!(reg.lookup("b").unwrap().reply, "second");
    assert!(reg.lookup("c").is_none());
}

#[test]
fn execute_runs_the_named_command_or_answers_unknown() {
    let mut reg: CommandRegistry<Echo> = CommandRegistry::new();
    reg.register("say".to_string(), echo("hi"));
    let args = Args { entries: vec![("x".to_string(), "1".to_string())] };
    assert_eq!(reg.execute("say", &args), "hi:1");
    assert_eq!(reg.execute("say", &Args::empty()), "hi");
    assert_eq!(reg.execute("nope", &args), "Commande inconnue.");
}

#[test]
fn build_tools_lists_descriptions_in_registration_order() {
    let mut reg: CommandRegistry<Echo> = CommandRegistry::new();
    assert_eq!(json_text(&reg.build_tools()), "[]");
    reg.register("z".to_string(), echo("zed"));
    reg.register("a".to_string(), echo("ay"));
    reg.register("z".to_string(), echo("zed2"));
    assert_eq!(json_text(&reg.build_tools()), "[\"zed2\",\"ay\"]");
}

#[test]
fn args_lookup_takes_the_first_entry_of_a_name() {
    let args = Args { entries: vec![("k".to_string(), "v1".to_string()), ("k".to_string(), "v2".to_string())] };
    assert_eq!(args.get("k"), Some(&"v1".to_string()));
    assert!(args.get("K").is_none());
    assert!(Args::empty().get("k").is_none());
}
