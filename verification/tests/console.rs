use alfred::console::{action_command, is_quit, open_target, parse_command, parser, search_text, Command};

#[test]
fn parser_splits_name_and_args() {
    let c = parser("  open  firefox now ");
    assert_eq!(c.name, "open");
    assert_eq!(c.args, vec!["firefox".to_string(), "now".to_string()]);
}

#[test]
fn action_command_answers_hello() {
    assert_eq!(action_command("bonjour"), "Hello !");
    assert_eq!(action_command("nope"), "Commande inconnue");
}

#[test]
fn commands_by_word() {
    assert!(matches!(parse_command("hello"), Command::Hello));
    assert!(matches!(parse_command("bonjour"), Command::Hello));
    assert!(matches!(parse_command("heure"), Command::Time));
    assert!(matches!(parse_command("time"), Command::Time));
    assert!(matches!(parse_command("quit"), Command::Quit));
    assert!(matches!(parse_command("Quit"), Command::Unknown));
    assert_eq!(action_command("quit"), "Shutdown in progress...");
    assert_eq!(action_command("hello"), "Hello !");
    let t = action_command("heure");
    assert_eq!(t.len(), 8);
    assert!(is_quit("quit"));
    assert!(!is_quit("quit "));
}

#[test]
fn console_arguments() {
    let c = parser("search rust  lang");
    assert_eq!(search_text(&c.args), Ok("rust lang".to_string()));
    assert_eq!(search_text(&vec![]), Err("Missing argument : specify the search to be performed".to_string()));
    let o = parser("open firefox");
    assert_eq!(open_target(&o.args), Ok("firefox".to_string()));
    assert_eq!(open_target(&vec![]), Err("Missing argument; specify the name of the app to launch.".to_string()));
    let single = parser("hello");
    assert_eq!(single.name, "hello");
    assert!(single.args.is_empty());
}
