use alfred::application::{ApplicationService, LaunchOutcome};
use alfred::handlers::{
    AppLauncher, FirefoxCommand, HelloCommand, OpenCommand, QuitCommand, SearchCommand, SpotifyCommand, TimeCommand,
    WeatherCommand, WeatherLookup, WebSearch,
};
use alfred::json::json_text;
use alfred::registry::{Args, CommandHandler, ToolDescription};

struct Launcher {
    outcome: u8,
}

impl AppLauncher for Launcher {
    fn launch(&self, variable: &str) -> LaunchOutcome {
        if variable != "FIREFOX_PATH" {
            return LaunchOutcome::Failed;
        }
        match self.outcome {
            0 => LaunchOutcome::Started,
            1 => LaunchOutcome::VariableMissing,
            _ => LaunchOutcome::Failed,
        }
    }
}

struct Search;

impl WebSearch for Search {
    fn get_search(&self, query: &str) -> String {
        format!("found: {}", query)
    }
}

struct Weather;

impl WeatherLookup for Weather {
    fn get_weather_city(&self, city: &str, date: Option<&str>) -> String {
        format!("{}|{}", city, date.unwrap_or("-"))
    }
}

fn args(v: Vec<(&str, &str)>) -> Args {
    Args { entries: v.into_iter().map(|(k, x)| (k.to_string(), x.to_string())).collect() }
}

fn open(outcome: u8) -> OpenCommand<Launcher> {
    let apps = ApplicationService::new(vec![("firefox".to_string(), "FIREFOX_PATH".to_string())]);
    OpenCommand::new(apps, Launcher { outcome })
}

#[test]
fn open_command_reports_each_launch_outcome() {
    let a = args(vec![("app_name", "firefox")]);
    assert_eq!(CommandHandler::<Args>::execute(&open(0), &a), "firefox successfully launched !");
    assert_eq!(CommandHandler::<Args>::execute(&open(1), &a), "FIREFOX_PATH missing is .env");
    assert_eq!(CommandHandler::<Args>::execute(&open(2), &a), "Launch failure of firefox.");
    assert_eq!(CommandHandler::<Args>::execute(&open(0), &args(vec![("app_name", "vlc")])), "Application not found.");
    assert_eq!(CommandHandler::<Args>::execute(&open(0), &Args::empty()), "Missing argument: app_name");
}

#[test]
fn open_command_from_console_words() {
    let words = vec!["firefox".to_string(), "extra".to_string()];
    assert_eq!(CommandHandler::<Vec<String>>::execute(&open(0), &words), "firefox successfully launched !");
    assert_eq!(
        CommandHandler::<Vec<String>>::execute(&open(0), &vec![]),
        "Missing argument; specify the name of the app to launch."
    );
}

#[test]
fn search_command_hands_the_query_on() {
    let s = SearchCommand { search: Search };
    assert_eq!(CommandHandler::<Args>::execute(&s, &args(vec![("query", "rust verus")])), "found: rust verus");
    assert_eq!(CommandHandler::<Args>::execute(&s, &Args::empty()), "Missing argument: query");
    let words = vec!["prix".to_string(), "du".to_string(), "pain".to_string()];
    assert_eq!(CommandHandler::<Vec<String>>::execute(&s, &words), "found: prix du pain");
    assert_eq!(
        CommandHandler::<Vec<String>>::execute(&s, &vec![]),
        "Missing argument : specify the search to be performed"
    );
}

#[test]
fn weather_command_reads_city_and_date() {
    let w = WeatherCommand { weather: Weather };
    assert_eq!(w.execute(&args(vec![("city", "Paris"), ("date", "now")])), "Paris|-");
    assert_eq!(w.execute(&args(vec![("city", "Lyon"), ("date", "2026-08-15")])), "Lyon|2026-08-15");
    assert_eq!(w.execute(&args(vec![("city", "Lyon")])), "Lyon|-");
    assert_eq!(w.execute(&args(vec![("date", "now")])), "Missing argument: city");
}

#[test]
fn time_command_gives_hours_minutes_seconds() {
    let t = TimeCommand.execute(&Args::empty());
    let c: Vec<char> = t.chars().collect();
    assert_eq!(c.len(), 8);
    assert_eq!((c[2], c[5]), (':', ':'));
    for i in [0, 1, 3, 4, 6, 7] {
        assert!(c[i].is_ascii_digit());
    }
}

#[test]
fn fixed_replies_and_variables() {
    assert_eq!(QuitCommand.execute(&Args::empty()), "Shutdown in progress...");
    assert_eq!(HelloCommand.execute(&vec![]), "Hello !");
    assert_eq!(FirefoxCommand::variable(), "FIREFOX_PATH");
    assert_eq!(SpotifyCommand::variable(), "SPOTIFY_PATH");
}

#[test]
fn quit_tool_description_text() {
    assert_eq!(
        json_text(&QuitCommand.description()),
        "{\"type\":\"function\",\"function\":{\"name\":\"quit\",\"description\":\"Exit the assistant application.\",\"parameters\":{\"type\":\"object\",\"properties\":{}}}}"
    );
}
