//! The tools that run without a mail, calendar or music account: opening an application, a web
//! search, the weather, the time, the greeting and quitting. The services they reach (process
//! launch, web search, weather lookup) are handed in by the caller.
use crate::application::{launch_text, ApplicationService, LaunchOutcome};
use crate::calendar::opt_str;
use crate::descriptions::{
    open_tool, open_tool_json, quit_tool, quit_tool_json, search_tool, search_tool_json, time_tool, time_tool_json,
    weather_tool, weather_tool_json,
};
use crate::json::Json;
use crate::registry::{Args, CommandHandler, ToolDescription};
use crate::text::{join, joined, owned, views};
use crate::tools::missing;
use crate::trusted::{hms_text, paris_clock};
use crate::weather::WeatherService;
use vstd::prelude::*;

verus! {

/// Starts the program whose path an environment variable holds.
pub trait AppLauncher {
    fn launch(&self, variable: &str) -> LaunchOutcome;
}

/// Searches the web and gives the answer's text.
pub trait WebSearch {
    fn get_search(&self, query: &str) -> String;
}

/// Looks up the weather of a city, now or on a date, and gives the report.
pub trait WeatherLookup {
    fn get_weather_city(&self, city: &str, date: Option<&str>) -> String;
}

/// `reply` is the answer to opening `app_name`: the launcher was handed `variable` and gave an
/// outcome, and the reply is the text of that outcome.
pub open spec fn launched<L: AppLauncher>(launcher: L, app_name: Seq<char>, variable: Seq<char>, reply: Seq<char>) -> bool {
    exists|v: &str, outcome: LaunchOutcome| #![trigger call_ensures(L::launch, (&launcher, v), outcome)]
        v@ == variable && call_ensures(L::launch, (&launcher, v), outcome) && reply == launch_text(app_name, variable, outcome)
}

/// `reply` is what the search service answers for `query`.
pub open spec fn searched<S: WebSearch>(search: S, query: Seq<char>, reply: String) -> bool {
    exists|q: &str| #![trigger call_ensures(S::get_search, (&search, q), reply)]
        q@ == query && call_ensures(S::get_search, (&search, q), reply)
}

/// `reply` is what the weather service answers for `city` on `date` (`None`: now).
pub open spec fn forecast<W: WeatherLookup>(weather: W, city: Seq<char>, date: Option<Seq<char>>, reply: String) -> bool {
    exists|c: &str, d: Option<&str>| #![trigger call_ensures(W::get_weather_city, (&weather, c, d), reply)]
        c@ == city && opt_str(d) == date && call_ensures(W::get_weather_city, (&weather, c, d), reply)
}

/// Opens a desktop application by name.
pub struct OpenCommand<L> {
    pub app_service: ApplicationService,
    pub launcher: L,
}

impl<L> OpenCommand<L> {
    pub fn new(app_service: ApplicationService, launcher: L) -> (r: Self)
        ensures
            r.app_service == app_service,
            r.launcher == launcher,
    {
        OpenCommand { app_service, launcher }
    }
}

impl<L: AppLauncher> OpenCommand<L> {
    fn open_app(&self, app_name: &str) -> (r: String)
        ensures
            self.app_service.variable(app_name@) is None ==> r@ == "Application not found."@,
            self.app_service.variable(app_name@) matches Some(v) ==> launched(self.launcher, app_name@, v, r@),
    {
        match self.app_service.open(app_name) {
            Ok(variable) => {
                let outcome = self.launcher.launch(variable.as_str());
                ApplicationService::launch_reply(app_name, variable.as_str(), outcome)
            },
            Err(reply) => reply,
        }
    }
}

impl<L: AppLauncher> CommandHandler<Args> for OpenCommand<L> {
    /// Opens the application named by `app_name`.
    fn execute(&self, args: &Args) -> (r: String)
        ensures
            args.arg("app_name"@) is None ==> r@ == missing("app_name"@),
            args.arg("app_name"@) matches Some(a) ==> (self.app_service.variable(a) is None ==> r@ == "Application not found."@),
            args.arg("app_name"@) matches Some(a) ==> (self.app_service.variable(a) matches Some(v) ==> launched(self.launcher, a, v, r@)),
    {
        match args.get("app_name") {
            Some(a) => self.open_app(a.as_str()),
            None => crate::text::cat("Missing argument: ", "app_name"),
        }
    }
}

impl<L: AppLauncher> CommandHandler<Vec<String>> for OpenCommand<L> {
    /// Opens the application named by the first word.
    fn execute(&self, args: &Vec<String>) -> (r: String)
        ensures
            args@.len() == 0 ==> r@ == "Missing argument; specify the name of the app to launch."@,
            args@.len() > 0 ==> (self.app_service.variable(args@[0]@) is None ==> r@ == "Application not found."@),
            args@.len() > 0 ==> (self.app_service.variable(args@[0]@) matches Some(v) ==> launched(self.launcher, args@[0]@, v, r@)),
    {
        if args.len() < 1 {
            return owned("Missing argument; specify the name of the app to launch.");
        }
        self.open_app(args[0].as_str())
    }
}

impl<L> ToolDescription for OpenCommand<L> {
    fn description(&self) -> (r: Json)
        ensures
            r@ == open_tool_json(),
    {
        open_tool()
    }
}

/// Searches the web.
pub struct SearchCommand<S> {
    pub search: S,
}

impl<S: WebSearch> CommandHandler<Args> for SearchCommand<S> {
    /// Searches for the `query` argument.
    fn execute(&self, args: &Args) -> (r: String)
        ensures
            args.arg("query"@) is None ==> r@ == missing("query"@),
            args.arg("query"@) matches Some(q) ==> searched(self.search, q, r),
    {
        match args.get("query") {
            Some(q) => self.search.get_search(q.as_str()),
            None => crate::text::cat("Missing argument: ", "query"),
        }
    }
}

impl<S: WebSearch> CommandHandler<Vec<String>> for SearchCommand<S> {
    /// Searches for the words given, joined by spaces.
    fn execute(&self, args: &Vec<String>) -> (r: String)
        ensures
            args@.len() == 0 ==> r@ == "Missing argument : specify the search to be performed"@,
            args@.len() > 0 ==> searched(self.search, joined(views(args@), " "@), r),
    {
        if args.len() < 1 {
            return owned("Missing argument : specify the search to be performed");
        }
        let q = join(args, " ");
        self.search.get_search(q.as_str())
    }
}

impl<S> ToolDescription for SearchCommand<S> {
    fn description(&self) -> (r: Json)
        ensures
            r@ == search_tool_json(),
    {
        search_tool()
    }
}

/// Gives the weather of a city.
pub struct WeatherCommand<W> {
    pub weather: W,
}

impl<W: WeatherLookup> CommandHandler<Args> for WeatherCommand<W> {
    /// The weather of the `city` argument, on `date` (now when absent or `now`).
    fn execute(&self, args: &Args) -> (r: String)
        ensures
            args.arg("city"@) is None ==> r@ == missing("city"@),
            args.arg("city"@) matches Some(c) ==> forecast(self.weather, c, match args.arg("date"@) {
                Some(d) => if d == "now"@ { None } else { Some(d) },
                None => None,
            }, r),
    {
        match WeatherService::weather_args(args) {
            Ok((city, date)) => match date {
                Some(d) => self.weather.get_weather_city(city.as_str(), Some(d.as_str())),
                None => self.weather.get_weather_city(city.as_str(), None),
            },
            Err(e) => e,
        }
    }
}

impl<W> ToolDescription for WeatherCommand<W> {
    fn description(&self) -> (r: Json)
        ensures
            r@ == weather_tool_json(),
    {
        weather_tool()
    }
}

/// Gives the time in Paris.
pub struct TimeCommand;

impl CommandHandler<Args> for TimeCommand {
    /// The current time in Paris, `HH:MM:SS`.
    fn execute(&self, _args: &Args) -> (r: String)
        ensures
            hms_text(r@),
    {
        paris_clock()
    }
}

impl ToolDescription for TimeCommand {
    fn description(&self) -> (r: Json)
        ensures
            r@ == time_tool_json(),
    {
        time_tool()
    }
}

/// Ends the session.
pub struct QuitCommand;

impl CommandHandler<Args> for QuitCommand {
    fn execute(&self, _args: &Args) -> (r: String)
        ensures
            r@ == "Shutdown in progress..."@,
    {
        owned("Shutdown in progress...")
    }
}

impl ToolDescription for QuitCommand {
    fn description(&self) -> (r: Json)
        ensures
            r@ == quit_tool_json(),
    {
        quit_tool()
    }
}

/// Greets the user.
pub struct HelloCommand;

impl CommandHandler<Vec<String>> for HelloCommand {
    fn execute(&self, _args: &Vec<String>) -> (r: String)
        ensures
            r@ == "Hello !"@,
    {
        owned("Hello !")
    }
}

/// Launches the browser whose path `FIREFOX_PATH` holds.
pub struct FirefoxCommand;

impl FirefoxCommand {
    /// The environment variable that holds the browser's path.
    pub fn variable() -> (r: &'static str)
        ensures
            r@ == "FIREFOX_PATH"@,
    {
        "FIREFOX_PATH"
    }
}

/// Launches the music player whose path `SPOTIFY_PATH` holds.
pub struct SpotifyCommand;

impl SpotifyCommand {
    /// The environment variable that holds the music player's path.
    pub fn variable() -> (r: &'static str)
        ensures
            r@ == "SPOTIFY_PATH"@,
    {
        "SPOTIFY_PATH"
    }
}

} // verus!
