//! The console commands: splitting a typed line into a command and its arguments, and the
//! commands that answer by themselves.
use crate::text::{blank, is_whitespace, is_ws, joined, join, owned, push_char, str_eq, views};
use crate::trusted::{hms_text, paris_clock};
use vstd::prelude::*;

verus! {

/// A typed command: its name and its arguments.
pub struct UserCommand {
    pub name: String,
    pub args: Vec<String>,
}

/// The scan of a text into white-space separated words: the finished words and the word in
/// progress.
pub open spec fn split_scan(s: Seq<char>) -> (Seq<Seq<char>>, Seq<char>)
    decreases s.len(),
{
    if s.len() == 0 {
        (Seq::empty(), Seq::empty())
    } else {
        let (done, cur) = split_scan(s.drop_last());
        let c = s.last();
        if is_ws(c) {
            if cur.len() > 0 {
                (done.push(cur), Seq::empty())
            } else {
                (done, cur)
            }
        } else {
            (done, cur.push(c))
        }
    }
}

/// The white-space separated words of a text (`str::split_whitespace`).
pub open spec fn words(s: Seq<char>) -> Seq<Seq<char>> {
    let (done, cur) = split_scan(s);
    if cur.len() > 0 {
        done.push(cur)
    } else {
        done
    }
}

/// A text that is not blank has at least one word.
pub proof fn lemma_words_nonempty(s: Seq<char>)
    requires
        !blank(s),
    ensures
        words(s).len() > 0,
{
    lemma_scan_count(s);
}

proof fn lemma_scan_count(s: Seq<char>)
    ensures
        !blank(s) ==> split_scan(s).0.len() + (if split_scan(s).1.len() > 0 { 1int } else { 0int }) >= 1,
        split_scan(s).0.len() >= 0,
    decreases s.len(),
{
    if s.len() > 0 {
        lemma_scan_count(s.drop_last());
        if !blank(s) && blank(s.drop_last()) {
            let k = choose|k: int| 0 <= k < s.len() && !is_ws(s[k]);
            if k < s.len() - 1 {
                assert(s.drop_last()[k] == s[k]);
            }
        }
        if !blank(s) && !blank(s.drop_last()) {
        } else if !blank(s) {
            assert forall|j: int| 0 <= j < s.len() - 1 implies is_ws(s[j]) by {
                assert(s.drop_last()[j] == s[j]);
            }
        }
    }
}

/// Splits a typed line into its first word (the command) and the other words (its arguments).
pub fn parser(input: &str) -> (r: UserCommand)
    requires
        !blank(input@),
    ensures
        r.name@ == words(input@)[0],
        views(r.args@) == words(input@).drop_first(),
{
    proof {
        lemma_words_nonempty(input@);
    }
    let mut done: Vec<String> = Vec::new();
    let mut cur = String::new();
    for c in it: input.chars()
        invariant
            it.seq() == input@,
            (views(done@), cur@) == split_scan(input@.take(it.index() as int)),
    {
        assert(input@.take(it.index() + 1).drop_last() =~= input@.take(it.index() as int));
        if is_whitespace(c) {
            if cur.unicode_len() > 0 {
                let w = cur;
                done.push(w);
                cur = String::new();
                assert(views(done@) =~= split_scan(input@.take(it.index() as int)).0.push(w@));
            }
        } else {
            push_char(&mut cur, c);
        }
    }
    assert(input@.take(input@.len() as int) =~= input@);
    if cur.unicode_len() > 0 {
        let w = cur;
        done.push(w);
        assert(views(done@) =~= split_scan(input@).0.push(w@));
    }
    let name = owned(done[0].as_str());
    let mut args: Vec<String> = Vec::new();
    let mut i: usize = 1;
    while i < done.len()
        invariant
            1 <= i <= done@.len(),
            views(done@) == words(input@),
            args@.len() == i - 1,
            forall|j: int| 0 <= j < i - 1 ==> (#[trigger] args@[j])@ == done@[j + 1]@,
        decreases done@.len() - i,
    {
        args.push(owned(done[i].as_str()));
        i = i + 1;
    }
    assert(views(args@) =~= words(input@).drop_first());
    UserCommand { name, args }
}

/// The console commands that answer by themselves.
pub enum Command {
    Hello,
    Time,
    Quit,
    Unknown,
}

/// The command that a typed word names.
pub open spec fn command_of(input: Seq<char>) -> Command {
    if input == "hello"@ || input == "bonjour"@ {
        Command::Hello
    } else if input == "quit"@ {
        Command::Quit
    } else if input == "heure"@ || input == "time"@ {
        Command::Time
    } else {
        Command::Unknown
    }
}

/// The command that a typed word names: `hello`/`bonjour`, `quit`, `heure`/`time`, or none.
pub fn parse_command(input: &str) -> (r: Command)
    ensures
        r == command_of(input@),
{
    if str_eq(input, "hello") || str_eq(input, "bonjour") {
        Command::Hello
    } else if str_eq(input, "quit") {
        Command::Quit
    } else if str_eq(input, "heure") || str_eq(input, "time") {
        Command::Time
    } else {
        Command::Unknown
    }
}

/// The greeting.
pub fn handle_hello() -> (r: String)
    ensures
        r@ == "Hello !"@,
{
    owned("Hello !")
}

/// The answer to the quit command.
pub fn handle_quit() -> (r: String)
    ensures
        r@ == "Shutdown in progress..."@,
{
    owned("Shutdown in progress...")
}

/// The current time in Paris, `HH:MM:SS`.
pub fn handle_time() -> (r: String)
    ensures
        hms_text(r@),
{
    paris_clock()
}

/// Runs a console command typed as a single word: the greeting, the time in Paris, the quit
/// answer, or `Commande inconnue`.
pub fn action_command(input: &str) -> (r: String)
    ensures
        command_of(input@) == Command::Hello ==> r@ == "Hello !"@,
        command_of(input@) == Command::Quit ==> r@ == "Shutdown in progress..."@,
        command_of(input@) == Command::Unknown ==> r@ == "Commande inconnue"@,
        command_of(input@) == Command::Time ==> hms_text(r@),
{
    match parse_command(input) {
        Command::Hello => handle_hello(),
        Command::Time => handle_time(),
        Command::Quit => handle_quit(),
        Command::Unknown => owned("Commande inconnue"),
    }
}

/// The application that the console `open` command names: its first argument.
pub fn open_target(args: &Vec<String>) -> (r: Result<String, String>)
    ensures
        args@.len() == 0 ==> r is Err && r->Err_0@ == "Missing argument; specify the name of the app to launch."@,
        args@.len() > 0 ==> r is Ok && r->Ok_0@ == args@[0]@,
{
    if args.len() < 1 {
        return Err(owned("Missing argument; specify the name of the app to launch."));
    }
    Ok(owned(args[0].as_str()))
}

/// The search that the console `search` command asks for: its arguments joined by spaces.
pub fn search_text(args: &Vec<String>) -> (r: Result<String, String>)
    ensures
        args@.len() == 0 ==> r is Err && r->Err_0@ == "Missing argument : specify the search to be performed"@,
        args@.len() > 0 ==> r is Ok && r->Ok_0@ == joined(views(args@), " "@),
{
    if args.len() < 1 {
        return Err(owned("Missing argument : specify the search to be performed"));
    }
    Ok(join(args, " "))
}

/// Whether a typed line ends the session.
pub fn is_quit(input: &str) -> (r: bool)
    ensures
        r == (input@ == "quit"@),
{
    str_eq(input, "quit")
}

} // verus!
