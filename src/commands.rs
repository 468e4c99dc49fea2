//! The chat commands users send, and where a crate's file lies in the index.
use vstd::prelude::*;

verus! {

/// A command sent to the bot.
#[derive(Debug, Clone)]
pub enum Command {
    Start,
    Subscribe(String),
    Unsubscribe(String),
    List,
    Help,
}

pub enum CommandView {
    Start,
    Subscribe(Seq<char>),
    Unsubscribe(Seq<char>),
    List,
    Help,
}

impl View for Command {
    type V = CommandView;

    open spec fn view(&self) -> CommandView {
        match self {
            Command::Start => CommandView::Start,
            Command::Subscribe(s) => CommandView::Subscribe(s@),
            Command::Unsubscribe(s) => CommandView::Unsubscribe(s@),
            Command::List => CommandView::List,
            Command::Help => CommandView::Help,
        }
    }
}

/// The first position at or after `i` that holds `stop`, or the length.
pub open spec fn scan_to(t: Seq<char>, i: int, stop: char) -> int
    decreases t.len() - i,
{
    if i < 0 || i >= t.len() || t[i] == stop {
        i
    } else {
        scan_to(t, i + 1, stop)
    }
}

/// The command word: the text up to the first space, without a trailing
/// `@botname`.
pub open spec fn command_word(t: Seq<char>) -> Seq<char> {
    let w = t.subrange(0, scan_to(t, 0, ' '));
    w.subrange(0, scan_to(w, 0, '@'))
}

/// The argument: everything after the first space.
pub open spec fn command_arg(t: Seq<char>) -> Seq<char> {
    let k = scan_to(t, 0, ' ');
    if k < t.len() {
        t.subrange(k + 1, t.len() as int)
    } else {
        Seq::empty()
    }
}

/// The command a message holds: `/start`, `/list` and `/help` take no
/// argument, `/subscribe` and `/unsubscribe` take a crate name.
pub open spec fn parse_spec(t: Seq<char>) -> Option<CommandView> {
    let c = command_word(t);
    let a = command_arg(t);
    if c == "/start"@ && a.len() == 0 {
        Some(CommandView::Start)
    } else if c == "/list"@ && a.len() == 0 {
        Some(CommandView::List)
    } else if c == "/help"@ && a.len() == 0 {
        Some(CommandView::Help)
    } else if c == "/subscribe"@ && a.len() > 0 {
        Some(CommandView::Subscribe(a))
    } else if c == "/unsubscribe"@ && a.len() > 0 {
        Some(CommandView::Unsubscribe(a))
    } else {
        None
    }
}

fn find_char(t: &str, stop: char) -> (r: usize)
    ensures
        r == scan_to(t@, 0, stop),
        r <= t@.len(),
{
    let n = t.unicode_len();
    let mut i: usize = 0;
    while i < n && t.get_char(i) != stop
        invariant
            n == t@.len(),
            i <= n,
            scan_to(t@, i as int, stop) == scan_to(t@, 0, stop),
        decreases n - i,
    {
        i = i + 1;
    }
    i
}

/// Reads a command from the text of a message.
pub fn parse_command(text: &str) -> (r: Option<Command>)
    ensures
        match r {
            Some(c) => parse_spec(text@) == Some(c@),
            None => parse_spec(text@) is None,
        },
{
    let n = text.unicode_len();
    let k = find_char(text, ' ');
    let word = text.substring_char(0, k);
    let cut = find_char(word, '@');
    let cmd = String::from_str(word.substring_char(0, cut));
    let arg = if k < n {
        String::from_str(text.substring_char(k + 1, n))
    } else {
        String::new()
    };
    assert(cmd@ == command_word(text@));
    assert(arg@ == command_arg(text@));
    let no_arg = arg.unicode_len() == 0;
    if cmd == String::from_str("/start") && no_arg {
        Some(Command::Start)
    } else if cmd == String::from_str("/list") && no_arg {
        Some(Command::List)
    } else if cmd == String::from_str("/help") && no_arg {
        Some(Command::Help)
    } else if cmd == String::from_str("/subscribe") && !no_arg {
        Some(Command::Subscribe(arg))
    } else if cmd == String::from_str("/unsubscribe") && !no_arg {
        Some(Command::Unsubscribe(arg))
    } else {
        None
    }
}

/// Where the index keeps a crate's file: `1/`, `2/` or `3/x/` before names
/// of one, two or three characters, else two directories named by the
/// first four characters, two by two.
pub open spec fn crate_path_spec(name: Seq<char>) -> Option<Seq<char>> {
    if name.len() == 0 {
        None
    } else if name.len() == 1 {
        Some("1/"@ + name)
    } else if name.len() == 2 {
        Some("2/"@ + name)
    } else if name.len() == 3 {
        Some("3/"@ + name.subrange(0, 1) + "/"@ + name)
    } else {
        Some(name.subrange(0, 2) + "/"@ + name.subrange(2, 4) + "/"@ + name)
    }
}

/// The path of a crate's file relative to the index root.
pub fn crate_path(name: &str) -> (r: Option<String>)
    ensures
        match r {
            Some(p) => crate_path_spec(name@) == Some(p@),
            None => crate_path_spec(name@) is None,
        },
{
    let n = name.unicode_len();
    if n == 0 {
        return None;
    }
    let mut p = if n == 1 {
        String::from_str("1/")
    } else if n == 2 {
        String::from_str("2/")
    } else if n == 3 {
        let mut d = String::from_str("3/");
        d.append(name.substring_char(0, 1));
        d.append("/");
        d
    } else {
        let mut d = String::from_str(name.substring_char(0, 2));
        d.append("/");
        d.append(name.substring_char(2, 4));
        d.append("/");
        d
    };
    p.append(name);
    Some(p)
}

} // verus!
