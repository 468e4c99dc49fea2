use crate_upd_bot::commands::{crate_path, parse_command, Command};
use crate_upd_bot::record::{DecodeError, VersionRecord};
use crate_upd_bot::replies::{
    list_entry, list_text, no_such_crate_text, read_last, subscribed_text, unsubscribed_text,
};

fn name_of(c: Option<Command>) -> String {
    match c {
        Some(Command::Start) => "start".into(),
        Some(Command::List) => "list".into(),
        Some(Command::Help) => "help".into(),
        Some(Command::Subscribe(a)) => format!("subscribe {}", a),
        Some(Command::Unsubscribe(a)) => format!("unsubscribe {}", a),
        None => "none".into(),
    }
}

#[test]
fn parses_commands() {
    assert_eq!(name_of(parse_command("/start")), "start");
    assert_eq!(name_of(parse_command("/list")), "list");
    assert_eq!(name_of(parse_command("/help@crate_upd_bot")), "help");
    assert_eq!(name_of(parse_command("/subscribe serde")), "subscribe serde");
    assert_eq!(name_of(parse_command("/unsubscribe@bot tokio")), "unsubscribe tokio");
}

#[test]
fn rejects_malformed_commands() {
    assert_eq!(name_of(parse_command("/subscribe")), "none");
    assert_eq!(name_of(parse_command("/start now")), "none");
    assert_eq!(name_of(parse_command("hello")), "none");
    assert_eq!(name_of(parse_command("")), "none");
}

#[test]
fn index_paths() {
    assert_eq!(crate_path(""), None);
    assert_eq!(crate_path("a").unwrap(), "1/a");
    assert_eq!(crate_path("ab").unwrap(), "2/ab");
    assert_eq!(crate_path("abc").unwrap(), "3/a/abc");
    assert_eq!(crate_path("serde").unwrap(), "se/rd/serde");
}

fn foo() -> VersionRecord {
    VersionRecord { name: "foo".into(), vers: "1.2.3".into(), yanked: false }
}

#[test]
fn reply_texts() {
    assert_eq!(
        subscribed_text("foo", &None),
        "You've successfully subscribed for updates on <code>foo</code> crate. Use /unsubscribe to unsubscribe."
    );
    assert_eq!(
        subscribed_text("foo", &Some(foo())),
        "You've successfully subscribed for updates on <code>foo</code> (current version <code>1.2.3</code> \
<a href=\"https://crates.io/crates/foo/1.2.3\">[crates.io]</a> <a href=\"https://docs.rs/foo/1.2.3\">[docs.rs]</a>) \
crate. Use /unsubscribe to unsubscribe."
    );
    assert_eq!(
        unsubscribed_text("foo"),
        "You've successfully unsubscribed for updates on <code>foo</code> crate. Use /subscribe to subscribe back."
    );
    assert_eq!(no_such_crate_text("nope"), "Error: there is no such crate <code>nope</code>.");
}

#[test]
fn subscription_list() {
    assert_eq!(
        list_text(&vec![]),
        "Currently you aren't subscribed to anything. Use /subscribe to subscribe to some crate."
    );
    let entries = vec![list_entry("bar", &None), list_entry("foo", &Some(foo()))];
    assert_eq!(
        list_text(&entries),
        "You are currently subscribed to:\n\u{2014} <code>bar </code>\n\u{2014} <code>foo#1.2.3</code> \
<a href=\"https://crates.io/crates/foo/1.2.3\">[crates.io]</a> <a href=\"https://docs.rs/foo/1.2.3\">[docs.rs]</a>"
    );
}

#[test]
fn last_version_of_file() {
    let file = b"{\"name\":\"foo\",\"vers\":\"0.1.0\",\"yanked\":false}\n{\"name\":\"foo\",\"vers\":\"0.2.0\",\"yanked\":true}\n".to_vec();
    let rec = read_last(&file).unwrap();
    assert_eq!(rec.vers, "0.2.0");
    assert!(rec.yanked);
    let no_newline = b"{\"name\":\"foo\",\"vers\":\"0.1.0\",\"yanked\":false}".to_vec();
    assert_eq!(read_last(&no_newline).unwrap().vers, "0.1.0");
    assert_eq!(read_last(&vec![]).unwrap_err(), DecodeError::Syntax);
}

#[test]
fn links_use_the_name_in_the_file() {
    let rec = VersionRecord { name: "Inflector".into(), vers: "0.11.4".into(), yanked: false };
    let links = "<a href=\"https://crates.io/crates/Inflector/0.11.4\">[crates.io]</a> \
<a href=\"https://docs.rs/Inflector/0.11.4\">[docs.rs]</a>";
    assert_eq!(
        subscribed_text("inflector", &Some(rec.clone())),
        format!(
            "You've successfully subscribed for updates on <code>inflector</code> (current version <code>0.11.4</code> {}) crate. Use /unsubscribe to unsubscribe.",
            links
        )
    );
    assert_eq!(list_entry("inflector", &Some(rec)), format!("inflector#0.11.4</code> {}", links));
}
