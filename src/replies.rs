//! The texts the bot answers commands with.
use vstd::prelude::*;
use crate::dispatch::{links_spec, html_links};
use crate::record::{VersionRecord, DecodeError, decode_spec, decode_record};

verus! {

pub const START_MESSAGE: &'static str = "
Hi! I will notify you about updates of crates. Use /subscribe to subscribe for updates of crates you want to be notified about.

In case you want to see <b>all</b> updates go to @crates_updates

Author: @wafflelapkin
His channel [ru]: @ihatereality
My source: <a href='https://github.com/WaffleLapkin/crate_upd_bot'>[github]</a>";

pub const HELP_MESSAGE: &'static str = "These commands are supported:
/start \u{2014} show the greeting
/subscribe <crate> \u{2014} get notified about updates of a crate
/unsubscribe <crate> \u{2014} stop getting notified about a crate
/list \u{2014} list your subscriptions
/help \u{2014} show this text";

/// The note on the version a crate is at, when its file could be read; the
/// links name the crate as its file does.
pub open spec fn version_note(current: Option<VersionRecord>) -> Seq<char> {
    match current {
        Some(r) => " (current version <code>"@ + r.vers@ + "</code> "@ + links_spec(r.name@, r.vers@) + ")"@,
        None => Seq::empty(),
    }
}

pub fn subscribed_text(krate: &str, current: &Option<VersionRecord>) -> (r: String)
    ensures
        r@ == "You've successfully subscribed for updates on <code>"@ + krate@ + "</code>"@
            + version_note(*current) + " crate. Use /unsubscribe to unsubscribe."@,
{
    let mut s = String::from_str("You've successfully subscribed for updates on <code>");
    s.append(krate);
    s.append("</code>");
    if let Some(rec) = current {
        s.append(" (current version <code>");
        s.append(rec.vers.as_str());
        s.append("</code> ");
        let links = html_links(rec);
        s.append(links.as_str());
        s.append(")");
    }
    s.append(" crate. Use /unsubscribe to unsubscribe.");
    s
}

pub fn unsubscribed_text(krate: &str) -> (r: String)
    ensures
        r@ == "You've successfully unsubscribed for updates on <code>"@ + krate@
            + "</code> crate. Use /subscribe to subscribe back."@,
{
    let mut s = String::from_str("You've successfully unsubscribed for updates on <code>");
    s.append(krate);
    s.append("</code> crate. Use /subscribe to subscribe back.");
    s
}

pub fn no_such_crate_text(krate: &str) -> (r: String)
    ensures
        r@ == "Error: there is no such crate <code>"@ + krate@ + "</code>."@,
{
    let mut s = String::from_str("Error: there is no such crate <code>");
    s.append(krate);
    s.append("</code>.");
    s
}

/// One line of the subscription list; the list puts `<code>` before it.
/// The links name the crate as its file does.
pub open spec fn list_entry_spec(name: Seq<char>, current: Option<VersionRecord>) -> Seq<char> {
    match current {
        Some(r) => name + "#"@ + r.vers@ + "</code> "@ + links_spec(r.name@, r.vers@),
        None => name + " </code>"@,
    }
}

pub fn list_entry(name: &str, current: &Option<VersionRecord>) -> (r: String)
    ensures
        r@ == list_entry_spec(name@, *current),
{
    let mut s = String::from_str(name);
    match current {
        Some(rec) => {
            s.append("#");
            s.append(rec.vers.as_str());
            s.append("</code> ");
            let links = html_links(rec);
            s.append(links.as_str());
        },
        None => s.append(" </code>"),
    }
    s
}

/// The entries joined by the separator.
pub open spec fn join(entries: Seq<Seq<char>>, sep: Seq<char>) -> Seq<char>
    decreases entries.len(),
{
    if entries.len() == 0 {
        Seq::empty()
    } else if entries.len() == 1 {
        entries[0]
    } else {
        join(entries.drop_last(), sep) + sep + entries.last()
    }
}

pub open spec fn list_text_spec(entries: Seq<Seq<char>>) -> Seq<char> {
    if entries.len() == 0 {
        "Currently you aren't subscribed to anything. Use /subscribe to subscribe to some crate."@
    } else {
        "You are currently subscribed to:\n\u{2014} <code>"@ + join(entries, "\n\u{2014} <code>"@)
    }
}

/// The answer to `/list`, from the entries made by `list_entry`.
pub fn list_text(entries: &Vec<String>) -> (r: String)
    ensures
        r@ == list_text_spec(entries@.map_values(|e: String| e@)),
{
    let ghost es = entries@.map_values(|e: String| e@);
    if entries.len() == 0 {
        return String::from_str("Currently you aren't subscribed to anything. Use /subscribe to subscribe to some crate.");
    }
    let mut body = entries[0].clone();
    let mut i: usize = 1;
    while i < entries.len()
        invariant
            1 <= i <= entries@.len(),
            es == entries@.map_values(|e: String| e@),
            body@ == join(es.take(i as int), "\n\u{2014} <code>"@),
        decreases entries@.len() - i,
    {
        assert(es.take(i as int + 1).drop_last() =~= es.take(i as int));
        body.append("\n\u{2014} <code>");
        body.append(entries[i].as_str());
        i = i + 1;
    }
    assert(es.take(i as int) =~= es);
    let mut s = String::from_str("You are currently subscribed to:\n\u{2014} <code>");
    s.append(body.as_str());
    s
}

/// Where the last line of a file starts: after the last newline before
/// position `end`.
pub open spec fn line_start(bytes: Seq<u8>, end: int) -> int
    decreases end,
{
    if end <= 0 {
        0
    } else if bytes[end - 1] == 10u8 {
        end
    } else {
        line_start(bytes, end - 1)
    }
}

/// The last line of a crate's file, without its newline: one line per
/// version, newest last.
pub open spec fn last_line(bytes: Seq<u8>) -> Seq<u8> {
    let end = if bytes.len() > 0 && bytes.last() == 10u8 { bytes.len() - 1 } else { bytes.len() as int };
    bytes.subrange(line_start(bytes, end), end)
}

/// The newest version a crate's file lists.
pub fn read_last(file: &Vec<u8>) -> (r: Result<VersionRecord, DecodeError>)
    ensures
        match r {
            Ok(rec) => decode_spec(last_line(file@)) == Ok::<_, DecodeError>(rec@),
            Err(e) => decode_spec(last_line(file@)) == Err::<crate::record::RecordView, _>(e),
        },
{
    let n = file.len();
    let end = if n > 0 && file[n - 1] == 10u8 { n - 1 } else { n };
    let mut start = end;
    while start > 0 && file[start - 1] != 10u8
        invariant
            start <= end <= n == file@.len(),
            line_start(file@, start as int) == line_start(file@, end as int),
        decreases start,
    {
        start = start - 1;
    }
    let line = &file.as_slice()[start..end];
    assert(line@ == last_line(file@));
    decode_record(line)
}

} // verus!
