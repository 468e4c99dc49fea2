//! Notification messages and the order in which they are sent.
use vstd::prelude::*;
use crate::classify::ActionKind;
use crate::record::VersionRecord;

verus! {

/// One step of a fan-out: send the message to a chat, then wait before
/// anything else is sent.
#[derive(Debug, Clone, Copy, PartialEq, Eq, Structural)]
pub struct Step {
    pub chat: i64,
    pub wait_millis: u64,
}

/// The opening words of the message for each event.
pub open spec fn headline(action: ActionKind) -> Seq<char> {
    match action {
        ActionKind::NewVersion => "Crate was updated: "@,
        ActionKind::Yanked => "Crate was yanked: "@,
        ActionKind::Unyanked => "Crate was unyanked: "@,
    }
}

/// Links to the version's registry page and documentation.
pub open spec fn links_spec(name: Seq<char>, vers: Seq<char>) -> Seq<char> {
    "<a href=\"https://crates.io/crates/"@ + name + "/"@ + vers + "\">[crates.io]</a> "@
        + "<a href=\"https://docs.rs/"@ + name + "/"@ + vers + "\">[docs.rs]</a>"@
}

/// The HTML text sent for an event on a version.
pub open spec fn message_spec(name: Seq<char>, vers: Seq<char>, action: ActionKind) -> Seq<char> {
    headline(action) + "<code>"@ + name + "#"@ + vers + "</code> "@ + links_spec(name, vers)
}

/// The recipients in sending order: the broadcast chat first, if any, then
/// the subscribers in the order given.
pub open spec fn recipients_spec(broadcast: Option<i64>, subscribers: Seq<i64>) -> Seq<i64> {
    match broadcast {
        Some(c) => seq![c] + subscribers,
        None => subscribers,
    }
}

/// Each recipient gets one send, in order, and each send is followed by
/// the delay.
pub open spec fn plan_spec(recipients: Seq<i64>, delay: u64) -> Seq<Step> {
    recipients.map_values(|c: i64| Step { chat: c, wait_millis: delay })
}

/// Links to the version's registry page and documentation, as HTML.
pub fn html_links(rec: &VersionRecord) -> (r: String)
    ensures
        r@ == links_spec(rec.name@, rec.vers@),
{
    let mut s = String::from_str("<a href=\"https://crates.io/crates/");
    s.append(rec.name.as_str());
    s.append("/");
    s.append(rec.vers.as_str());
    s.append("\">[crates.io]</a> ");
    s.append("<a href=\"https://docs.rs/");
    s.append(rec.name.as_str());
    s.append("/");
    s.append(rec.vers.as_str());
    s.append("\">[docs.rs]</a>");
    s
}

/// The message for an event: one template per kind of event.
pub fn render_message(rec: &VersionRecord, action: ActionKind) -> (r: String)
    ensures
        r@ == message_spec(rec.name@, rec.vers@, action),
{
    let mut s = match action {
        ActionKind::NewVersion => String::from_str("Crate was updated: "),
        ActionKind::Yanked => String::from_str("Crate was yanked: "),
        ActionKind::Unyanked => String::from_str("Crate was unyanked: "),
    };
    s.append("<code>");
    s.append(rec.name.as_str());
    s.append("#");
    s.append(rec.vers.as_str());
    s.append("</code> ");
    let links = html_links(rec);
    s.append(links.as_str());
    s
}

/// The recipients of one event, broadcast chat first.
pub fn recipients(broadcast: Option<i64>, subscribers: &Vec<i64>) -> (r: Vec<i64>)
    ensures
        r@ == recipients_spec(broadcast, subscribers@),
{
    let mut r: Vec<i64> = Vec::new();
    if let Some(c) = broadcast {
        r.push(c);
    }
    let ghost start = r@;
    let mut i: usize = 0;
    while i < subscribers.len()
        invariant
            i <= subscribers@.len(),
            r@ == start + subscribers@.take(i as int),
        decreases subscribers@.len() - i,
    {
        r.push(subscribers[i]);
        i = i + 1;
        assert(r@ =~= start + subscribers@.take(i as int));
    }
    assert(subscribers@.take(i as int) =~= subscribers@);
    proof {
        if broadcast is None {
            assert(r@ =~= subscribers@);
        }
    }
    r
}

/// The steps of one fan-out, strictly sequential: a send to each recipient,
/// broadcast chat first, each followed by the delay.
pub fn send_plan(broadcast: Option<i64>, subscribers: &Vec<i64>, delay: u64) -> (r: Vec<Step>)
    ensures
        r@ == plan_spec(recipients_spec(broadcast, subscribers@), delay),
{
    let to = recipients(broadcast, subscribers);
    let mut r: Vec<Step> = Vec::new();
    let mut i: usize = 0;
    while i < to.len()
        invariant
            i <= to@.len(),
            r@ =~= plan_spec(to@.take(i as int), delay),
        decreases to@.len() - i,
    {
        r.push(Step { chat: to[i], wait_millis: delay });
        i = i + 1;
        assert(r@ =~= plan_spec(to@.take(i as int), delay));
    }
    assert(to@.take(i as int) =~= to@);
    r
}

/// With a broadcast chat and `n` subscribers a fan-out sends exactly `1 + n`
/// times, broadcast chat first, then the subscribers in order, and waits the
/// delay after every send.
pub proof fn lemma_fan_out(chat: i64, subscribers: Seq<i64>, delay: u64)
    ensures
        ({
            let p = plan_spec(recipients_spec(Some(chat), subscribers), delay);
            &&& p.len() == 1 + subscribers.len()
            &&& p[0].chat == chat
            &&& forall|i: int| 0 <= i < subscribers.len() ==> #[trigger] p[i + 1].chat == subscribers[i]
            &&& forall|k: int| 0 <= k < p.len() ==> #[trigger] p[k].wait_millis == delay
        }),
{
    let to = recipients_spec(Some(chat), subscribers);
    let p = plan_spec(to, delay);
    assert forall|i: int| 0 <= i < subscribers.len() implies #[trigger] p[i + 1].chat == subscribers[i] by {
        assert(to[i + 1] == subscribers[i]);
    }
}

} // verus!
