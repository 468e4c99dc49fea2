use crate_upd_bot::dispatch::{render_message, send_plan};
use crate_upd_bot::classify::{ActionKind, ClassifyError, DeltaStatus, DiffLine};
use crate_upd_bot::poll::{Action, Event, Phase, Poller};
use crate_upd_bot::sync::{fast_forward_step, FastForward, SyncError};
use crate_upd_bot::walker::windows;

fn add(name: &str, yanked: bool) -> DiffLine {
    DiffLine {
        status: DeltaStatus::Modified,
        origin: '+',
        content: format!("{{\"name\":\"{}\",\"vers\":\"0.1.0\",\"yanked\":{}}}", name, yanked).into_bytes(),
    }
}

fn commits(ids: &[&str]) -> Vec<String> {
    ids.iter().map(|s| s.to_string()).collect()
}

#[test]
fn windows_chain_from_checkpoint() {
    let w = windows(&"a".to_string(), &commits(&["b", "c", "d"]));
    let pairs: Vec<(String, String)> = w.into_iter().map(|w| (w.previous, w.next)).collect();
    assert_eq!(
        pairs,
        vec![
            ("a".to_string(), "b".to_string()),
            ("b".to_string(), "c".to_string()),
            ("c".to_string(), "d".to_string())
        ]
    );
    assert!(windows(&"a".to_string(), &vec![]).is_empty());
}

#[test]
fn fast_forward_decisions() {
    assert_eq!(fast_forward_step(true, false), Ok(FastForward::UpToDate));
    assert_eq!(fast_forward_step(true, true), Ok(FastForward::UpToDate));
    assert_eq!(fast_forward_step(false, true), Ok(FastForward::MoveHead));
    assert_eq!(fast_forward_step(false, false), Err(SyncError::NotFastForward));
}

#[test]
fn full_cycle_advances_per_commit() {
    let mut p = Poller::new("a".to_string());
    match p.step(Event::Fetched(commits(&["b", "c"]))) {
        Action::ReadDiff(w) => assert_eq!((w.previous.as_str(), w.next.as_str()), ("a", "b")),
        _ => panic!("expected a diff request"),
    }
    match p.step(Event::Diff(vec![add("foo", false)])) {
        Action::Dispatch(rec, a) => {
            assert_eq!(rec.name, "foo");
            assert_eq!(a, ActionKind::NewVersion);
        }
        _ => panic!("expected a dispatch"),
    }
    assert_eq!(p.checkpoint(), "a");
    match p.step(Event::Delivered) {
        Action::Advance(c) => assert_eq!(c, "b"),
        _ => panic!("expected an advance"),
    }
    assert_eq!(p.checkpoint(), "a");
    match p.step(Event::Advanced) {
        Action::ReadDiff(w) => assert_eq!((w.previous.as_str(), w.next.as_str()), ("b", "c")),
        _ => panic!("expected a diff request"),
    }
    assert_eq!(p.checkpoint(), "b");
    assert!(matches!(p.step(Event::Diff(vec![add("bar", false)])), Action::Dispatch(_, _)));
    assert!(matches!(p.step(Event::Delivered), Action::Advance(_)));
    assert!(matches!(p.step(Event::Advanced), Action::Sleep));
    assert_eq!(p.checkpoint(), "c");
    assert_eq!(p.phase(), Phase::Idle);
}

#[test]
fn classification_failure_keeps_checkpoint_and_retries() {
    let mut p = Poller::new("a".to_string());
    p.step(Event::Fetched(commits(&["b"])));
    let bad = vec![add("foo", false), add("bar", false)];
    match p.step(Event::Diff(bad.clone())) {
        Action::Abort(e) => assert_eq!(e, ClassifyError::ManyAdditions),
        _ => panic!("expected an abort"),
    }
    assert_eq!(p.checkpoint(), "a");
    assert_eq!(p.phase(), Phase::Idle);
    match p.step(Event::Fetched(commits(&["b"]))) {
        Action::ReadDiff(w) => assert_eq!((w.previous.as_str(), w.next.as_str()), ("a", "b")),
        _ => panic!("expected the same window again"),
    }
    assert!(matches!(p.step(Event::Diff(bad)), Action::Abort(ClassifyError::ManyAdditions)));
    assert_eq!(p.checkpoint(), "a");
}

#[test]
fn delivery_advances_even_after_failed_sends() {
    // Send failures are not reported as events: delivery means "all tried".
    let mut p = Poller::new("a".to_string());
    p.step(Event::Fetched(commits(&["b"])));
    p.step(Event::Diff(vec![add("foo", false)]));
    assert!(matches!(p.step(Event::Delivered), Action::Advance(_)));
    assert!(matches!(p.step(Event::Advanced), Action::Sleep));
    assert_eq!(p.checkpoint(), "b");
}

#[test]
fn failures_and_stray_events_end_the_cycle() {
    let mut p = Poller::new("a".to_string());
    assert!(matches!(p.step(Event::Fetched(vec![])), Action::Sleep));
    assert!(matches!(p.step(Event::Failed), Action::Sleep));
    assert!(matches!(p.step(Event::Delivered), Action::Sleep));
    p.step(Event::Fetched(commits(&["b"])));
    p.step(Event::Diff(vec![add("foo", false)]));
    p.step(Event::Delivered);
    assert!(matches!(p.step(Event::Failed), Action::Sleep));
    assert_eq!(p.checkpoint(), "a");
    assert_eq!(p.phase(), Phase::Idle);
}

#[test]
fn cycle_over_new_yank_unyank_sends_three_messages() {
    let line = |yanked: bool| format!("{{\"name\":\"foo\",\"vers\":\"1.0.0\",\"yanked\":{}}}\n", yanked).into_bytes();
    let plus = |yanked: bool| DiffLine { status: DeltaStatus::Modified, origin: '+', content: line(yanked) };
    let minus = |yanked: bool| DiffLine { status: DeltaStatus::Modified, origin: '-', content: line(yanked) };
    let diffs = vec![
        vec![DiffLine { status: DeltaStatus::Added, origin: '+', content: line(false) }],
        vec![minus(false), plus(true)],
        vec![minus(true), plus(false)],
    ];
    let channel = -100;
    let mut sent: Vec<(i64, String)> = Vec::new();
    let mut p = Poller::new("base".to_string());
    let mut action = p.step(Event::Fetched(commits(&["A", "B", "C"])));
    let mut read = 0;
    loop {
        action = match action {
            Action::ReadDiff(_) => {
                read += 1;
                p.step(Event::Diff(diffs[read - 1].clone()))
            }
            Action::Dispatch(rec, kind) => {
                let msg = render_message(&rec, kind);
                for s in send_plan(Some(channel), &vec![], 10) {
                    sent.push((s.chat, msg.clone()));
                }
                p.step(Event::Delivered)
            }
            Action::Advance(_) => p.step(Event::Advanced),
            Action::Sleep => break,
            Action::Abort(e) => panic!("unexpected abort: {:?}", e),
        };
    }
    assert_eq!(sent.len(), 3);
    assert!(sent.iter().all(|(c, _)| *c == channel));
    assert!(sent[0].1.starts_with("Crate was updated: <code>foo#1.0.0</code>"));
    assert!(sent[1].1.starts_with("Crate was yanked: <code>foo#1.0.0</code>"));
    assert!(sent[2].1.starts_with("Crate was unyanked: <code>foo#1.0.0</code>"));
    assert_eq!(p.checkpoint(), "C");
}
