//! The decisions of the poll loop: which commit to read, what to send, and
//! when the checkpoint moves. The loop that performs them lives outside.
use vstd::prelude::*;
use crate::classify::{ActionKind, ClassifyError, DiffLine, classify_spec, classify};
use crate::record::{VersionRecord, RecordView};
use crate::walker::{CommitWindow, chain, windows_spec, windows};

verus! {

/// Where the current poll cycle stands.
#[derive(Debug, Clone, Copy, PartialEq, Eq, Structural)]
pub enum Phase {
    /// No cycle is running; the next one starts with a fetch.
    Idle,
    /// Waiting for the diff of the current window.
    Reading,
    /// Waiting until every recipient of the current event was tried once.
    Dispatching,
    /// Waiting until the checkpoint reference was moved to the window's end.
    Advancing,
}

/// What the loop reports back.
pub enum Event {
    /// The fetch succeeded; the commits after the checkpoint, ancestor first.
    Fetched(Vec<String>),
    /// The changed lines between the current window's two trees.
    Diff(Vec<DiffLine>),
    /// Every recipient was tried once, whether or not its send succeeded.
    Delivered,
    /// The checkpoint reference now points at the window's end.
    Advanced,
    /// The fetch, the diff or the move failed.
    Failed,
}

/// What the loop is asked to do next.
pub enum Action {
    /// Compute the diff between the window's two trees.
    ReadDiff(CommitWindow),
    /// Notify the recipients of this event.
    Dispatch(VersionRecord, ActionKind),
    /// Move the checkpoint reference to this commit.
    Advance(String),
    /// The cycle is over; wait for the next poll.
    Sleep,
    /// The commit could not be classified; the cycle is over and the
    /// checkpoint stays before it.
    Abort(ClassifyError),
}

/// An action as plain values.
pub enum ActionView {
    ReadDiff((Seq<char>, Seq<char>)),
    Dispatch(RecordView, ActionKind),
    Advance(Seq<char>),
    Sleep,
    Abort(ClassifyError),
}

impl View for Action {
    type V = ActionView;

    open spec fn view(&self) -> ActionView {
        match self {
            Action::ReadDiff(w) => ActionView::ReadDiff(w@),
            Action::Dispatch(rec, a) => ActionView::Dispatch(rec@, *a),
            Action::Advance(c) => ActionView::Advance(c@),
            Action::Sleep => ActionView::Sleep,
            Action::Abort(e) => ActionView::Abort(*e),
        }
    }
}

/// The poll loop's own state: the checkpoint and the cycle in progress.
pub struct Poller {
    checkpoint: String,
    windows: Vec<CommitWindow>,
    pos: usize,
    phase: Phase,
}

/// A poller as plain values: the checkpoint, the windows of the cycle in
/// progress, the index of the current one, and the phase.
pub struct PollView {
    pub checkpoint: Seq<char>,
    pub windows: Seq<(Seq<char>, Seq<char>)>,
    pub pos: int,
    pub phase: Phase,
}

impl View for Poller {
    type V = PollView;

    closed spec fn view(&self) -> PollView {
        PollView {
            checkpoint: self.checkpoint@,
            windows: self.windows@.map_values(|w: CommitWindow| w@),
            pos: self.pos as int,
            phase: self.phase,
        }
    }
}

/// The state between cycles: the checkpoint alone.
pub open spec fn idle(checkpoint: Seq<char>) -> PollView {
    PollView { checkpoint, windows: Seq::empty(), pos: 0, phase: Phase::Idle }
}

impl PollView {
    /// Inside a cycle the current window starts at the checkpoint, and each
    /// window ends where the following one starts.
    pub open spec fn wf(self) -> bool {
        &&& 0 <= self.pos
        &&& (self.phase is Idle ==> self == idle(self.checkpoint))
        &&& (!(self.phase is Idle) ==> self.pos < self.windows.len()
            && self.windows[self.pos].0 == self.checkpoint)
        &&& forall|i: int| 0 <= i < self.windows.len() - 1
            ==> (#[trigger] self.windows[i]).1 == self.windows[i + 1].0
    }
}

/// The next state and action of the poll loop. An event that does not fit
/// the phase ends the cycle as a failure does: the checkpoint stays.
pub open spec fn step_spec(s: PollView, ev: Event) -> (PollView, ActionView) {
    let ended = (idle(s.checkpoint), ActionView::Sleep);
    match ev {
        Event::Fetched(f) => {
            let w = windows_spec(chain(s.checkpoint, f@));
            if !(s.phase is Idle) || w.len() == 0 {
                ended
            } else {
                (PollView { checkpoint: s.checkpoint, windows: w, pos: 0, phase: Phase::Reading },
                 ActionView::ReadDiff(w[0]))
            }
        },
        Event::Diff(lines) => {
            if !(s.phase is Reading) {
                ended
            } else {
                match classify_spec(lines@) {
                    Ok((rec, a)) => (PollView { phase: Phase::Dispatching, ..s }, ActionView::Dispatch(rec, a)),
                    Err(e) => (idle(s.checkpoint), ActionView::Abort(e)),
                }
            }
        },
        Event::Delivered => {
            if !(s.phase is Dispatching) {
                ended
            } else {
                (PollView { phase: Phase::Advancing, ..s }, ActionView::Advance(s.windows[s.pos].1))
            }
        },
        Event::Advanced => {
            if !(s.phase is Advancing) {
                ended
            } else if s.pos + 1 < s.windows.len() {
                (PollView {
                    checkpoint: s.windows[s.pos].1,
                    windows: s.windows,
                    pos: s.pos + 1,
                    phase: Phase::Reading,
                }, ActionView::ReadDiff(s.windows[s.pos + 1]))
            } else {
                (idle(s.windows[s.pos].1), ActionView::Sleep)
            }
        },
        Event::Failed => ended,
    }
}

fn copy_window(w: &CommitWindow) -> (r: CommitWindow)
    ensures
        r@ == w@,
{
    CommitWindow { previous: w.previous.clone(), next: w.next.clone() }
}

impl Poller {
    pub open spec fn wf(&self) -> bool {
        self@.wf()
    }

    /// A poller at rest on this checkpoint.
    pub fn new(checkpoint: String) -> (r: Poller)
        ensures
            r@ == idle(checkpoint@),
            r.wf(),
    {
        let r = Poller { checkpoint, windows: Vec::new(), pos: 0, phase: Phase::Idle };
        assert(r@.windows =~= Seq::<(Seq<char>, Seq<char>)>::empty());
        r
    }

    /// The last commit fully handled.
    pub fn checkpoint(&self) -> (r: &String)
        ensures
            r@ == self@.checkpoint,
    {
        &self.checkpoint
    }

    /// Where the current cycle stands.
    pub fn phase(&self) -> (r: Phase)
        ensures
            r == self@.phase,
    {
        self.phase
    }

    fn end_cycle(&mut self)
        ensures
            final(self)@ == idle(old(self)@.checkpoint),
    {
        self.windows = Vec::new();
        self.pos = 0;
        self.phase = Phase::Idle;
        assert(self@.windows =~= Seq::<(Seq<char>, Seq<char>)>::empty());
    }

    /// Takes in what the loop reports and says what it does next. The
    /// checkpoint moves only on `Advanced`, that is after the commit's
    /// notifications were all tried and the reference was moved.
    pub fn step(&mut self, ev: Event) -> (r: Action)
        requires
            old(self).wf(),
        ensures
            final(self).wf(),
            (final(self)@, r@) == step_spec(old(self)@, ev),
    {
        let ghost s = self@;
        match ev {
            Event::Fetched(f) => {
                if !matches!(self.phase, Phase::Idle) || f.len() == 0 {
                    self.end_cycle();
                    return Action::Sleep;
                }
                let w = windows(&self.checkpoint, &f);
                assert(w@.map_values(|w: CommitWindow| w@).len() == w@.len());
                let first = copy_window(&w[0]);
                self.windows = w;
                self.pos = 0;
                self.phase = Phase::Reading;
                Action::ReadDiff(first)
            },
            Event::Diff(lines) => {
                if !matches!(self.phase, Phase::Reading) {
                    self.end_cycle();
                    return Action::Sleep;
                }
                match classify(&lines) {
                    Ok((rec, a)) => {
                        self.phase = Phase::Dispatching;
                        Action::Dispatch(rec, a)
                    },
                    Err(e) => {
                        self.end_cycle();
                        Action::Abort(e)
                    },
                }
            },
            Event::Delivered => {
                if !matches!(self.phase, Phase::Dispatching) {
                    self.end_cycle();
                    return Action::Sleep;
                }
                self.phase = Phase::Advancing;
                Action::Advance(self.windows[self.pos].next.clone())
            },
            Event::Advanced => {
                if !matches!(self.phase, Phase::Advancing) {
                    self.end_cycle();
                    return Action::Sleep;
                }
                let n = self.windows.len();
                assert(n == s.windows.len());
                self.checkpoint = self.windows[self.pos].next.clone();
                if self.pos + 1 < n {
                    self.pos = self.pos + 1;
                    self.phase = Phase::Reading;
                    assert(s.windows[s.pos].1 == s.windows[s.pos + 1].0);
                    Action::ReadDiff(copy_window(&self.windows[self.pos]))
                } else {
                    self.end_cycle();
                    Action::Sleep
                }
            },
            Event::Failed => {
                self.end_cycle();
                Action::Sleep
            },
        }
    }
}

/// The checkpoint moves on no event but `Advanced`, and on that one only
/// to the end of the window whose event was delivered.
pub proof fn lemma_checkpoint_moves_only_on_advance(s: PollView, ev: Event)
    requires
        s.wf(),
    ensures
        !(ev is Advanced) ==> step_spec(s, ev).0.checkpoint == s.checkpoint,
        ev is Advanced ==> step_spec(s, ev).0.checkpoint == s.checkpoint || (s.phase is Advancing
            && step_spec(s, ev).0.checkpoint == s.windows[s.pos].1),
{
}

/// Delivery moves the checkpoint whatever the sends did: once every
/// recipient was tried the loop is asked to advance to the window's end, and
/// reporting that done makes it the checkpoint.
pub proof fn lemma_delivery_moves_checkpoint(s: PollView)
    requires
        s.wf(),
        s.phase is Dispatching,
    ensures
        step_spec(s, Event::Delivered).1 == ActionView::Advance(s.windows[s.pos].1),
        step_spec(step_spec(s, Event::Delivered).0, Event::Advanced).0.checkpoint == s.windows[s.pos].1,
{
}

/// A commit that cannot be classified ends the cycle with the checkpoint
/// where it was; the next cycle, fetching from there, asks for the same
/// window again and meets the same error, with the checkpoint still in place.
pub proof fn lemma_failed_classification_is_retried(s: PollView, lines: Vec<DiffLine>, fetched: Vec<String>)
    requires
        s.wf(),
        s.phase is Reading,
        classify_spec(lines@) is Err,
        fetched@.len() > 0,
        fetched@[0]@ == s.windows[s.pos].1,
    ensures
        ({
            let (t, a) = step_spec(s, Event::Diff(lines));
            let (u, b) = step_spec(t, Event::Fetched(fetched));
            let (v, c) = step_spec(u, Event::Diff(lines));
            &&& a == ActionView::Abort(classify_spec(lines@)->Err_0)
            &&& t.checkpoint == s.checkpoint
            &&& b == ActionView::ReadDiff(s.windows[s.pos])
            &&& c == a
            &&& v.checkpoint == s.checkpoint
        }),
{
    let t = step_spec(s, Event::Diff(lines)).0;
    let w = windows_spec(chain(t.checkpoint, fetched@));
    assert(chain(t.checkpoint, fetched@)[1] == fetched@[0]@);
    assert(w[0] == s.windows[s.pos]);
}

/// A cycle that started on checkpoint `base` with these fetched commits:
/// the windows are those of the fetched chain, and the checkpoint is the
/// start of the current one.
pub open spec fn in_cycle(s: PollView, base: Seq<char>, fetched: Seq<String>) -> bool {
    &&& !(s.phase is Idle)
    &&& s.windows == windows_spec(chain(base, fetched))
    &&& 0 <= s.pos < fetched.len()
    &&& s.checkpoint == chain(base, fetched)[s.pos]
}

/// A fetch that brings commits starts a cycle on the first window, from
/// the checkpoint to the oldest new commit.
pub proof fn lemma_cycle_starts(base: Seq<char>, fetched: Vec<String>)
    requires
        fetched@.len() > 0,
    ensures
        ({
            let (t, a) = step_spec(idle(base), Event::Fetched(fetched));
            &&& in_cycle(t, base, fetched@)
            &&& t.pos == 0
            &&& t.phase is Reading
            &&& a == ActionView::ReadDiff((base, fetched@[0]@))
        }),
{
    assert(chain(base, fetched@)[1] == fetched@[0]@);
}

/// Within a cycle every step keeps to the fetched chain: the checkpoint is
/// always the start of the current window, it moves one commit on
/// `Advanced` only, and when the cycle ends it stays where it was, except
/// after the last window has advanced, when it is the newest fetched
/// commit. So a cycle that fails on window `k` leaves the checkpoint at the
/// commit before it, and windows after a delivered one are still read.
pub proof fn lemma_cycle_step(s: PollView, base: Seq<char>, fetched: Seq<String>, ev: Event)
    requires
        in_cycle(s, base, fetched),
    ensures
        ({
            let (t, a) = step_spec(s, ev);
            &&& t.phase is Idle || in_cycle(t, base, fetched)
            &&& !(ev is Advanced && s.phase is Advancing) ==> t.checkpoint == s.checkpoint
                && (t.phase is Idle || t.pos == s.pos)
            &&& (ev is Advanced && s.phase is Advancing) ==> t.checkpoint == chain(base, fetched)[s.pos + 1]
            &&& (ev is Advanced && s.phase is Advancing && s.pos + 1 < fetched.len()) ==> t.pos == s.pos + 1
                && t.phase is Reading && a == ActionView::ReadDiff(s.windows[s.pos + 1])
            &&& (ev is Advanced && s.phase is Advancing && s.pos + 1 == fetched.len()) ==> t
                == idle(fetched.last()@)
        }),
{
    let c = chain(base, fetched);
    assert(c[fetched.len() as int] == fetched.last()@);
}

/// A poll whose first new commit cannot be classified ends where it
/// started: the same idle state on the same checkpoint, so every later poll
/// that fetches the same commits repeats the same attempt and the same
/// error, and never passes the commit.
pub proof fn lemma_unclassifiable_commit_repeats(base: Seq<char>, fetched: Vec<String>, lines: Vec<DiffLine>)
    requires
        fetched@.len() > 0,
        classify_spec(lines@) is Err,
    ensures
        ({
            let (t, a) = step_spec(idle(base), Event::Fetched(fetched));
            let (u, b) = step_spec(t, Event::Diff(lines));
            &&& a == ActionView::ReadDiff((base, fetched@[0]@))
            &&& u == idle(base)
            &&& b == ActionView::Abort(classify_spec(lines@)->Err_0)
        }),
{
    lemma_cycle_starts(base, fetched);
}

} // verus!
