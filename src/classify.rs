//! Classification of one commit's diff into a release event.
use vstd::prelude::*;
use crate::record::{VersionRecord, RecordView, DecodeError, decode_spec, decode_record};

verus! {

/// What happened to a version of a crate in one commit.
#[derive(Debug, Clone, Copy, PartialEq, Eq, Structural)]
pub enum ActionKind {
    NewVersion,
    Yanked,
    Unyanked,
}

/// How a file changed in a commit.
#[derive(Debug, Clone, Copy, PartialEq, Eq, Structural)]
pub enum DeltaStatus {
    Added,
    Modified,
    /// Deleted, renamed, copied and the like: not expected in the index.
    Other,
}

/// One changed line of a zero-context diff, with the change type of its file.
#[derive(Debug, Clone)]
pub struct DiffLine {
    pub status: DeltaStatus,
    /// `'-'` for a deleted line, `'+'` for an added one.
    pub origin: char,
    pub content: Vec<u8>,
}

/// Why a commit could not be classified. Each is fatal to the poll cycle.
#[derive(Debug, Clone, Copy, PartialEq, Eq, Structural)]
pub enum ClassifyError {
    /// More than one line was deleted.
    ManyDeletions,
    /// More than one line was added.
    ManyAdditions,
    /// No line was added.
    NoAddition,
    /// The deleted line is not a version record.
    BadDeleted(DecodeError),
    /// The added line is not a version record.
    BadAdded(DecodeError),
    /// The `yanked` flag moved in a way no release event explains.
    UnexpectedTransition,
}

/// The change types whose lines are read; lines of other files are skipped.
pub open spec fn is_tracked(status: DeltaStatus) -> bool {
    status is Added || status is Modified
}

/// The contents of the tracked lines with this origin, in diff order.
pub open spec fn changed(lines: Seq<DiffLine>, origin: char) -> Seq<Seq<u8>>
    decreases lines.len(),
{
    if lines.len() == 0 {
        Seq::empty()
    } else {
        let rest = changed(lines.drop_last(), origin);
        let l = lines.last();
        if is_tracked(l.status) && l.origin == origin {
            rest.push(l.content@)
        } else {
            rest
        }
    }
}

/// The event for a change of the `yanked` flag; `prev` is absent when no
/// line was deleted.
pub open spec fn transition_spec(prev: Option<bool>, next: bool) -> Option<ActionKind> {
    match (prev, next) {
        (None, false) => Some(ActionKind::NewVersion),
        (Some(false), true) => Some(ActionKind::Yanked),
        (Some(true), false) => Some(ActionKind::Unyanked),
        _ => None,
    }
}

/// The outcome of classifying a commit whose diff is `lines`.
pub open spec fn classify_spec(lines: Seq<DiffLine>) -> Result<(RecordView, ActionKind), ClassifyError> {
    let dels = changed(lines, '-');
    let adds = changed(lines, '+');
    if dels.len() > 1 {
        Err(ClassifyError::ManyDeletions)
    } else if adds.len() > 1 {
        Err(ClassifyError::ManyAdditions)
    } else if adds.len() == 0 {
        Err(ClassifyError::NoAddition)
    } else if dels.len() == 1 && decode_spec(dels[0]) is Err {
        Err(ClassifyError::BadDeleted(decode_spec(dels[0])->Err_0))
    } else if decode_spec(adds[0]) is Err {
        Err(ClassifyError::BadAdded(decode_spec(adds[0])->Err_0))
    } else {
        let next = decode_spec(adds[0])->Ok_0;
        let prev = if dels.len() == 1 {
            Some(decode_spec(dels[0])->Ok_0.yanked)
        } else {
            None
        };
        match transition_spec(prev, next.yanked) {
            Some(a) => Ok((next, a)),
            None => Err(ClassifyError::UnexpectedTransition),
        }
    }
}

/// The event for a change of the `yanked` flag: a new version appears
/// unyanked with no deleted line; a yank or unyank flips the flag.
pub fn transition(prev: Option<bool>, next: bool) -> (r: Option<ActionKind>)
    ensures
        r == transition_spec(prev, next),
{
    match (prev, next) {
        (None, false) => Some(ActionKind::NewVersion),
        (Some(false), true) => Some(ActionKind::Yanked),
        (Some(true), false) => Some(ActionKind::Unyanked),
        _ => None,
    }
}

/// A change is explained exactly when a new version comes unyanked, or when
/// an existing line has its flag flipped; each explained change has one
/// event.
pub proof fn lemma_transition_table(prev: Option<bool>, next: bool)
    ensures
        transition_spec(prev, next) is Some <==> ((prev is None && !next) || prev == Some(!next)),
        transition_spec(prev, next) == Some(ActionKind::NewVersion) <==> (prev is None && !next),
        transition_spec(prev, next) == Some(ActionKind::Yanked) <==> (prev == Some(false) && next),
        transition_spec(prev, next) == Some(ActionKind::Unyanked) <==> (prev == Some(true) && !next),
{
}

proof fn lemma_changed_len(lines: Seq<DiffLine>, origin: char)
    ensures
        changed(lines, origin).len() <= lines.len(),
    decreases lines.len(),
{
    if lines.len() > 0 {
        lemma_changed_len(lines.drop_last(), origin);
    }
}

/// Counts the tracked lines with this origin, and finds the first of them.
fn scan(lines: &Vec<DiffLine>, origin: char) -> (r: (usize, Option<usize>))
    ensures
        r.0 == changed(lines@, origin).len(),
        r.1 is Some <==> r.0 > 0,
        r.1 matches Some(k) ==> k < lines@.len() && lines@[k as int].content@ == changed(lines@, origin)[0],
{
    let mut count: usize = 0;
    let mut first: Option<usize> = None;
    let mut i: usize = 0;
    while i < lines.len()
        invariant
            i <= lines@.len(),
            count == changed(lines@.take(i as int), origin).len(),
            first is Some <==> count > 0,
            first matches Some(k) ==> k < i && lines@[k as int].content@ == changed(lines@.take(i as int), origin)[0],
        decreases lines@.len() - i,
    {
        assert(lines@.take(i as int + 1).drop_last() =~= lines@.take(i as int));
        proof {
            lemma_changed_len(lines@.take(i as int), origin);
        }
        let l = &lines[i];
        let hit = match l.status {
            DeltaStatus::Added | DeltaStatus::Modified => l.origin == origin,
            DeltaStatus::Other => false,
        };
        if hit {
            if first.is_none() {
                first = Some(i);
            }
            count = count + 1;
        }
        i = i + 1;
    }
    assert(lines@.take(i as int) =~= lines@);
    (count, first)
}

/// Classifies one commit from its zero-context diff: at most one deleted and
/// exactly one added version record, whose `yanked` flags give the event.
pub fn classify(lines: &Vec<DiffLine>) -> (r: Result<(VersionRecord, ActionKind), ClassifyError>)
    ensures
        match r {
            Ok((rec, a)) => classify_spec(lines@) == Ok::<(RecordView, ActionKind), ClassifyError>((rec@, a)),
            Err(e) => classify_spec(lines@) == Err::<(RecordView, ActionKind), ClassifyError>(e),
        },
{
    let (n_del, del) = scan(lines, '-');
    let (n_add, add) = scan(lines, '+');
    if n_del > 1 {
        return Err(ClassifyError::ManyDeletions);
    }
    if n_add > 1 {
        return Err(ClassifyError::ManyAdditions);
    }
    let add = match add {
        Some(k) => k,
        None => return Err(ClassifyError::NoAddition),
    };
    let prev = match del {
        Some(k) => match decode_record(lines[k].content.as_slice()) {
            Ok(p) => Some(p.yanked),
            Err(e) => return Err(ClassifyError::BadDeleted(e)),
        },
        None => None,
    };
    let next = match decode_record(lines[add].content.as_slice()) {
        Ok(n) => n,
        Err(e) => return Err(ClassifyError::BadAdded(e)),
    };
    match transition(prev, next.yanked) {
        Some(a) => Ok((next, a)),
        None => Err(ClassifyError::UnexpectedTransition),
    }
}

/// A diff with two tracked deleted lines, or two tracked added lines, is
/// never classified: no line is picked among them.
pub proof fn lemma_ambiguous_diff_fails(lines: Seq<DiffLine>)
    requires
        changed(lines, '-').len() >= 2 || changed(lines, '+').len() >= 2,
    ensures
        classify_spec(lines) is Err,
        changed(lines, '-').len() >= 2 ==> classify_spec(lines) == Err::<(RecordView, ActionKind), ClassifyError>(ClassifyError::ManyDeletions),
{
}

} // verus!
