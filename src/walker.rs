//! Commit windows: the adjacent pairs of the commits that a poll brings.
use vstd::prelude::*;

verus! {

/// Two adjacent commits; the diff between their trees is one unit of work.
#[derive(Debug, Clone)]
pub struct CommitWindow {
    pub previous: String,
    pub next: String,
}

impl View for CommitWindow {
    type V = (Seq<char>, Seq<char>);

    open spec fn view(&self) -> (Seq<char>, Seq<char>) {
        (self.previous@, self.next@)
    }
}

/// The checkpoint followed by the fetched commits, ancestor first.
pub open spec fn chain(checkpoint: Seq<char>, fetched: Seq<String>) -> Seq<Seq<char>> {
    seq![checkpoint] + fetched.map_values(|c: String| c@)
}

/// The windows over a chain: one per adjacent pair, in chain order.
pub open spec fn windows_spec(chain: Seq<Seq<char>>) -> Seq<(Seq<char>, Seq<char>)> {
    Seq::new((chain.len() - 1) as nat, |i: int| (chain[i], chain[i + 1]))
}

/// The windows from the checkpoint through the fetched commits (given
/// ancestor first): `(checkpoint, first)`, then each commit with its
/// successor.
pub fn windows(checkpoint: &String, fetched: &Vec<String>) -> (r: Vec<CommitWindow>)
    ensures
        r@.map_values(|w: CommitWindow| w@) == windows_spec(chain(checkpoint@, fetched@)),
{
    let mut r: Vec<CommitWindow> = Vec::new();
    let mut prev: String = checkpoint.clone();
    let mut i: usize = 0;
    let ghost c = chain(checkpoint@, fetched@);
    while i < fetched.len()
        invariant
            i <= fetched@.len(),
            c == chain(checkpoint@, fetched@),
            r@.len() == i,
            prev@ == c[i as int],
            forall|j: int| 0 <= j < i ==> (#[trigger] r@[j])@ == (c[j], c[j + 1]),
        decreases fetched@.len() - i,
    {
        let next = fetched[i].clone();
        r.push(CommitWindow { previous: prev, next: next.clone() });
        prev = next;
        i = i + 1;
    }
    assert(r@.map_values(|w: CommitWindow| w@) =~= windows_spec(c));
    r
}

/// The windows cover the chain with no gap and no repeat: the first starts
/// at the checkpoint, each ends where the following one starts, and the last
/// ends at the newest fetched commit.
pub proof fn lemma_windows_cover(checkpoint: Seq<char>, fetched: Seq<String>)
    ensures
        windows_spec(chain(checkpoint, fetched)).len() == fetched.len(),
        fetched.len() > 0 ==> windows_spec(chain(checkpoint, fetched))[0].0 == checkpoint,
        fetched.len() > 0 ==> windows_spec(chain(checkpoint, fetched))[fetched.len() - 1].1
            == fetched.last()@,
        forall|i: int| 0 <= i < fetched.len() ==>
            (#[trigger] windows_spec(chain(checkpoint, fetched))[i]).1 == fetched[i]@,
        forall|i: int| 0 <= i < fetched.len() - 1 ==>
            (#[trigger] windows_spec(chain(checkpoint, fetched))[i]).1
                == windows_spec(chain(checkpoint, fetched))[i + 1].0,
{
    let c = chain(checkpoint, fetched);
    assert(c.len() == fetched.len() + 1);
    assert forall|i: int| 0 <= i < fetched.len() implies
        (#[trigger] windows_spec(c)[i]).1 == fetched[i]@ by {
        assert(c[i + 1] == fetched[i]@);
    }
}

} // verus!
