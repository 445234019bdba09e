//! Which commits make up a page's history: walking the commits from the
//! newest, those that added, changed or removed the page's file, up to a limit.
use vstd::prelude::*;
use vstd::string::*;

use crate::ext::utc_accepts;
use crate::models::{CommitInfo, Timestamp};

verus! {

/// The name of the file that holds a page in the repository.
pub open spec fn page_file_name_text(page_id: Seq<char>) -> Seq<char> {
    page_id + ".md"@
}

/// The file that holds the page `page_id`: its id with the `.md` extension.
pub fn page_file_name(page_id: &str) -> (name: String)
    ensures
        name@ == page_file_name_text(page_id@),
{
    let mut name = page_id.to_owned();
    name.append(".md");
    name
}

/// A commit met on the walk: the blob of the page's file in its tree and in
/// its first parent's tree (`None` where the file is absent, or the commit has
/// no parent), and what the history shows of it.
#[derive(Clone, Debug)]
pub struct CommitVisit {
    pub file_blob: Option<Vec<u8>>,
    pub parent_file_blob: Option<Vec<u8>>,
    pub info: CommitInfo,
}

/// The bytes of an optional blob id.
pub open spec fn blob_bytes(blob: Option<Vec<u8>>) -> Option<Seq<u8>> {
    match blob {
        Some(b) => Some(b@),
        None => None,
    }
}

/// The commit added, changed or removed the file: it is present on one side
/// only, or on both with different blobs.
pub open spec fn touches_file(file: Option<Seq<u8>>, parent_file: Option<Seq<u8>>) -> bool {
    match (file, parent_file) {
        (Some(a), Some(b)) => a != b,
        (None, None) => false,
        _ => true,
    }
}

/// The visit is of a commit that added, changed or removed the page's file.
pub open spec fn visit_touches(v: CommitVisit) -> bool {
    touches_file(blob_bytes(v.file_blob), blob_bytes(v.parent_file_blob))
}

/// The commits, in walk order, that added, changed or removed the page's file.
pub open spec fn touching_commits(visits: Seq<CommitVisit>) -> Seq<CommitInfo>
    decreases visits.len(),
{
    if visits.len() == 0 {
        Seq::empty()
    } else if visit_touches(visits.last()) {
        touching_commits(visits.drop_last()).push(visits.last().info)
    } else {
        touching_commits(visits.drop_last())
    }
}

/// A page's history after the walk met `visits`: the first `limit` commits
/// that added, changed or removed its file.
pub open spec fn page_history_of(visits: Seq<CommitVisit>, limit: nat) -> Seq<CommitInfo> {
    let touching = touching_commits(visits);
    if touching.len() <= limit {
        touching
    } else {
        touching.take(limit as int)
    }
}

proof fn lemma_touching_prefix(visits: Seq<CommitVisit>, more: Seq<CommitVisit>)
    ensures
        touching_commits(visits).len() <= touching_commits(visits + more).len(),
        touching_commits(visits) =~= touching_commits(visits + more).take(
            touching_commits(visits).len() as int,
        ),
    decreases more.len(),
{
    if more.len() == 0 {
        assert(visits + more =~= visits);
    } else {
        lemma_touching_prefix(visits, more.drop_last());
        assert((visits + more).drop_last() =~= visits + more.drop_last());
    }
}

/// Once the history holds `limit` commits, what the walk would meet later
/// changes nothing: stopping there gives the history of the whole walk.
pub proof fn lemma_full_history_is_final(
    visits: Seq<CommitVisit>,
    more: Seq<CommitVisit>,
    limit: nat,
)
    requires
        page_history_of(visits, limit).len() == limit,
    ensures
        page_history_of(visits + more, limit) == page_history_of(visits, limit),
{
    lemma_touching_prefix(visits, more);
    let a = touching_commits(visits);
    let b = touching_commits(visits + more);
    assert(a.len() >= limit);
    assert(b.take(limit as int) =~= a.take(limit as int));
}

/// A commit that holds the page's file with the same blob as its first
/// parent did not touch it; one with a different blob did, and so did one
/// that added or removed the file; one without the file on either side did not.
pub proof fn lemma_touches_file(a: Seq<u8>, b: Seq<u8>)
    ensures
        !touches_file(Some(a), Some(a)),
        a != b ==> touches_file(Some(a), Some(b)),
        touches_file(Some(a), None),
        touches_file(None, Some(b)),
        !touches_file(None, None),
{
}

/// Meeting one more commit adds it to the end of the touching commits when
/// it touched the page's file, and adds nothing otherwise.
pub proof fn lemma_touching_commits_step(visits: Seq<CommitVisit>, v: CommitVisit)
    ensures
        touching_commits(visits.push(v)) == if visit_touches(v) {
            touching_commits(visits).push(v.info)
        } else {
            touching_commits(visits)
        },
        touching_commits(Seq::<CommitVisit>::empty()) == Seq::<CommitInfo>::empty(),
{
    assert(visits.push(v).drop_last() =~= visits);
}

/// A history holds the first `limit` commits that added, changed or removed
/// the page's file, in the order met, or all of them when there are fewer.
pub proof fn lemma_history_within_limit(visits: Seq<CommitVisit>, limit: nat)
    ensures
        page_history_of(visits, limit).len() <= limit,
        page_history_of(visits, limit) == touching_commits(visits).take(
            page_history_of(visits, limit).len() as int,
        ),
        page_history_of(visits, limit).len() == if touching_commits(visits).len() <= limit {
            touching_commits(visits).len()
        } else {
            limit
        },
{
    let t = touching_commits(visits);
    if t.len() <= limit {
        assert(t.take(t.len() as int) =~= t);
    }
}

/// The two optional blob ids are the same.
fn same_blob(a: &Option<Vec<u8>>, b: &Option<Vec<u8>>) -> (same: bool)
    ensures
        same == (blob_bytes(*a) == blob_bytes(*b)),
{
    match (a, b) {
        (Some(x), Some(y)) => {
            if x.len() != y.len() {
                return false;
            }
            let mut i: usize = 0;
            while i < x.len()
                invariant
                    blob_bytes(*a) == Some(x@),
                    blob_bytes(*b) == Some(y@),
                    x.len() == y.len(),
                    i <= x.len(),
                    forall|k: int| 0 <= k < i ==> x@[k] == y@[k],
                decreases x.len() - i,
            {
                if x[i] != y[i] {
                    assert(x@[i as int] != y@[i as int]);
                    return false;
                }
                i = i + 1;
            }
            assert(x@ =~= y@);
            true
        },
        (None, None) => true,
        _ => false,
    }
}

/// The commit whose tree holds the page's file as `file_blob`, and whose first
/// parent holds it as `parent_file_blob`, added, changed or removed the file.
pub fn commit_touches_file(file_blob: &Option<Vec<u8>>, parent_file_blob: &Option<Vec<u8>>) -> (touched:
    bool)
    ensures
        touched == touches_file(blob_bytes(*file_blob), blob_bytes(*parent_file_blob)),
        file_blob matches Some(a) ==> (parent_file_blob matches Some(b) ==> (touched <==> a@
            != b@)),
        (file_blob is None && parent_file_blob is None) ==> !touched,
        (file_blob is Some) != (parent_file_blob is Some) ==> touched,
{
    match (file_blob, parent_file_blob) {
        (None, None) => false,
        (Some(_), Some(_)) => !same_blob(file_blob, parent_file_blob),
        _ => true,
    }
}

/// The instant of a commit made `seconds` after the Unix epoch; the epoch
/// itself when chrono cannot hold that instant.
pub fn commit_time(seconds: i64) -> (t: Timestamp)
    ensures
        utc_accepts(seconds, 0) ==> t@ == (seconds, 0u32),
        !utc_accepts(seconds, 0) ==> t@ == (0i64, 0u32),
{
    match Timestamp::from_unix(seconds, 0) {
        Some(t) => t,
        None => Timestamp::epoch(),
    }
}

/// The walk through the commits for a page's history, newest first. The caller
/// stops the walk as soon as it is full, and hands it each commit it meets.
pub struct HistoryWalk {
    limit: usize,
    commits: Vec<CommitInfo>,
    visited: Ghost<Seq<CommitVisit>>,
}

impl HistoryWalk {
    /// The commits met so far.
    pub closed spec fn visits(&self) -> Seq<CommitVisit> {
        self.visited@
    }

    /// The most commits the history holds.
    pub closed spec fn spec_limit(&self) -> nat {
        self.limit as nat
    }

    /// The history so far.
    pub closed spec fn history(&self) -> Seq<CommitInfo> {
        self.commits@
    }

    #[verifier::type_invariant]
    closed spec fn wf(&self) -> bool {
        self.commits@ == page_history_of(self.visited@, self.limit as nat)
    }

    /// A walk that has met no commit yet, for a history of at most `limit` commits.
    pub fn new(limit: usize) -> (walk: HistoryWalk)
        ensures
            walk.visits() == Seq::<CommitVisit>::empty(),
            walk.spec_limit() == limit,
            walk.history() == Seq::<CommitInfo>::empty(),
    {
        let walk = HistoryWalk { limit, commits: Vec::new(), visited: Ghost(Seq::empty()) };
        assert(walk.commits@ =~= page_history_of(Seq::empty(), limit as nat));
        walk
    }

    /// The history holds as many commits as it may: the walk stops here.
    pub fn is_full(&self) -> (full: bool)
        ensures
            full == (self.history().len() >= self.spec_limit()),
            self.history() == page_history_of(self.visits(), self.spec_limit()),
    {
        proof {
            use_type_invariant(self);
        }
        self.commits.len() >= self.limit
    }

    /// Meets one more commit: the history takes it when it added, changed or
    /// removed the page's file.
    pub fn visit(&mut self, visit: CommitVisit)
        requires
            old(self).history().len() < old(self).spec_limit(),
        ensures
            final(self).visits() == old(self).visits().push(visit),
            final(self).spec_limit() == old(self).spec_limit(),
            final(self).history() == page_history_of(final(self).visits(), final(self).spec_limit()),
            final(self).history() == if visit_touches(visit) {
                old(self).history().push(visit.info)
            } else {
                old(self).history()
            },
    {
        proof {
            use_type_invariant(&*self);
        }
        let ghost before = self.visited@;
        let ghost visits = before.push(visit);
        assert(visits.drop_last() =~= before);
        let touched = commit_touches_file(&visit.file_blob, &visit.parent_file_blob);
        proof {
            let t0 = touching_commits(before);
            assert(t0.len() < self.limit);
            assert(page_history_of(before, self.limit as nat) == t0);
        }
        let limit = self.limit;
        let mut taken = HistoryWalk::new(limit);
        std::mem::swap(self, &mut taken);
        let HistoryWalk { limit, mut commits, visited: _ } = taken;
        if touched {
            commits.push(visit.info);
        }
        *self = HistoryWalk { limit, commits, visited: Ghost(visits) };
    }

    /// The history the walk gathered.
    pub fn into_commits(self) -> (commits: Vec<CommitInfo>)
        ensures
            commits@ == self.history(),
            commits@ == page_history_of(self.visits(), self.spec_limit()),
    {
        proof {
            use_type_invariant(&self);
        }
        self.commits
    }
}

} // verus!
