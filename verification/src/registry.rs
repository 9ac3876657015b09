//! The job registry: the process-wide mapping from job id to the latest
//! known snapshot of the job, and the source of truth for inspection.
//!
//! Entries are held in insertion order in a vector whose ids stay unique;
//! writes are whole-record overwrites and observations hand out copies.

use vstd::prelude::*;

verus! {

use vstd::pervasive::VecAdditionalExecFns;
use crate::job::{Job, JobStatus};

/// The ids of the entries whose submission did not fail, in registry order.
pub open spec fn active_ids_of(s: Seq<Job>) -> Seq<usize>
    decreases s.len(),
{
    if s.len() == 0 {
        Seq::empty()
    } else {
        active_ids_of(s.drop_last()) + (if s.last().status != JobStatus::SubmitFailed {
            seq![s.last().job_id]
        } else {
            Seq::empty()
        })
    }
}

/// The document names, `{file_name}.pdf`, of the completed entries, in
/// registry order.
pub open spec fn completed_names_of(s: Seq<Job>) -> Seq<Seq<char>>
    decreases s.len(),
{
    if s.len() == 0 {
        Seq::empty()
    } else {
        completed_names_of(s.drop_last()) + (if s.last().status == JobStatus::Completed {
            seq![s.last().file_name@ + ".pdf"@]
        } else {
            Seq::empty()
        })
    }
}

/// The mapping `job_id -> Job`.
pub struct Registry {
    jobs: Vec<Job>,
}

impl View for Registry {
    type V = Seq<Job>;

    closed spec fn view(&self) -> Seq<Job> {
        self.jobs@
    }
}

impl Registry {
    /// Whether some entry is filed under `id`.
    pub open spec fn contains_id(self, id: usize) -> bool {
        exists|i: int| 0 <= i < self@.len() && (#[trigger] self@[i]).job_id == id
    }

    /// The position of the entry filed under `id`.
    pub open spec fn idx_of(self, id: usize) -> int {
        choose|i: int| 0 <= i < self@.len() && (#[trigger] self@[i]).job_id == id
    }

    /// The entry filed under `id`, if any.
    pub open spec fn spec_get(self, id: usize) -> Option<Job> {
        if self.contains_id(id) {
            Some(self@[self.idx_of(id)])
        } else {
            None
        }
    }

    /// Invariant: at most one entry per job id — an accepted submission
    /// appears exactly once.
    pub open spec fn inv(self) -> bool {
        forall|i: int, j: int|
            0 <= i < j < self@.len() ==> (#[trigger] self@[i]).job_id != (#[trigger] self@[j]).job_id
    }

    /// Under the invariant, the entry at any position is what `spec_get`
    /// yields for its id.
    pub proof fn lemma_entry_is_get(self, i: int)
        requires
            self.inv(),
            0 <= i < self@.len(),
        ensures
            self.spec_get(self@[i].job_id) == Some(self@[i]),
            self.idx_of(self@[i].job_id) == i,
    {
        let id = self@[i].job_id;
        assert(self.contains_id(id));
        let c = self.idx_of(id);
        assert(0 <= c < self@.len() && self@[c].job_id == id);
        if c < i {
            assert(self@[c].job_id != self@[i].job_id);
        } else if i < c {
            assert(self@[i].job_id != self@[c].job_id);
        }
    }

    /// An empty registry.
    pub fn new() -> (r: Registry)
        ensures
            r.inv(),
            r@ == Seq::<Job>::empty(),
    {
        Registry { jobs: Vec::new() }
    }

    /// Files `job` under its id, overwriting the whole record if the id is
    /// already present and appending otherwise. Entries under other ids are
    /// untouched.
    pub fn insert_or_replace(&mut self, job: Job)
        requires
            old(self).inv(),
            old(self)@.len() < usize::MAX || old(self).contains_id(job.job_id),
        ensures
            final(self).inv(),
            final(self).spec_get(job.job_id) == Some(job),
            forall|id: usize|
                id != job.job_id ==> final(self).spec_get(id) == old(self).spec_get(id),
            forall|id: usize|
                #[trigger] final(self).contains_id(id) <==> (old(self).contains_id(id) || id
                    == job.job_id),
            old(self).contains_id(job.job_id) ==> final(self)@ == old(self)@.update(
                old(self).idx_of(job.job_id),
                job,
            ),
            !old(self).contains_id(job.job_id) ==> final(self)@ == old(self)@.push(job),
    {
        let n = self.jobs.len();
        let mut i: usize = 0;
        while i < n
            invariant
                *self == *old(self),
                self.inv(),
                n == self@.len(),
                i <= n,
                forall|k: int| 0 <= k < i ==> (#[trigger] self@[k]).job_id != job.job_id,
            decreases n - i,
        {
            if self.jobs[i].job_id == job.job_id {
                proof {
                    old(self).lemma_entry_is_get(i as int);
                }
                self.jobs.set(i, job);
                proof {
                    self.lemma_insert_frame(*old(self), job, i as int);
                }
                return ;
            }
            i = i + 1;
        }
        self.jobs.push(job);
        proof {
            assert(!old(self).contains_id(job.job_id));
            self.lemma_append_frame(*old(self), job);
        }
    }

    /// After replacing position `i`, whose entry carried `job`'s id, lookups
    /// of every other id are unchanged.
    proof fn lemma_insert_frame(self, prev: Registry, job: Job, i: int)
        requires
            prev.inv(),
            0 <= i < prev@.len(),
            prev@[i].job_id == job.job_id,
            self@ == prev@.update(i, job),
        ensures
            self.inv(),
            self.spec_get(job.job_id) == Some(job),
            forall|id: usize| id != job.job_id ==> self.spec_get(id) == prev.spec_get(id),
            forall|id: usize|
                #[trigger] self.contains_id(id) <==> (prev.contains_id(id) || id == job.job_id),
    {
        assert forall|p: int, q: int| 0 <= p < q < self@.len() implies (#[trigger] self@[p]).job_id
            != (#[trigger] self@[q]).job_id by {
            assert(prev@[p].job_id != prev@[q].job_id);
        }
        self.lemma_entry_is_get(i);
        assert forall|id: usize| #[trigger]
            self.contains_id(id) <==> (prev.contains_id(id) || id == job.job_id) by {
            if prev.contains_id(id) {
                let k = prev.idx_of(id);
                assert(0 <= k < prev@.len() && prev@[k].job_id == id);
                if k != i {
                    assert(self@[k].job_id == id);
                }
            }
            if self.contains_id(id) && id != job.job_id {
                let k = self.idx_of(id);
                assert(0 <= k < self@.len() && self@[k].job_id == id);
                assert(k != i);
                assert(prev@[k].job_id == id);
            }
        }
        assert forall|id: usize| id != job.job_id implies self.spec_get(id) == prev.spec_get(
            id,
        ) by {
            if prev.contains_id(id) {
                let k = prev.idx_of(id);
                assert(0 <= k < prev@.len() && prev@[k].job_id == id);
                assert(self@[k] == prev@[k]);
                self.lemma_entry_is_get(k);
                prev.lemma_entry_is_get(k);
            } else {
                assert(!self.contains_id(id)) by {
                    if self.contains_id(id) {
                        let k = self.idx_of(id);
                        assert(0 <= k < self@.len() && self@[k].job_id == id);
                        assert(prev@[k].job_id == id);
                    }
                }
            }
        }
    }

    /// After appending an entry with a fresh id, lookups of every other id
    /// are unchanged.
    proof fn lemma_append_frame(self, prev: Registry, job: Job)
        requires
            prev.inv(),
            !prev.contains_id(job.job_id),
            self@ == prev@.push(job),
        ensures
            self.inv(),
            self.spec_get(job.job_id) == Some(job),
            forall|id: usize| id != job.job_id ==> self.spec_get(id) == prev.spec_get(id),
            forall|id: usize|
                #[trigger] self.contains_id(id) <==> (prev.contains_id(id) || id == job.job_id),
    {
        assert forall|p: int, q: int| 0 <= p < q < self@.len() implies (#[trigger] self@[p]).job_id
            != (#[trigger] self@[q]).job_id by {
            if q < prev@.len() {
                assert(prev@[p].job_id != prev@[q].job_id);
            } else {
                assert(self@[q] == job);
                assert(prev@[p].job_id != job.job_id);
            }
        }
        self.lemma_entry_is_get(prev@.len() as int);
        assert forall|id: usize| #[trigger]
            self.contains_id(id) <==> (prev.contains_id(id) || id == job.job_id) by {
            if prev.contains_id(id) {
                let k = prev.idx_of(id);
                assert(0 <= k < prev@.len() && prev@[k].job_id == id);
                assert(self@[k].job_id == id);
            }
            if self.contains_id(id) && id != job.job_id {
                let k = self.idx_of(id);
                assert(0 <= k < self@.len() && self@[k].job_id == id);
                assert(k != prev@.len());
                assert(prev@[k].job_id == id);
            }
        }
        assert forall|id: usize| id != job.job_id implies self.spec_get(id) == prev.spec_get(
            id,
        ) by {
            if prev.contains_id(id) {
                let k = prev.idx_of(id);
                assert(0 <= k < prev@.len() && prev@[k].job_id == id);
                assert(self@[k] == prev@[k]);
                self.lemma_entry_is_get(k);
                prev.lemma_entry_is_get(k);
            } else {
                assert(!self.contains_id(id)) by {
                    if self.contains_id(id) {
                        let k = self.idx_of(id);
                        assert(0 <= k < self@.len() && self@[k].job_id == id);
                        if k < prev@.len() {
                            assert(prev@[k].job_id == id);
                        }
                    }
                }
            }
        }
    }

    /// A copy of the entry filed under `id`, or `None`.
    pub fn get(&self, id: usize) -> (r: Option<Job>)
        requires
            self.inv(),
        ensures
            r == self.spec_get(id),
    {
        let n = self.jobs.len();
        let mut i: usize = 0;
        while i < n
            invariant
                self.inv(),
                n == self@.len(),
                i <= n,
                forall|k: int| 0 <= k < i ==> (#[trigger] self@[k]).job_id != id,
            decreases n - i,
        {
            if self.jobs[i].job_id == id {
                proof {
                    self.lemma_entry_is_get(i as int);
                }
                return Some(self.jobs[i].clone());
            }
            i = i + 1;
        }
        proof {
            assert(!self.contains_id(id));
        }
        None
    }

    /// Copies of all entries, in registry order.
    pub fn values_snapshot(&self) -> (r: Vec<Job>)
        ensures
            r@ == self@,
    {
        let n = self.jobs.len();
        let mut r: Vec<Job> = Vec::new();
        let mut i: usize = 0;
        while i < n
            invariant
                n == self@.len(),
                i <= n,
                r@ == self@.take(i as int),
            decreases n - i,
        {
            r.push(self.jobs[i].clone());
            proof {
                assert(r@ =~= self@.take(i as int + 1));
            }
            i = i + 1;
        }
        proof {
            assert(self@.take(n as int) =~= self@);
        }
        r
    }

    /// The ids of the entries whose submission did not fail, in registry
    /// order.
    pub fn active_job_ids(&self) -> (r: Vec<usize>)
        ensures
            r@ == active_ids_of(self@),
    {
        let n = self.jobs.len();
        let mut r: Vec<usize> = Vec::new();
        let mut i: usize = 0;
        while i < n
            invariant
                n == self@.len(),
                i <= n,
                r@ == active_ids_of(self@.take(i as int)),
            decreases n - i,
        {
            let keep = match self.jobs[i].status {
                JobStatus::SubmitFailed => false,
                _ => true,
            };
            if keep {
                r.push(self.jobs[i].job_id);
            }
            proof {
                let t = self@.take(i as int + 1);
                assert(t.drop_last() =~= self@.take(i as int));
                assert(t.last() == self@[i as int]);
                assert(r@ =~= active_ids_of(t));
            }
            i = i + 1;
        }
        proof {
            assert(self@.take(n as int) =~= self@);
        }
        r
    }

    /// The document names of the completed entries, in registry order.
    pub fn completed_file_names(&self) -> (r: Vec<String>)
        ensures
            r@.len() == completed_names_of(self@).len(),
            forall|k: int| 0 <= k < r@.len() ==> (#[trigger] r@[k])@ == completed_names_of(self@)[k],
    {
        let n = self.jobs.len();
        let mut r: Vec<String> = Vec::new();
        let mut i: usize = 0;
        while i < n
            invariant
                n == self@.len(),
                i <= n,
                r@.len() == completed_names_of(self@.take(i as int)).len(),
                forall|k: int|
                    0 <= k < r@.len() ==> (#[trigger] r@[k])@ == completed_names_of(
                        self@.take(i as int),
                    )[k],
            decreases n - i,
        {
            let completed = match self.jobs[i].status {
                JobStatus::Completed => true,
                _ => false,
            };
            if completed {
                let mut name = self.jobs[i].file_name.clone();
                name.append(".pdf");
                r.push(name);
            }
            proof {
                let t = self@.take(i as int + 1);
                assert(t.drop_last() =~= self@.take(i as int));
                assert(t.last() == self@[i as int]);
            }
            i = i + 1;
        }
        proof {
            assert(self@.take(n as int) =~= self@);
        }
        r
    }
}

} // verus!
