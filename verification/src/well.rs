//! A bounded priority well: capacity-limited container of jobs that always
//! yields the minimum under the scheduling order `(priority, submit_time)`,
//! ties broken by earlier submission, and among fully equal keys by earlier
//! insertion.
//!
//! Like the buffer, this is the sequential core of a staging area that the
//! running service shares between worker stages: operations that block there
//! carry the condition they would wait for as a precondition.

use vstd::prelude::*;

verus! {

use vstd::string::StringExecFns;
use crate::job::Job;

/// `j` is no later in scheduling order than any element of `s`.
pub open spec fn is_min_of(j: Job, s: Seq<Job>) -> bool {
    forall|k: int| 0 <= k < s.len() ==> j.key_le(#[trigger] s[k])
}

/// Position `i` holds the first minimum of `s`: no element is scheduled
/// earlier, and everything before position `i` is scheduled strictly later.
pub open spec fn first_min_at(s: Seq<Job>, i: int) -> bool {
    &&& 0 <= i < s.len()
    &&& is_min_of(s[i], s)
    &&& forall|k: int| 0 <= k < i ==> s[i].key_lt(#[trigger] s[k])
}

/// A priority container that never holds more than `max_size` jobs.
pub struct HeapWell {
    items: Vec<Job>,
    max_size: usize,
    #[allow(dead_code)]
    name: String,
}

impl View for HeapWell {
    type V = Seq<Job>;

    closed spec fn view(&self) -> Seq<Job> {
        self.items@
    }
}

impl HeapWell {
    /// The declared capacity.
    pub closed spec fn spec_capacity(self) -> usize {
        self.max_size
    }

    /// Invariant: the well never exceeds its declared capacity.
    pub open spec fn inv(self) -> bool {
        self@.len() <= self.spec_capacity()
    }

    /// An empty well with the given label and capacity.
    pub fn new(name: &str, max_size: usize) -> (r: HeapWell)
        ensures
            r.inv(),
            r@ == Seq::<Job>::empty(),
            r.spec_capacity() == max_size,
    {
        HeapWell { items: Vec::new(), max_size, name: String::from_str(name) }
    }

    /// Inserts iff there is room; on rejection the job comes back unmodified.
    pub fn push(&mut self, item: Job) -> (r: Result<(), Job>)
        requires
            old(self).inv(),
        ensures
            final(self).inv(),
            final(self).spec_capacity() == old(self).spec_capacity(),
            old(self)@.len() < old(self).spec_capacity() ==> r is Ok && final(self)@ == old(self)@.push(item),
            old(self)@.len() >= old(self).spec_capacity() ==> r == Err::<(), Job>(item) && final(self)@ == old(self)@,
    {
        if self.items.len() < self.max_size {
            self.items.push(item);
            Ok(())
        } else {
            Err(item)
        }
    }

    /// Inserts a job. A blocking insert waits until there is room; that
    /// room is a precondition here.
    pub fn push_blocking(&mut self, item: Job)
        requires
            old(self).inv(),
            old(self)@.len() < old(self).spec_capacity(),
        ensures
            final(self).inv(),
            final(self).spec_capacity() == old(self).spec_capacity(),
            final(self)@ == old(self)@.push(item),
    {
        self.items.push(item);
    }

    /// The position of the first minimum under the scheduling order.
    fn min_index(&self) -> (m: usize)
        requires
            self@.len() > 0,
        ensures
            first_min_at(self@, m as int),
    {
        let mut m: usize = 0;
        let mut i: usize = 1;
        while i < self.items.len()
            invariant
                m < i <= self@.len(),
                forall|k: int| 0 <= k < i ==> self@[m as int].key_le(#[trigger] self@[k]),
                forall|k: int| 0 <= k < m ==> self@[m as int].key_lt(#[trigger] self@[k]),
            decreases self@.len() - i,
        {
            let cand = &self.items[i];
            let best = &self.items[m];
            if cand.priority < best.priority || (cand.priority == best.priority
                && cand.submit_time < best.submit_time) {
                m = i;
            }
            i = i + 1;
        }
        m
    }

    /// Removes and returns the earliest-scheduled job, or `None` on an empty
    /// well.
    pub fn pop(&mut self) -> (r: Option<Job>)
        requires
            old(self).inv(),
        ensures
            final(self).inv(),
            final(self).spec_capacity() == old(self).spec_capacity(),
            old(self)@.len() == 0 ==> r is None && final(self)@ == old(self)@,
            old(self)@.len() > 0 ==> exists|i: int|
                #[trigger] first_min_at(old(self)@, i) && r == Some(old(self)@[i]) && final(self)@
                    == old(self)@.remove(i),
    {
        if self.items.len() == 0 {
            None
        } else {
            let m = self.min_index();
            let job = self.items.remove(m);
            proof {
                assert(first_min_at(old(self)@, m as int) && job == old(self)@[m as int]
                    && final(self)@ == old(self)@.remove(m as int));
            }
            Some(job)
        }
    }

    /// Removes and returns the earliest-scheduled job. A blocking removal
    /// waits until the well is non-empty; that is a precondition here.
    pub fn pop_blocking(&mut self) -> (r: Job)
        requires
            old(self).inv(),
            old(self)@.len() > 0,
        ensures
            final(self).inv(),
            final(self).spec_capacity() == old(self).spec_capacity(),
            exists|i: int|
                #[trigger] first_min_at(old(self)@, i) && r == old(self)@[i]
                    && final(self)@ == old(self)@.remove(i),
    {
        let r = self.pop();
        match r {
            Some(job) => job,
            None => unreached(),
        }
    }

    /// A copy of the job `pop` would yield, without removing it.
    pub fn peek(&self) -> (r: Option<Job>)
        ensures
            self@.len() == 0 ==> r is None,
            self@.len() > 0 ==> exists|i: int|
                #[trigger] first_min_at(self@, i) && r == Some(self@[i]),
    {
        if self.items.len() == 0 {
            None
        } else {
            let m = self.min_index();
            Some(self.items[m].clone())
        }
    }

    /// The declared capacity.
    pub fn capacity(&self) -> (r: usize)
        ensures
            r == self.spec_capacity(),
    {
        self.max_size
    }

    /// The number of jobs held right now.
    pub fn len(&self) -> (r: usize)
        ensures
            r == self@.len(),
    {
        self.items.len()
    }

    /// Whether the well holds nothing.
    pub fn is_empty(&self) -> (r: bool)
        ensures
            r == (self@.len() == 0),
    {
        self.items.len() == 0
    }
}

/// No bounded well ever exceeds its declared capacity.
pub proof fn well_within_capacity(w: HeapWell)
    requires
        w.inv(),
    ensures
        w@.len() <= w.spec_capacity(),
{
}

/// The first minimum is unique: `first_min_at` holds of at most one
/// position, so `peek` shows exactly the job the next `pop` yields.
pub proof fn first_min_at_unique(s: Seq<Job>, i: int, j: int)
    requires
        first_min_at(s, i),
        first_min_at(s, j),
    ensures
        i == j,
{
    if i < j {
        assert(s[j].key_lt(s[i]));
        assert(s[i].key_le(s[j]));
    } else if j < i {
        assert(s[i].key_lt(s[j]));
        assert(s[j].key_le(s[i]));
    }
}

/// Jobs leave a well in scheduling order: if a pop yields the job at
/// position `i` and the next pop, with nothing pushed in between, yields the
/// job at position `j` of the remainder, then the first job's
/// `(priority, submit_time)` key is no later than the second's.
pub proof fn pops_are_ordered(s: Seq<Job>, i: int, j: int)
    requires
        first_min_at(s, i),
        first_min_at(s.remove(i), j),
    ensures
        s[i].key_le(s.remove(i)[j]),
{
    if j < i {
        assert(s.remove(i)[j] == s[j]);
    } else {
        assert(s.remove(i)[j] == s[j + 1]);
    }
}

/// Among jobs of identical priority, the well yields them in submission
/// order: under the conditions of [`pops_are_ordered`], equal priorities
/// force the first job's submit time to be no later than the second's.
pub proof fn equal_priority_pops_in_time_order(s: Seq<Job>, i: int, j: int)
    requires
        first_min_at(s, i),
        first_min_at(s.remove(i), j),
        s[i].priority == s.remove(i)[j].priority,
    ensures
        s[i].submit_time <= s.remove(i)[j].submit_time,
{
    pops_are_ordered(s, i, j);
}

} // verus!
