//! The job record: identity, content, timing and status of one print
//! submission, together with the ordering key the wells schedule by.

use vstd::prelude::*;

verus! {

use vstd::string::StringExecFns;
use crate::Timestamp;
use crate::textfmt::{dec_of, fmt_usize};
use crate::timefmt::{MAX_TIMESTAMP, compact_stamp, compact_stamp_of};

/// The four states a job can be in. `Completed` and `SubmitFailed` are
/// terminal.
#[derive(Clone, Copy, Debug, PartialEq, Eq, Structural)]
pub enum JobStatus {
    Waiting,
    Printing,
    Completed,
    SubmitFailed,
}

/// The name a job's document is filed under:
/// `{team_name}_{YYYYMMDD_HHMMSS}_{job_id}`.
pub open spec fn file_name_of(team: Seq<char>, submit_time: Timestamp, job_id: usize) -> Seq<
    char,
> {
    team + "_"@ + compact_stamp_of(submit_time) + "_"@ + dec_of(job_id as nat)
}

/// One print submission. `job_id` is assigned at creation and never changes;
/// neither does `file_name`.
#[derive(Debug)]
pub struct Job {
    pub job_id: usize,
    pub priority: u32,
    pub team_name: String,
    pub file_name: String,
    pub problem_name: String,
    pub submit_time: Timestamp,
    pub file_content: String,
    pub color: bool,
    pub status: JobStatus,
    pub start_print_time: Option<Timestamp>,
    pub end_print_time: Option<Timestamp>,
}

impl Clone for Job {
    fn clone(&self) -> (r: Job)
        ensures
            r == *self,
    {
        Job {
            job_id: self.job_id,
            priority: self.priority,
            team_name: self.team_name.clone(),
            file_name: self.file_name.clone(),
            problem_name: self.problem_name.clone(),
            submit_time: self.submit_time,
            file_content: self.file_content.clone(),
            color: self.color,
            status: self.status,
            start_print_time: self.start_print_time,
            end_print_time: self.end_print_time,
        }
    }
}

/// The result of marking a job complete: already-completed jobs are left
/// untouched, and the flag says whether a transition happened.
pub open spec fn spec_complete(j: Job, now: Timestamp) -> (Job, bool) {
    if j.status != JobStatus::Completed {
        (Job { status: JobStatus::Completed, end_print_time: Some(now), ..j }, true)
    } else {
        (j, false)
    }
}

impl Job {
    /// Validity: the submission instant lies in the formatters' range.
    pub open spec fn wf(self) -> bool {
        self.submit_time <= MAX_TIMESTAMP
    }

    /// Scheduling order: by `(priority, submit_time)`, lexicographically,
    /// smaller first. Smaller priority numbers are served sooner; ties break
    /// by earlier submission.
    pub open spec fn key_le(self, other: Job) -> bool {
        self.priority < other.priority || (self.priority == other.priority && self.submit_time
            <= other.submit_time)
    }

    /// Strict scheduling order.
    pub open spec fn key_lt(self, other: Job) -> bool {
        self.key_le(other) && !other.key_le(self)
    }

    /// Creates a job in state `Waiting`, deriving its immutable `file_name`
    /// from the team, the submission instant and the assigned id.
    pub fn new(
        job_id: usize,
        priority: u32,
        team_name: String,
        submit_time: Timestamp,
        file_content: String,
        color: bool,
        problem_name: String,
    ) -> (r: Job)
        requires
            submit_time <= MAX_TIMESTAMP,
        ensures
            r == (Job {
                job_id,
                priority,
                team_name,
                file_name: r.file_name,
                problem_name,
                submit_time,
                file_content,
                color,
                status: JobStatus::Waiting,
                start_print_time: None,
                end_print_time: None,
            }),
            r.file_name@ == file_name_of(team_name@, submit_time, job_id),
            r.wf(),
    {
        let stamp = compact_stamp(submit_time);
        let id_text = fmt_usize(job_id);
        let mut file_name = team_name.clone();
        file_name.append("_");
        file_name.append(stamp.as_str());
        file_name.append("_");
        file_name.append(id_text.as_str());
        proof {
            assert(file_name@ =~= file_name_of(team_name@, submit_time, job_id));
        }
        Job {
            job_id,
            priority,
            team_name,
            file_name,
            problem_name,
            submit_time,
            file_content,
            color,
            status: JobStatus::Waiting,
            start_print_time: None,
            end_print_time: None,
        }
    }

    /// Records the moment the printer takes the job.
    pub fn start_printing(&mut self, now: Timestamp)
        ensures
            *final(self) == (Job {
                status: JobStatus::Printing,
                start_print_time: Some(now),
                ..*old(self)
            }),
    {
        self.status = JobStatus::Printing;
        self.start_print_time = Some(now);
    }

    /// Marks the job completed, recording the end instant; on a job that is
    /// already `Completed` this changes nothing. Returns whether a transition
    /// happened, so that the caller bumps its completion counter at most once
    /// per job.
    pub fn complete(&mut self, now: Timestamp) -> (transitioned: bool)
        ensures
            (*final(self), transitioned) == spec_complete(*old(self), now),
    {
        if self.status != JobStatus::Completed {
            self.status = JobStatus::Completed;
            self.end_print_time = Some(now);
            true
        } else {
            false
        }
    }
}

/// Completing a job twice is the same as completing it once: the second call
/// finds it `Completed`, leaves it untouched and reports no transition, so
/// no completion counter driven by that report is bumped again.
pub proof fn complete_is_idempotent(j: Job, now1: Timestamp, now2: Timestamp)
    ensures
        spec_complete(spec_complete(j, now1).0, now2) == (spec_complete(j, now1).0, false),
{
}

} // verus!
