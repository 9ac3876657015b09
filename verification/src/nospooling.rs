//! The no-spool path: a submission goes straight to the printer and is
//! accepted or rejected on the spot — no buffers, no stages, no priority.
//! It serves as the control against which the spool pipeline is compared.

use vstd::prelude::*;

verus! {

use vstd::string::StringExecFns;
use crate::Timestamp;
use crate::job::{Job, JobStatus, file_name_of};
use crate::printer::{Printer, PrinterStatus};
use crate::registry::{Registry, active_ids_of};
use crate::spooling::rawJob;
use crate::timefmt::MAX_TIMESTAMP;

/// What the registry records for a no-spool submission of `data` assigned
/// `id`: accepted submissions are filed as `Completed` on the spot (the
/// render proceeds in the background), rejected ones as `SubmitFailed`.
pub open spec fn is_nospool_job(j: Job, data: rawJob, id: usize, accepted: bool) -> bool {
    &&& j.job_id == id
    &&& j.priority == data.priority
    &&& j.team_name == data.team_name
    &&& j.file_name@ == file_name_of(data.team_name@, data.submit_time, id)
    &&& j.problem_name == data.problem_name
    &&& j.submit_time == data.submit_time
    &&& j.file_content == data.file_content
    &&& j.color == data.color
    &&& j.status == (if accepted {
        JobStatus::Completed
    } else {
        JobStatus::SubmitFailed
    })
    &&& j.start_print_time is None
    &&& j.end_print_time is None
}

/// The no-spool system: the registry, the printer, and the process-wide
/// counters.
#[allow(non_camel_case_types)]
pub struct NoSPOOLing {
    pub status_map: Registry,
    pub printer: Printer,
    pub rendering: Option<usize>,
    pub total_submitted: usize,
    pub total_completed: usize,
}

impl NoSPOOLing {
    /// The system invariant: registry ids are unique and counted; the
    /// printer is `Printing` exactly when one render is outstanding; the
    /// counters never run ahead of submissions.
    pub open spec fn inv(self) -> bool {
        &&& self.status_map.inv()
        &&& (self.printer.spec_status() == PrinterStatus::Printing <==> self.rendering is Some)
        &&& self.total_completed <= self.total_submitted
        &&& self.printer.spec_printed_count() + (if self.rendering is Some {
            1nat
        } else {
            0nat
        }) <= self.total_submitted
        &&& self.status_map@.len() <= self.total_submitted
        &&& forall|i: int|
            0 <= i < self.status_map@.len() ==> (#[trigger] self.status_map@[i]).job_id < self.total_submitted
    }

    /// A fresh no-spool system around the given printer.
    pub fn new(printer: Printer) -> (r: NoSPOOLing)
        requires
            printer.spec_status() == PrinterStatus::Free,
            printer.spec_printed_count() == 0,
        ensures
            r.inv(),
            r.status_map@ == Seq::<Job>::empty(),
            r.printer == printer,
            r.rendering is None,
            r.total_submitted == 0,
            r.total_completed == 0,
    {
        NoSPOOLing {
            status_map: Registry::new(),
            printer,
            rendering: None,
            total_submitted: 0,
            total_completed: 0,
        }
    }

    /// The printer's state, as an instantaneous observation.
    pub fn get_status(&self) -> (r: PrinterStatus)
        ensures
            r == self.printer.spec_status(),
    {
        self.printer.get_status()
    }

    /// Submits a job directly to the printer. A record is created and filed
    /// either way: if the device was free the submission succeeds, the job
    /// is filed as `Completed` on the spot (following the facade's contract;
    /// the render itself proceeds in the background until
    /// [`NoSPOOLing::finish_render`]) and the completion counter grows; if
    /// the device was busy the record is filed as `SubmitFailed` and the
    /// submission fails synchronously.
    pub fn submit_job(&mut self, data: rawJob) -> (r: Result<usize, String>)
        requires
            old(self).inv(),
            data.submit_time <= MAX_TIMESTAMP,
            old(self).total_submitted < usize::MAX,
        ensures
            final(self).inv(),
            final(self).total_submitted == old(self).total_submitted + 1,
            ({
                let id = old(self).total_submitted;
                let accepted = old(self).printer.spec_status() == PrinterStatus::Free;
                &&& accepted ==> r == Ok::<usize, String>(id) && final(self).total_completed == old(
                    self,
                ).total_completed + 1 && final(self).printer.spec_status()
                    == PrinterStatus::Printing && final(self).rendering == Some(id)
                &&& !accepted ==> (r matches Err(m) && m@ == "busy"@) && final(self).total_completed
                    == old(self).total_completed && final(self).printer == old(self).printer
                    && final(self).rendering == old(self).rendering
                &&& final(self).status_map.spec_get(id) matches Some(j) && is_nospool_job(
                    j,
                    data,
                    id,
                    accepted,
                )
                &&& forall|other: usize|
                    other != id ==> final(self).status_map.spec_get(other) == old(
                        self,
                    ).status_map.spec_get(other)
            }),
            final(self).printer.spec_printed_count() == old(self).printer.spec_printed_count(),
    {
        let job_id = self.total_submitted;
        let mut job = Job::new(
            job_id,
            data.priority,
            data.team_name,
            data.submit_time,
            data.file_content,
            data.color,
            data.problem_name,
        );
        self.total_submitted = self.total_submitted + 1;
        self.status_map.insert_or_replace(job.clone());
        match self.printer.submit_task(job.clone()) {
            Ok(_) => {
                job.status = JobStatus::Completed;
                self.status_map.insert_or_replace(job.clone());
                self.total_completed = self.total_completed + 1;
                self.rendering = Some(job_id);
                Ok(job_id)
            },
            Err(mut back) => {
                back.status = JobStatus::SubmitFailed;
                self.status_map.insert_or_replace(back);
                Err(String::from_str("busy"))
            },
        }
    }

    /// Releases the printer once the background render of the accepted job
    /// has returned: the device goes back to `Free` and its count of
    /// finished renders grows by one. The registry is untouched — the job
    /// was already filed as `Completed` when it was accepted.
    pub fn finish_render(&mut self)
        requires
            old(self).inv(),
            old(self).rendering is Some,
        ensures
            final(self).inv(),
            final(self).rendering is None,
            final(self).printer.spec_status() == PrinterStatus::Free,
            final(self).printer.spec_printed_count() == old(self).printer.spec_printed_count() + 1,
            final(self).status_map@ == old(self).status_map@,
            final(self).total_submitted == old(self).total_submitted,
            final(self).total_completed == old(self).total_completed,
    {
        self.rendering = None;
        self.printer.finish_render();
    }

    /// The ids of all registered jobs whose submission did not fail, in
    /// registry order.
    pub fn get_active_job_id(&self) -> (r: Vec<usize>)
        ensures
            r@ == active_ids_of(self.status_map@),
    {
        self.status_map.active_job_ids()
    }

    /// The process-wide counters: total submitted, total completed.
    pub fn stats(&self) -> (r: (usize, usize))
        ensures
            r.0 == self.total_submitted,
            r.1 == self.total_completed,
    {
        (self.total_submitted, self.total_completed)
    }

    /// A copy of the registered record of `id`, or `None`.
    pub fn get_job(&self, id: usize) -> (r: Option<Job>)
        requires
            self.inv(),
        ensures
            r == self.status_map.spec_get(id),
    {
        self.status_map.get(id)
    }

    /// Copies of every registered record, in registry order.
    pub fn get_all_jobs(&self) -> (r: Vec<Job>)
        ensures
            r@ == self.status_map@,
    {
        self.status_map.values_snapshot()
    }
}

/// At every observation, completions never outnumber submissions — in
/// no-spool mode too.
pub proof fn nospool_completed_le_submitted(s: NoSPOOLing)
    requires
        s.inv(),
    ensures
        s.total_completed <= s.total_submitted,
{
}

} // verus!
