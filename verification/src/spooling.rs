//! The spool pipeline: four bounded staging areas wired by four worker
//! stages, feeding the exclusive printer, with the registry updated at
//! creation and at every state transition.
//!
//! Each stage of the running service is a perpetual worker loop; the body
//! of one loop turn is a verified step function, with the conditions the
//! worker would block on as preconditions. The driver that owns the
//! threads performs a stage's step whenever its containers allow it, and
//! reports the outcome of each render through [`SPOOLing::finish_render`]
//! (a job is marked `Completed` when its render returns, not when the
//! printer accepts it).

use vstd::prelude::*;

verus! {

use vstd::string::StringExecFns;
use crate::Timestamp;
use crate::buffer::Buffer;
use crate::job::{Job, JobStatus, file_name_of};
use crate::printer::{Printer, PrinterStatus};
use crate::registry::{Registry, active_ids_of, completed_names_of};
use crate::textfmt::{format_content, header_of};
use crate::timefmt::{MAX_TIMESTAMP, utc_display, utc_display_of};
use crate::well::{HeapWell, first_min_at};

/// A submission as it arrives from a client, before an id is assigned.
#[allow(non_camel_case_types)]
pub struct rawJob {
    pub priority: u32,
    pub team_name: String,
    pub submit_time: Timestamp,
    pub file_content: String,
    pub color: bool,
    pub problem_name: String,
}

/// What the registry records for a submission of `data` that was assigned
/// `id`: an accepted submission waits in the pipeline, a rejected one is
/// failed; either way the record carries the derived immutable file name.
pub open spec fn is_submitted_job(j: Job, data: rawJob, id: usize, accepted: bool) -> bool {
    &&& j.job_id == id
    &&& j.priority == data.priority
    &&& j.team_name == data.team_name
    &&& j.file_name@ == file_name_of(data.team_name@, data.submit_time, id)
    &&& j.problem_name == data.problem_name
    &&& j.submit_time == data.submit_time
    &&& j.file_content == data.file_content
    &&& j.color == data.color
    &&& j.status == (if accepted {
        JobStatus::Waiting
    } else {
        JobStatus::SubmitFailed
    })
    &&& j.start_print_time is None
    &&& j.end_print_time is None
}

/// `f` is `j` with the two-line metadata header prepended to its content;
/// every other field is untouched.
pub open spec fn is_formatted_of(f: Job, j: Job) -> bool {
    &&& f.file_content@ == header_of(j.team_name@, utc_display_of(j.submit_time))
        + j.file_content@
    &&& f == (Job { file_content: f.file_content, ..j })
}

/// The spool system: input buffer, the two priority wells, output buffer,
/// the registry, the printer, and the process-wide counters.
pub struct SPOOLing {
    pub input_buffer: Buffer<Job>,
    pub input_well: HeapWell,
    pub output_well: HeapWell,
    pub output_buffer: Buffer<Job>,
    pub status_map: Registry,
    pub printer: Printer,
    pub rendering: Option<Job>,
    pub total_submitted: usize,
    pub total_completed: usize,
}

/// The four declared capacities of `b` are those of `a`.
pub open spec fn same_config(a: SPOOLing, b: SPOOLing) -> bool {
    &&& b.input_buffer.spec_capacity() == a.input_buffer.spec_capacity()
    &&& b.input_well.spec_capacity() == a.input_well.spec_capacity()
    &&& b.output_well.spec_capacity() == a.output_well.spec_capacity()
    &&& b.output_buffer.spec_capacity() == a.output_buffer.spec_capacity()
}

impl SPOOLing {
    /// How many jobs the pipeline has captured and not yet released:
    /// everything staged in the four containers plus the one mid-render.
    pub open spec fn in_flight(self) -> nat {
        self.input_buffer@.len() + self.input_well@.len() + self.output_well@.len()
            + self.output_buffer@.len() + (if self.rendering is Some {
            1nat
        } else {
            0nat
        })
    }

    /// A staged job is valid, was counted at submission, and already has a
    /// registry entry under its id.
    pub open spec fn staged_job_wf(self, j: Job) -> bool {
        &&& j.wf()
        &&& j.job_id < self.total_submitted
        &&& self.status_map.contains_id(j.job_id)
    }

    /// Every job staged in the containers is valid, counted, and
    /// registered.
    pub open spec fn staged_jobs_wf(self) -> bool {
        &&& forall|i: int|
            0 <= i < self.input_buffer@.len() ==> self.staged_job_wf(
                #[trigger] self.input_buffer@[i],
            )
        &&& forall|i: int|
            0 <= i < self.input_well@.len() ==> self.staged_job_wf(#[trigger] self.input_well@[i])
        &&& forall|i: int|
            0 <= i < self.output_well@.len() ==> self.staged_job_wf(#[trigger] self.output_well@[i])
        &&& forall|i: int|
            0 <= i < self.output_buffer@.len() ==> self.staged_job_wf(
                #[trigger] self.output_buffer@[i],
            )
    }

    /// The system invariant, established by `new` and preserved by every
    /// operation:
    /// - no container exceeds its declared capacity;
    /// - registry ids are unique, and every recorded id was counted;
    /// - the printer is `Printing` exactly when one job is mid-render, and
    ///   that job's record is in state `Printing`;
    /// - the completion and render counters never overtake submissions
    ///   still outstanding: `total_completed + in_flight <= total_submitted`,
    ///   and the same for the printer's count of finished renders.
    pub open spec fn inv(self) -> bool {
        &&& self.input_buffer.inv()
        &&& self.input_well.inv()
        &&& self.output_well.inv()
        &&& self.output_buffer.inv()
        &&& self.status_map.inv()
        &&& (self.printer.spec_status() == PrinterStatus::Printing <==> self.rendering is Some)
        &&& (self.rendering matches Some(j) ==> self.staged_job_wf(j) && j.status
            == JobStatus::Printing)
        &&& self.total_completed + self.in_flight() <= self.total_submitted
        &&& self.printer.spec_printed_count() + self.in_flight() <= self.total_submitted
        &&& self.staged_jobs_wf()
        &&& self.status_map@.len() <= self.total_submitted
        &&& forall|i: int|
            0 <= i < self.status_map@.len() ==> (#[trigger] self.status_map@[i]).job_id < self.total_submitted
    }

    /// A fresh system with the four given capacities: everything empty, the
    /// printer idle, nothing counted yet.
    pub fn new(
        input_buffer_size: usize,
        input_well_size: usize,
        output_well_size: usize,
        output_buffer_size: usize,
    ) -> (r: SPOOLing)
        ensures
            r.inv(),
            r.input_buffer@ == Seq::<Job>::empty(),
            r.input_well@ == Seq::<Job>::empty(),
            r.output_well@ == Seq::<Job>::empty(),
            r.output_buffer@ == Seq::<Job>::empty(),
            r.input_buffer.spec_capacity() == input_buffer_size,
            r.input_well.spec_capacity() == input_well_size,
            r.output_well.spec_capacity() == output_well_size,
            r.output_buffer.spec_capacity() == output_buffer_size,
            r.status_map@ == Seq::<Job>::empty(),
            r.printer.spec_status() == PrinterStatus::Free,
            r.printer.spec_printed_count() == 0,
            r.rendering is None,
            r.total_submitted == 0,
            r.total_completed == 0,
    {
        SPOOLing {
            input_buffer: Buffer::new("input_buffer", input_buffer_size),
            input_well: HeapWell::new("input_well", input_well_size),
            output_well: HeapWell::new("output_well", output_well_size),
            output_buffer: Buffer::new("output_buffer", output_buffer_size),
            status_map: Registry::new(),
            printer: Printer::new(),
            rendering: None,
            total_submitted: 0,
            total_completed: 0,
        }
    }

    /// Accepts or rejects a submission. A job record is created either way
    /// and filed in the registry: accepted iff the input buffer has room, in
    /// which case the job enters the buffer in state `Waiting` and its id is
    /// returned; on a full buffer the record is filed as `SubmitFailed` and
    /// the submission fails synchronously.
    pub fn submit_job(&mut self, data: rawJob) -> (r: Result<usize, String>)
        requires
            old(self).inv(),
            data.submit_time <= MAX_TIMESTAMP,
            old(self).total_submitted < usize::MAX,
        ensures
            final(self).inv(),
            same_config(*old(self), *final(self)),
            final(self).total_submitted == old(self).total_submitted + 1,
            final(self).total_completed == old(self).total_completed,
            final(self).input_well@ == old(self).input_well@,
            final(self).output_well@ == old(self).output_well@,
            final(self).output_buffer@ == old(self).output_buffer@,
            final(self).printer == old(self).printer,
            final(self).rendering == old(self).rendering,
            ({
                let id = old(self).total_submitted;
                let accepted = old(self).input_buffer@.len()
                    < old(self).input_buffer.spec_capacity();
                &&& accepted ==> r == Ok::<usize, String>(id)
                &&& !accepted ==> (r matches Err(m) && m@ == "buffer full"@)
                &&& final(self).status_map.spec_get(id) matches Some(j) && is_submitted_job(
                    j,
                    data,
                    id,
                    accepted,
                ) && (accepted ==> final(self).input_buffer@ == old(self).input_buffer@.push(j))
                &&& !accepted ==> final(self).input_buffer@ == old(self).input_buffer@
                &&& forall|other: usize|
                    other != id ==> final(self).status_map.spec_get(other) == old(
                        self,
                    ).status_map.spec_get(other)
            }),
    {
        let job_id = self.total_submitted;
        let job = Job::new(
            job_id,
            data.priority,
            data.team_name,
            data.submit_time,
            data.file_content,
            data.color,
            data.problem_name,
        );
        self.total_submitted = self.total_submitted + 1;
        self.status_map.insert_or_replace(job.clone());
        match self.input_buffer.try_push(job) {
            Ok(_) => Ok(job_id),
            Err(mut job) => {
                job.status = JobStatus::SubmitFailed;
                self.status_map.insert_or_replace(job.clone());
                Err(String::from_str("buffer full"))
            },
        }
    }

    /// Stage 1, one turn: moves the oldest job of the input buffer into the
    /// input well. Nothing else changes.
    pub fn stage_intake(&mut self)
        requires
            old(self).inv(),
            old(self).input_buffer@.len() > 0,
            old(self).input_well@.len() < old(self).input_well.spec_capacity(),
        ensures
            final(self).inv(),
            same_config(*old(self), *final(self)),
            final(self).input_buffer@ == old(self).input_buffer@.drop_first(),
            final(self).input_well@ == old(self).input_well@.push(old(self).input_buffer@[0]),
            final(self).output_well@ == old(self).output_well@,
            final(self).output_buffer@ == old(self).output_buffer@,
            final(self).status_map@ == old(self).status_map@,
            final(self).printer == old(self).printer,
            final(self).rendering == old(self).rendering,
            final(self).total_submitted == old(self).total_submitted,
            final(self).total_completed == old(self).total_completed,
    {
        let job = self.input_buffer.pop();
        self.input_well.push_blocking(job);
    }

    /// Stage 2, one turn: takes the earliest-scheduled job out of the input
    /// well, prepends the two-line metadata header to its content, files the
    /// rewritten record in the registry and stages it in the output well.
    pub fn stage_format(&mut self)
        requires
            old(self).inv(),
            old(self).input_well@.len() > 0,
            old(self).output_well@.len() < old(self).output_well.spec_capacity(),
        ensures
            final(self).inv(),
            same_config(*old(self), *final(self)),
            final(self).input_buffer@ == old(self).input_buffer@,
            final(self).output_buffer@ == old(self).output_buffer@,
            final(self).printer == old(self).printer,
            final(self).rendering == old(self).rendering,
            final(self).total_submitted == old(self).total_submitted,
            final(self).total_completed == old(self).total_completed,
            exists|i: int|
                #[trigger] first_min_at(old(self).input_well@, i) && ({
                    let j = old(self).input_well@[i];
                    let f = final(self).output_well@.last();
                    &&& final(self).input_well@ == old(self).input_well@.remove(i)
                    &&& final(self).output_well@ == old(self).output_well@.push(f)
                    &&& is_formatted_of(f, j)
                    &&& final(self).status_map.spec_get(j.job_id) == Some(f)
                    &&& forall|other: usize|
                        other != j.job_id ==> final(self).status_map.spec_get(other) == old(
                            self,
                        ).status_map.spec_get(other)
                }),
    {
        let mut job = self.input_well.pop_blocking();
        let time_text = utc_display(job.submit_time);
        let formatted = format_content(
            job.team_name.as_str(),
            time_text.as_str(),
            job.file_content.as_str(),
        );
        job.file_content = formatted;
        self.status_map.insert_or_replace(job.clone());
        self.output_well.push_blocking(job);
    }

    /// Stage 3, one turn: moves the earliest-scheduled job of the output
    /// well into the output buffer. Nothing else changes.
    pub fn stage_dispatch(&mut self)
        requires
            old(self).inv(),
            old(self).output_well@.len() > 0,
            old(self).output_buffer@.len() < old(self).output_buffer.spec_capacity(),
        ensures
            final(self).inv(),
            same_config(*old(self), *final(self)),
            final(self).input_buffer@ == old(self).input_buffer@,
            final(self).input_well@ == old(self).input_well@,
            final(self).status_map@ == old(self).status_map@,
            final(self).printer == old(self).printer,
            final(self).rendering == old(self).rendering,
            final(self).total_submitted == old(self).total_submitted,
            final(self).total_completed == old(self).total_completed,
            exists|i: int|
                #[trigger] first_min_at(old(self).output_well@, i) && final(self).output_well@
                    == old(self).output_well@.remove(i) && final(self).output_buffer@ == old(
                    self,
                ).output_buffer@.push(old(self).output_well@[i]),
    {
        let job = self.output_well.pop_blocking();
        self.output_buffer.push(job);
    }

    /// Stage 4, one turn: takes the oldest job of the output buffer and
    /// offers it to the printer. If the device is free it flips to
    /// `Printing`, the job's record turns `Printing` with its start instant,
    /// and the job is held mid-render until [`SPOOLing::finish_render`]; if
    /// the device is busy the record is filed as `SubmitFailed`.
    pub fn stage_print(&mut self, now: Timestamp)
        requires
            old(self).inv(),
            old(self).output_buffer@.len() > 0,
        ensures
            final(self).inv(),
            same_config(*old(self), *final(self)),
            final(self).output_buffer@ == old(self).output_buffer@.drop_first(),
            final(self).input_buffer@ == old(self).input_buffer@,
            final(self).input_well@ == old(self).input_well@,
            final(self).output_well@ == old(self).output_well@,
            final(self).total_submitted == old(self).total_submitted,
            final(self).total_completed == old(self).total_completed,
            final(self).printer.spec_printed_count() == old(self).printer.spec_printed_count(),
            ({
                let j = old(self).output_buffer@[0];
                let accepted = old(self).printer.spec_status() == PrinterStatus::Free;
                &&& accepted ==> ({
                    let p = (Job {
                        status: JobStatus::Printing,
                        start_print_time: Some(now),
                        ..j
                    });
                    &&& final(self).printer.spec_status() == PrinterStatus::Printing
                    &&& final(self).rendering == Some(p)
                    &&& final(self).status_map.spec_get(j.job_id) == Some(p)
                })
                &&& !accepted ==> ({
                    let p = (Job { status: JobStatus::SubmitFailed, ..j });
                    &&& final(self).printer == old(self).printer
                    &&& final(self).rendering == old(self).rendering
                    &&& final(self).status_map.spec_get(j.job_id) == Some(p)
                })
                &&& forall|other: usize|
                    other != j.job_id ==> final(self).status_map.spec_get(other) == old(
                        self,
                    ).status_map.spec_get(other)
            }),
    {
        let job = self.output_buffer.pop();
        let offer = job.clone();
        match self.printer.submit_task(offer) {
            Ok(_) => {
                let mut p = job;
                p.start_printing(now);
                self.status_map.insert_or_replace(p.clone());
                self.rendering = Some(p);
            },
            Err(_) => {
                let mut p = job;
                p.status = JobStatus::SubmitFailed;
                self.status_map.insert_or_replace(p);
            },
        }
    }

    /// Releases the printer once the render of the mid-render job has
    /// returned. On success the job's record turns `Completed` with its end
    /// instant and the completion counter grows by one; a failed render is
    /// treated like a rejection and the record is filed as `SubmitFailed`.
    /// Either way the device goes back to `Free` and its count of finished
    /// renders grows by one.
    pub fn finish_render(&mut self, ok: bool, now: Timestamp)
        requires
            old(self).inv(),
            old(self).rendering is Some,
        ensures
            final(self).inv(),
            same_config(*old(self), *final(self)),
            final(self).rendering is None,
            final(self).printer.spec_status() == PrinterStatus::Free,
            final(self).printer.spec_printed_count() == old(self).printer.spec_printed_count() + 1,
            final(self).input_buffer@ == old(self).input_buffer@,
            final(self).input_well@ == old(self).input_well@,
            final(self).output_well@ == old(self).output_well@,
            final(self).output_buffer@ == old(self).output_buffer@,
            final(self).total_submitted == old(self).total_submitted,
            old(self).rendering matches Some(j) ==> ({
                &&& ok ==> ({
                    let c = (Job { status: JobStatus::Completed, end_print_time: Some(now), ..j });
                    &&& final(self).total_completed == old(self).total_completed + 1
                    &&& final(self).status_map.spec_get(j.job_id) == Some(c)
                })
                &&& !ok ==> ({
                    let f = (Job { status: JobStatus::SubmitFailed, ..j });
                    &&& final(self).total_completed == old(self).total_completed
                    &&& final(self).status_map.spec_get(j.job_id) == Some(f)
                })
                &&& forall|other: usize|
                    other != j.job_id ==> final(self).status_map.spec_get(other) == old(
                        self,
                    ).status_map.spec_get(other)
            }),
    {
        let job = match &self.rendering {
            Some(j) => j.clone(),
            None => unreached(),
        };
        self.rendering = None;
        self.printer.finish_render();
        if ok {
            let mut c = job;
            let transitioned = c.complete(now);
            proof {
                assert(transitioned);
            }
            if transitioned {
                self.total_completed = self.total_completed + 1;
            }
            self.status_map.insert_or_replace(c);
        } else {
            let mut f = job;
            f.status = JobStatus::SubmitFailed;
            self.status_map.insert_or_replace(f);
        }
    }

    /// The printer's state, as an instantaneous observation.
    pub fn get_status(&self) -> (r: PrinterStatus)
        ensures
            r == self.printer.spec_status(),
    {
        self.printer.get_status()
    }

    /// The ids of all registered jobs whose submission did not fail, in
    /// registry order.
    pub fn get_active_job_id(&self) -> (r: Vec<usize>)
        ensures
            r@ == active_ids_of(self.status_map@),
    {
        self.status_map.active_job_ids()
    }

    /// The process-wide counters: total submitted, total completed.
    pub fn stats(&self) -> (r: (usize, usize))
        ensures
            r.0 == self.total_submitted,
            r.1 == self.total_completed,
    {
        (self.total_submitted, self.total_completed)
    }

    /// A copy of the registered record of `id`, or `None`.
    pub fn get_job(&self, id: usize) -> (r: Option<Job>)
        requires
            self.inv(),
        ensures
            r == self.status_map.spec_get(id),
    {
        self.status_map.get(id)
    }

    /// Copies of every registered record, in registry order.
    pub fn get_all_jobs(&self) -> (r: Vec<Job>)
        ensures
            r@ == self.status_map@,
    {
        self.status_map.values_snapshot()
    }

    /// The document names of all completed jobs, in registry order.
    pub fn completed_file_names(&self) -> (r: Vec<String>)
        ensures
            r@.len() == completed_names_of(self.status_map@).len(),
            forall|k: int|
                0 <= k < r@.len() ==> (#[trigger] r@[k])@ == completed_names_of(self.status_map@)[k],
    {
        self.status_map.completed_file_names()
    }
}

/// A job that went through the format stage carries content that begins
/// with the two-line metadata header and continues with exactly the
/// original content.
pub proof fn formatted_content_shape(f: Job, j: Job)
    requires
        is_formatted_of(f, j),
    ensures
        ({
            let h = header_of(j.team_name@, utc_display_of(j.submit_time));
            &&& f.file_content@.len() == h.len() + j.file_content@.len()
            &&& f.file_content@.subrange(0, h.len() as int) == h
            &&& f.file_content@.subrange(h.len() as int, f.file_content@.len() as int)
                == j.file_content@
        }),
{
    let h = header_of(j.team_name@, utc_display_of(j.submit_time));
    assert(f.file_content@.subrange(0, h.len() as int) =~= h);
    assert(f.file_content@.subrange(h.len() as int, f.file_content@.len() as int)
        =~= j.file_content@);
}

/// At every observation, completions never outnumber submissions.
pub proof fn completed_le_submitted(s: SPOOLing)
    requires
        s.inv(),
    ensures
        s.total_completed <= s.total_submitted,
{
}

/// The printer is `Printing` exactly when one job is mid-render; the
/// mid-render job is unique because the system holds at most one.
pub proof fn printing_iff_mid_render(s: SPOOLing)
    requires
        s.inv(),
    ensures
        s.printer.spec_status() == PrinterStatus::Printing <==> s.rendering is Some,
{
}

/// Registered jobs are registered exactly once: entries under distinct
/// positions carry distinct ids.
pub proof fn registry_has_no_duplicates(s: SPOOLing, i: int, j: int)
    requires
        s.inv(),
        0 <= i < j < s.status_map@.len(),
    ensures
        s.status_map@[i].job_id != s.status_map@[j].job_id,
{
}

} // verus!
