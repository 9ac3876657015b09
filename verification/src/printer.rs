//! The printer device: an exclusive renderer with an atomic Free/Printing
//! flip and a monotonic count of finished renders.
//!
//! The device is the decision core of the compare-and-set protocol: the
//! Free-to-Printing transition happens synchronously with the
//! accept-or-reject answer, while the rendering itself (a blocking outside
//! job) is performed elsewhere and reported back through
//! [`Printer::finish_render`].

use vstd::prelude::*;

verus! {

use crate::job::Job;

/// The device is either idle or holds exactly one job mid-render.
#[derive(Clone, Copy, Debug, PartialEq, Eq, Structural)]
pub enum PrinterStatus {
    Free,
    Printing,
}

/// The single physical printer.
pub struct Printer {
    status: PrinterStatus,
    printed_count: usize,
}

impl Printer {
    /// The device state.
    pub closed spec fn spec_status(self) -> PrinterStatus {
        self.status
    }

    /// How many renders have finished so far.
    pub closed spec fn spec_printed_count(self) -> usize {
        self.printed_count
    }

    /// A new device: idle, nothing printed yet.
    pub fn new() -> (r: Printer)
        ensures
            r.spec_status() == PrinterStatus::Free,
            r.spec_printed_count() == 0,
    {
        Printer { status: PrinterStatus::Free, printed_count: 0 }
    }

    /// The device state, as an instantaneous observation.
    pub fn get_status(&self) -> (r: PrinterStatus)
        ensures
            r == self.spec_status(),
    {
        self.status
    }

    /// Forces the device state.
    pub fn set_status(&mut self, new_status: PrinterStatus)
        ensures
            final(self).spec_status() == new_status,
            final(self).spec_printed_count() == old(self).spec_printed_count(),
    {
        self.status = new_status;
    }

    /// Offers a job to the device: accepted, with the Free-to-Printing flip,
    /// iff the device was idle; otherwise the job comes back unmodified. The
    /// render itself happens outside; nothing else of the device changes.
    pub fn submit_task(&mut self, job: Job) -> (r: Result<usize, Job>)
        ensures
            final(self).spec_printed_count() == old(self).spec_printed_count(),
            old(self).spec_status() == PrinterStatus::Free ==> r == Ok::<usize, Job>(job.job_id)
                && final(self).spec_status() == PrinterStatus::Printing,
            old(self).spec_status() == PrinterStatus::Printing ==> r == Err::<usize, Job>(job)
                && *final(self) == *old(self),
    {
        match self.status {
            PrinterStatus::Free => {
                self.status = PrinterStatus::Printing;
                Ok(job.job_id)
            },
            PrinterStatus::Printing => Err(job),
        }
    }

    /// Releases the device after a render has returned (successfully or
    /// not): the state goes back to Free and the count of finished renders
    /// grows by one.
    pub fn finish_render(&mut self)
        requires
            old(self).spec_status() == PrinterStatus::Printing,
            old(self).spec_printed_count() < usize::MAX,
        ensures
            final(self).spec_status() == PrinterStatus::Free,
            final(self).spec_printed_count() == old(self).spec_printed_count() + 1,
    {
        self.status = PrinterStatus::Free;
        self.printed_count = self.printed_count + 1;
    }
}

} // verus!
