use std::io::{Cursor, Write};

use spooler::job::JobStatus;
use spooler::nospooling::NoSPOOLing;
use spooler::printer::{Printer, PrinterStatus};
use spooler::spooling::{rawJob, SPOOLing};

fn raw(priority: u32, team: &str, content: &str, t: u64) -> rawJob {
    rawJob {
        priority,
        team_name: team.to_string(),
        submit_time: t,
        file_content: content.to_string(),
        color: false,
        problem_name: "P".to_string(),
    }
}

/// Drives one job all the way from the input buffer to the printer.
fn run_stages_once(s: &mut SPOOLing, now: u64) {
    s.stage_intake();
    s.stage_format();
    s.stage_dispatch();
    s.stage_print(now);
}

#[test]
fn single_job_spool_mode() {
    let mut s = SPOOLing::new(10, 10, 10, 10);
    let r = s.submit_job(raw(5, "A", "x\ny", 10));
    assert_eq!(r.unwrap(), 0);
    let waiting = s.get_job(0).unwrap();
    assert_eq!(waiting.status, JobStatus::Waiting);
    run_stages_once(&mut s, 20);
    assert_eq!(s.get_status(), PrinterStatus::Printing);
    let printing = s.get_job(0).unwrap();
    assert_eq!(printing.status, JobStatus::Printing);
    assert_eq!(printing.start_print_time, Some(20));
    s.finish_render(true, 25);
    assert_eq!(s.get_status(), PrinterStatus::Free);
    let done = s.get_job(0).unwrap();
    assert_eq!(done.status, JobStatus::Completed);
    assert_eq!(done.end_print_time, Some(25));
    assert_eq!(done.file_name, "A_19700101_000010_0");
    assert_eq!(s.stats(), (1, 1));
}

#[test]
fn formatted_content_carries_header_then_original() {
    let mut s = SPOOLing::new(10, 10, 10, 10);
    s.submit_job(raw(5, "A", "x\ny", 10)).unwrap();
    s.stage_intake();
    s.stage_format();
    let j = s.get_job(0).unwrap();
    assert_eq!(
        j.file_content,
        "\\\\ team_name: A\n\\\\ submit_time: 1970-01-01 00:00:10 UTC\n\nx\ny"
    );
}

#[test]
fn priority_inversion_resolved_by_wells() {
    let mut s = SPOOLing::new(10, 10, 10, 10);
    assert_eq!(s.submit_job(raw(9, "L", "l", 100)).unwrap(), 0);
    assert_eq!(s.submit_job(raw(1, "H", "h", 101)).unwrap(), 1);
    // stage 4 is paused: both jobs reach the output buffer first
    s.stage_intake();
    s.stage_intake();
    s.stage_format();
    s.stage_format();
    s.stage_dispatch();
    s.stage_dispatch();
    // stage 4 resumes: the high-priority job enters printing first
    s.stage_print(200);
    let high = s.get_job(1).unwrap();
    assert_eq!(high.status, JobStatus::Printing);
    let low = s.get_job(0).unwrap();
    assert_eq!(low.status, JobStatus::Waiting);
}

#[test]
fn overload_rejection_with_unit_capacities() {
    let mut s = SPOOLing::new(1, 1, 1, 1);
    // the first job saturates the printer
    assert_eq!(s.submit_job(raw(1, "A", "a", 10)).unwrap(), 0);
    run_stages_once(&mut s, 11);
    assert_eq!(s.get_status(), PrinterStatus::Printing);
    // rendering takes a while; meanwhile submissions pile up
    let mut rejected = 0;
    for k in 0..10u64 {
        if s.submit_job(raw(1, "B", "b", 20 + k)).is_err() {
            rejected += 1;
        }
    }
    // the input buffer holds one job, every further submission fails fast
    assert_eq!(rejected, 9);
    let failed = s.get_job(3).unwrap();
    assert_eq!(failed.status, JobStatus::SubmitFailed);
    let (submitted, completed) = s.stats();
    assert_eq!(submitted, 11);
    assert_eq!(completed, 0);
}

#[test]
fn submit_failure_still_recorded_in_registry() {
    let mut s = SPOOLing::new(1, 10, 10, 10);
    assert!(s.submit_job(raw(5, "A", "a", 10)).is_ok());
    let r = s.submit_job(raw(5, "B", "b", 11));
    assert_eq!(r.unwrap_err(), "buffer full");
    let failed = s.get_job(1).unwrap();
    assert_eq!(failed.status, JobStatus::SubmitFailed);
    // the failed job is registered but not active
    assert_eq!(s.get_active_job_id(), vec![0]);
    assert_eq!(s.get_all_jobs().len(), 2);
    assert_eq!(s.stats(), (2, 0));
}

#[test]
fn equal_priorities_complete_in_submit_order() {
    let mut s = SPOOLing::new(10, 10, 10, 10);
    assert_eq!(s.submit_job(raw(3, "first", "a", 1000)).unwrap(), 0);
    assert_eq!(s.submit_job(raw(3, "second", "b", 1500)).unwrap(), 1);
    s.stage_intake();
    s.stage_intake();
    s.stage_format();
    s.stage_format();
    s.stage_dispatch();
    s.stage_print(2000);
    assert_eq!(s.get_job(0).unwrap().status, JobStatus::Printing);
    s.finish_render(true, 2001);
    assert_eq!(s.get_job(0).unwrap().status, JobStatus::Completed);
    assert_eq!(s.get_job(1).unwrap().status, JobStatus::Waiting);
    s.stage_dispatch();
    s.stage_print(2002);
    s.finish_render(true, 2003);
    assert_eq!(s.get_job(1).unwrap().status, JobStatus::Completed);
    let first = s.get_job(0).unwrap();
    let second = s.get_job(1).unwrap();
    assert!(first.end_print_time.unwrap() < second.end_print_time.unwrap());
}

#[test]
fn render_failure_marks_submit_failed() {
    let mut s = SPOOLing::new(10, 10, 10, 10);
    s.submit_job(raw(5, "A", "a", 10)).unwrap();
    run_stages_once(&mut s, 20);
    s.finish_render(false, 21);
    assert_eq!(s.get_status(), PrinterStatus::Free);
    let j = s.get_job(0).unwrap();
    assert_eq!(j.status, JobStatus::SubmitFailed);
    assert_eq!(s.stats(), (1, 0));
}

#[test]
fn completed_counter_never_exceeds_submitted() {
    let mut s = SPOOLing::new(2, 2, 2, 2);
    for k in 0..5u64 {
        let _ = s.submit_job(raw(1, "T", "t", k));
        let (submitted, completed) = s.stats();
        assert!(completed <= submitted);
    }
    run_stages_once(&mut s, 50);
    s.finish_render(true, 51);
    let (submitted, completed) = s.stats();
    assert!(completed <= submitted);
    assert_eq!(completed, 1);
}

#[test]
fn bulk_download_lists_three_completed_documents() {
    let mut s = SPOOLing::new(10, 10, 10, 10);
    for k in 0..3u64 {
        assert!(s.submit_job(raw(1, "T", "t", 100 + k)).is_ok());
    }
    for k in 0..3u64 {
        run_stages_once(&mut s, 200 + k);
        s.finish_render(true, 210 + k);
    }
    let names = s.completed_file_names();
    assert_eq!(
        names,
        vec![
            "T_19700101_000140_0.pdf",
            "T_19700101_000141_1.pdf",
            "T_19700101_000142_2.pdf"
        ]
    );
}

#[test]
fn bulk_download_zip_has_three_entries() {
    let mut s = SPOOLing::new(10, 10, 10, 10);
    for k in 0..3u64 {
        assert!(s.submit_job(raw(1, "T", "t", 100 + k)).is_ok());
    }
    for k in 0..3u64 {
        run_stages_once(&mut s, 200 + k);
        s.finish_render(true, 210 + k);
    }
    // pack one archive entry per completed document, as the download
    // endpoint does
    let names = s.completed_file_names();
    let mut cursor = Cursor::new(Vec::new());
    {
        let mut zip = zip::ZipWriter::new(&mut cursor);
        let options = zip::write::FileOptions::default()
            .compression_method(zip::CompressionMethod::Deflated);
        for name in &names {
            zip.start_file(name.as_str(), options).unwrap();
            zip.write_all(b"rendered document bytes").unwrap();
        }
        zip.finish().unwrap();
    }
    let data = cursor.into_inner();
    let mut archive = zip::ZipArchive::new(Cursor::new(data)).unwrap();
    assert_eq!(archive.len(), 3);
    for (k, expected) in names.iter().enumerate() {
        assert_eq!(archive.by_index(k).unwrap().name(), expected);
    }
    assert!(names
        .iter()
        .all(|n| n.starts_with("T_19700101_0001") && n.ends_with(".pdf")));
}

#[test]
fn nospool_accepts_then_rejects_while_busy() {
    let mut s = NoSPOOLing::new(Printer::new());
    let r1 = s.submit_job(raw(1, "A", "a", 10));
    assert_eq!(r1.unwrap(), 0);
    assert_eq!(s.get_status(), PrinterStatus::Printing);
    assert_eq!(s.get_job(0).unwrap().status, JobStatus::Completed);
    // a second submission before the first render finishes is turned away
    let r2 = s.submit_job(raw(1, "B", "b", 11));
    assert_eq!(r2.unwrap_err(), "busy");
    assert_eq!(s.get_job(1).unwrap().status, JobStatus::SubmitFailed);
    assert_eq!(s.stats(), (2, 1));
    assert_eq!(s.get_active_job_id(), vec![0]);
    s.finish_render();
    assert_eq!(s.get_status(), PrinterStatus::Free);
    // the device is free again, the next submission goes through
    let r3 = s.submit_job(raw(1, "C", "c", 12));
    assert_eq!(r3.unwrap(), 2);
}
