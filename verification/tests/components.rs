use spooler::buffer::Buffer;
use spooler::job::{Job, JobStatus};
use spooler::printer::{Printer, PrinterStatus};
use spooler::registry::Registry;
use spooler::textfmt::{fmt_usize, format_content, number_lines};
use spooler::well::HeapWell;

fn job(id: usize, priority: u32, team: &str, t: u64) -> Job {
    Job::new(
        id,
        priority,
        team.to_string(),
        t,
        "content".to_string(),
        false,
        "problem".to_string(),
    )
}

#[test]
fn buffer_keeps_fifo_order() {
    let mut b: Buffer<u32> = Buffer::new("b", 3);
    assert!(b.try_push(1).is_ok());
    assert!(b.try_push(2).is_ok());
    b.push(3);
    assert_eq!(b.size(), 3);
    assert_eq!(b.pop(), 1);
    assert_eq!(b.try_pop(), Some(2));
    assert_eq!(b.pop(), 3);
    assert_eq!(b.try_pop(), None);
}

#[test]
fn buffer_rejects_beyond_capacity() {
    let mut b: Buffer<u32> = Buffer::new("b", 1);
    assert_eq!(b.capacity(), 1);
    assert!(b.try_push(7).is_ok());
    assert_eq!(b.try_push(8), Err(8));
    assert_eq!(b.size(), 1);
}

#[test]
fn well_yields_minimum_priority_first() {
    let mut w = HeapWell::new("w", 10);
    assert!(w.push(job(0, 9, "L", 100)).is_ok());
    assert!(w.push(job(1, 1, "H", 101)).is_ok());
    assert!(w.push(job(2, 5, "M", 102)).is_ok());
    assert_eq!(w.len(), 3);
    let peeked = w.peek().unwrap();
    assert_eq!(peeked.priority, 1);
    assert_eq!(w.pop_blocking().priority, 1);
    assert_eq!(w.pop_blocking().priority, 5);
    assert_eq!(w.pop_blocking().priority, 9);
    assert!(w.is_empty());
}

#[test]
fn well_ties_break_by_submit_time() {
    let mut w = HeapWell::new("w", 10);
    assert!(w.push(job(0, 3, "late", 2000)).is_ok());
    assert!(w.push(job(1, 3, "early", 1000)).is_ok());
    let first = w.pop_blocking();
    assert_eq!(first.team_name, "early");
    let second = w.pop_blocking();
    assert_eq!(second.team_name, "late");
}

#[test]
fn well_rejects_beyond_capacity() {
    let mut w = HeapWell::new("w", 1);
    assert!(w.push(job(0, 1, "a", 1)).is_ok());
    let rejected = w.push(job(1, 2, "b", 2));
    assert!(rejected.is_err());
    assert_eq!(rejected.unwrap_err().job_id, 1);
    assert_eq!(w.len(), 1);
}

#[test]
fn printer_accepts_only_when_free() {
    let mut p = Printer::new();
    assert_eq!(p.get_status(), PrinterStatus::Free);
    let accepted = p.submit_task(job(4, 1, "a", 1));
    assert_eq!(accepted.unwrap(), 4);
    assert_eq!(p.get_status(), PrinterStatus::Printing);
    let rejected = p.submit_task(job(5, 1, "b", 2));
    assert!(rejected.is_err());
    assert_eq!(rejected.unwrap_err().job_id, 5);
    p.finish_render();
    assert_eq!(p.get_status(), PrinterStatus::Free);
}

#[test]
fn job_file_name_is_team_stamp_id() {
    let j = job(0, 5, "A", 1431648000);
    assert_eq!(j.file_name, "A_20150515_000000_0");
    assert_eq!(j.status, JobStatus::Waiting);
    assert_eq!(j.start_print_time, None);
    assert_eq!(j.end_print_time, None);
    let epoch = job(12, 5, "team", 0);
    assert_eq!(epoch.file_name, "team_19700101_000000_12");
}

#[test]
fn job_complete_is_idempotent() {
    let mut j = job(0, 5, "A", 10);
    let mut p = j.clone();
    p.start_printing(20);
    assert_eq!(p.status, JobStatus::Printing);
    assert_eq!(p.start_print_time, Some(20));
    assert!(p.complete(30));
    assert_eq!(p.status, JobStatus::Completed);
    assert_eq!(p.end_print_time, Some(30));
    assert!(!p.complete(40));
    assert_eq!(p.end_print_time, Some(30));
    assert!(j.complete(50));
    assert_eq!(j.end_print_time, Some(50));
}

#[test]
fn registry_overwrites_by_id() {
    let mut r = Registry::new();
    r.insert_or_replace(job(0, 5, "A", 10));
    r.insert_or_replace(job(1, 5, "B", 11));
    let mut updated = job(0, 5, "A", 10);
    updated.status = JobStatus::Completed;
    r.insert_or_replace(updated);
    let all = r.values_snapshot();
    assert_eq!(all.len(), 2);
    assert_eq!(r.get(0).unwrap().status, JobStatus::Completed);
    assert_eq!(r.get(1).unwrap().status, JobStatus::Waiting);
    assert!(r.get(2).is_none());
}

#[test]
fn registry_active_ids_skip_failures() {
    let mut r = Registry::new();
    r.insert_or_replace(job(0, 5, "A", 10));
    let mut failed = job(1, 5, "B", 11);
    failed.status = JobStatus::SubmitFailed;
    r.insert_or_replace(failed);
    r.insert_or_replace(job(2, 5, "C", 12));
    assert_eq!(r.active_job_ids(), vec![0, 2]);
}

#[test]
fn registry_completed_names_carry_pdf_suffix() {
    let mut r = Registry::new();
    let mut done = job(0, 5, "A", 0);
    done.status = JobStatus::Completed;
    r.insert_or_replace(done);
    r.insert_or_replace(job(1, 5, "B", 0));
    let names = r.completed_file_names();
    assert_eq!(names, vec!["A_19700101_000000_0.pdf"]);
}

#[test]
fn fmt_usize_renders_decimal() {
    assert_eq!(fmt_usize(0), "0");
    assert_eq!(fmt_usize(7), "7");
    assert_eq!(fmt_usize(10), "10");
    assert_eq!(fmt_usize(90210), "90210");
}

#[test]
fn file_name_stamp_matches_known_instants() {
    assert_eq!(job(1, 5, "t", 1431648000).file_name, "t_20150515_000000_1");
    assert_eq!(job(2, 5, "t", 947638923).file_name, "t_20000112_010203_2");
}

#[test]
fn format_content_prepends_header() {
    let formatted = format_content("A", "1970-01-01 00:00:10 UTC", "x\ny");
    assert_eq!(
        formatted,
        "\\\\ team_name: A\n\\\\ submit_time: 1970-01-01 00:00:10 UTC\n\nx\ny"
    );
}

#[test]
fn number_lines_prefixes_each_line() {
    assert_eq!(number_lines("x\ny"), "  1: x\n  2: y\n");
    assert_eq!(number_lines("x\ny\n"), "  1: x\n  2: y\n");
    assert_eq!(number_lines(""), "");
    assert_eq!(number_lines("\n"), "  1: \n");
}

#[test]
fn number_lines_drops_carriage_return_before_newline() {
    assert_eq!(number_lines("a\r\nb"), "  1: a\n  2: b\n");
}

#[test]
fn number_lines_aligns_to_three_columns() {
    let content = vec!["z"; 105].join("\n");
    let numbered = number_lines(&content);
    let lines: Vec<&str> = numbered.lines().collect();
    assert_eq!(lines.len(), 105);
    assert_eq!(lines[0], "  1: z");
    assert_eq!(lines[9], " 10: z");
    assert_eq!(lines[99], "100: z");
    assert_eq!(lines[104], "105: z");
}
