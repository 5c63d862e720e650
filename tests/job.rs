use sapodilla::catalog::{devices, ModeType};
use sapodilla::job::{build_print_job, content_hash, current_timestamp_millis, JobRequest};
use sapodilla::states::{JobState, JobSubState, PrinterState, PrinterSubState};

#[test]
fn content_hash_is_sha1_hex() {
    assert_eq!(content_hash(b"abc"), "a9993e364706816aba3e25717850c26c9cd0d89d");
    assert_eq!(content_hash(b""), "da39a3ee5e6b4b0d3255bfef95601890afd80709");
}

#[test]
fn print_job_for_print_mode() {
    let catalog = devices();
    let mode = &catalog[0].modes[0];
    let canvas = &mode.canvas_sizes[0];
    let job = build_print_job(mode.mode_type, canvas, b"abc", b"IN", 1_700_000_123_456, 2);
    assert_eq!(job.payload, b"abc".to_vec());
    match job.request {
        JobRequest::Print(p) => {
            assert_eq!(p.media_size, 5012);
            assert_eq!(p.media_type, 2010);
            assert_eq!(p.job_type, 0);
            assert_eq!(p.channel, 30784);
            assert_eq!(p.link_type, 1000);
            assert_eq!(p.file_size, 3);
            assert_eq!(p.document_format, 9);
            assert_eq!(p.document_name, "1700000123456.jpeg");
            assert_eq!(p.hash_method, 1);
            assert_eq!(p.hash_value, "a9993e364706816aba3e25717850c26c9cd0d89d");
            assert_eq!(p.user_account, "000000.00000000000000000000000000000000.0000");
            assert_eq!(p.job_send_time, 1_700_000_123);
            assert_eq!(p.copies, 2);
        }
        JobRequest::Combo(..) => panic!("print mode has no cut job"),
    }
}

#[test]
fn combo_job_for_print_and_cut_mode() {
    let catalog = devices();
    let mode = &catalog[0].modes[1];
    let canvas = &mode.canvas_sizes[0];
    let job = build_print_job(mode.mode_type, canvas, b"abc", b"IN U1,2", 5_000, 1);
    assert_eq!(job.payload, b"IN U1,2abc".to_vec());
    match job.request {
        JobRequest::Combo(p, c) => {
            assert_eq!(p.media_size, 5013);
            assert_eq!(p.channel, 30960);
            assert_eq!(p.job_type, 600);
            assert_eq!(p.link_type, 0);
            assert_eq!(p.document_name, "5000.jpeg");
            assert_eq!(c.document_name, "5000.plt");
            assert_eq!(c.file_size, 7);
            assert_eq!(c.document_format, 18);
            assert_eq!(c.media_type, 2030);
            assert_eq!(c.job_send_time, 5);
        }
        JobRequest::Print(_) => panic!("print-and-cut mode needs a combo job"),
    }
}

#[test]
fn catalog_codes() {
    let catalog = devices();
    assert_eq!(catalog.len(), 1);
    assert_eq!(catalog[0].name, "PixCut S1");
    assert_eq!(catalog[0].modes[1].canvas_sizes[0].safe_width_px, 1086);
    assert_eq!(ModeType::Print.name(), "Print");
    assert_eq!(ModeType::PrintAndCut.name(), "Print and Cut");
    assert!(ModeType::PrintAndCut.has_cutting());
    assert!(!ModeType::Print.has_cutting());
}

#[test]
fn state_codes_round_trip() {
    assert_eq!(JobState::from_primitive(9), Some(JobState::Completed));
    assert_eq!(JobState::from_primitive(10), None);
    assert_eq!(JobState::Aborted.to_primitive(), 7);
    assert!(JobState::Cancelled.is_terminal());
    assert!(!JobState::Processing.is_terminal());
    assert_eq!(JobSubState::from_primitive(3005), Some(JobSubState::ProcessingPrinting));
    assert_eq!(PrinterState::from_primitive(60), Some(PrinterState::Error));
    assert_eq!(PrinterSubState::from_primitive(4002), Some(PrinterSubState::Normal));
    assert_eq!(PrinterSubState::from_primitive(3003), None);
}

#[test]
fn timestamp_is_after_2020() {
    assert!(current_timestamp_millis() > 1_577_836_800_000);
}
