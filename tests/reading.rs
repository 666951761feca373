use chatmix::reader::{
    ReadOutcome, Reader, ReaderAction, ReaderEvent, ReaderExit, ERROR_PAUSE_MS,
};
use chatmix::report::{parse_volume_report, VolumePair};

fn read(reader: &mut Reader, outcome: ReadOutcome, cancelled: bool) -> ReaderAction {
    reader.step(&ReaderEvent::Read(outcome), cancelled)
}

#[test]
fn volume_report_forwards_bytes_unmodified() {
    let mut buf = vec![0u8; 64];
    buf[0] = 0x45;
    buf[1] = 73;
    buf[2] = 12;
    assert_eq!(parse_volume_report(&buf), Some(VolumePair { game: 73, chat: 12 }));
    assert_eq!(parse_volume_report(&[0x45, 200, 255]), Some(VolumePair { game: 200, chat: 255 }));
}

#[test]
fn other_report_shapes_are_ignored() {
    assert_eq!(parse_volume_report(&[]), None);
    assert_eq!(parse_volume_report(&[0x45, 10]), None);
    assert_eq!(parse_volume_report(&[0x44, 10, 20]), None);
}

#[test]
fn reader_starts_with_a_read() {
    let mut r = Reader::new();
    assert_eq!(r.step(&ReaderEvent::Start, false), ReaderAction::Read);
    assert_eq!(r.step(&ReaderEvent::Start, true), ReaderAction::Finish(ReaderExit::Cancelled));
}

#[test]
fn reader_applies_volume_reports() {
    let mut r = Reader::new();
    let a = read(&mut r, ReadOutcome::Data(vec![0x45, 55, 66, 0, 0]), false);
    assert_eq!(a, ReaderAction::Apply(VolumePair { game: 55, chat: 66 }));
    assert_eq!(r.step(&ReaderEvent::Done, false), ReaderAction::Read);
    assert_eq!(r.step(&ReaderEvent::Done, true), ReaderAction::Finish(ReaderExit::Cancelled));
}

#[test]
fn five_transfer_errors_end_the_run() {
    let mut r = Reader::new();
    for k in 1..5u32 {
        assert_eq!(read(&mut r, ReadOutcome::TransferError, false), ReaderAction::Pause(ERROR_PAUSE_MS));
        assert_eq!(r.consecutive_errors, k);
    }
    assert_eq!(
        read(&mut r, ReadOutcome::TransferError, false),
        ReaderAction::Finish(ReaderExit::TooManyErrors)
    );
}

#[test]
fn sixth_error_after_a_success_does_not_end_the_run() {
    let mut r = Reader::new();
    for _ in 0..4 {
        assert_eq!(read(&mut r, ReadOutcome::TransferError, false), ReaderAction::Pause(ERROR_PAUSE_MS));
    }
    assert_eq!(read(&mut r, ReadOutcome::Data(vec![1, 2, 3]), false), ReaderAction::Read);
    assert_eq!(r.consecutive_errors, 0);
    assert_eq!(read(&mut r, ReadOutcome::TransferError, false), ReaderAction::Pause(ERROR_PAUSE_MS));
    assert_eq!(r.consecutive_errors, 1);
}

#[test]
fn any_successful_read_resets_the_error_count() {
    let mut r = Reader::new();
    read(&mut r, ReadOutcome::TransferError, false);
    read(&mut r, ReadOutcome::TransferError, false);
    assert_eq!(read(&mut r, ReadOutcome::Data(Vec::new()), false), ReaderAction::Read);
    assert_eq!(r.consecutive_errors, 0);
    read(&mut r, ReadOutcome::TransferError, false);
    assert_eq!(read(&mut r, ReadOutcome::Data(vec![0x00, 1]), false), ReaderAction::Read);
    assert_eq!(r.consecutive_errors, 0);
    read(&mut r, ReadOutcome::TransferError, false);
    assert_eq!(read(&mut r, ReadOutcome::Timeout, false), ReaderAction::Read);
    assert_eq!(r.consecutive_errors, 0);
}

#[test]
fn device_removal_ends_the_run_at_once() {
    let mut r = Reader::new();
    assert_eq!(read(&mut r, ReadOutcome::DeviceGone, false), ReaderAction::Finish(ReaderExit::Disconnected));
}

#[test]
fn cancellation_during_timeout_finishes_gracefully() {
    let mut r = Reader::new();
    assert_eq!(read(&mut r, ReadOutcome::Timeout, false), ReaderAction::Read);
    assert_eq!(read(&mut r, ReadOutcome::Timeout, true), ReaderAction::Finish(ReaderExit::Cancelled));
}
