//! Decisions of the report reader: what to do after each interrupt read.
//!
//! The caller performs the actions (read with a timeout, apply volumes,
//! pause) and hands back what happened; the reader only decides.

use vstd::prelude::*;
use crate::report::{VolumePair, volume_levels, parse_volume_report};

verus! {

/// Consecutive failed reads after which the session is given up.
pub const MAX_CONSECUTIVE_ERRORS: u32 = 5;

/// Timeout of one interrupt read, in milliseconds.
pub const READ_TIMEOUT_MS: u64 = 1000;

/// Pause after a failed read, in milliseconds.
pub const ERROR_PAUSE_MS: u64 = 100;

/// What one interrupt read produced.
#[derive(Debug)]
pub enum ReadOutcome {
    /// The read succeeded; the bytes received (possibly none).
    Data(Vec<u8>),
    /// Nothing arrived before the timeout.
    Timeout,
    /// The device is gone.
    DeviceGone,
    /// Any other transport failure.
    TransferError,
}

/// What the caller reports back to the reader.
#[derive(Debug)]
pub enum ReaderEvent {
    /// The reader is about to begin.
    Start,
    /// A read finished with this outcome.
    Read(ReadOutcome),
    /// The last `Apply` or `Pause` action has been carried out.
    Done,
}

/// Why a reader run ended.
#[derive(Clone, Copy, Debug, PartialEq, Eq, Structural)]
pub enum ReaderExit {
    /// Cancellation was observed: a graceful stop.
    Cancelled,
    /// The device was removed.
    Disconnected,
    /// Too many consecutive failed reads.
    TooManyErrors,
}

/// What the reader asks the caller to do next.
#[derive(Clone, Copy, Debug, PartialEq, Eq, Structural)]
pub enum ReaderAction {
    /// Perform one read with the read timeout.
    Read,
    /// Set the game and chat sinks to these levels, then report `Done`.
    Apply(VolumePair),
    /// Sleep this many milliseconds, then report `Done`.
    Pause(u64),
    /// Stop reading.
    Finish(ReaderExit),
}

/// State kept between reads.
pub struct Reader {
    pub consecutive_errors: u32,
}

/// Where the reader goes when it would read next: a read, unless
/// cancellation has been observed.
pub open spec fn resume(cancelled: bool) -> ReaderAction {
    if cancelled {
        ReaderAction::Finish(ReaderExit::Cancelled)
    } else {
        ReaderAction::Read
    }
}

/// The reader's transition: from the error count before, an event and the
/// cancellation flag, to the error count after and the next action.
pub open spec fn reader_step(errors: u32, event: ReaderEvent, cancelled: bool) -> (u32, ReaderAction) {
    match event {
        ReaderEvent::Start => (errors, resume(cancelled)),
        ReaderEvent::Done => (errors, resume(cancelled)),
        ReaderEvent::Read(ReadOutcome::Data(bytes)) => match volume_levels(bytes@) {
            Some(pair) => (0, ReaderAction::Apply(pair)),
            None => (0, resume(cancelled)),
        },
        ReaderEvent::Read(ReadOutcome::Timeout) => (0, resume(cancelled)),
        ReaderEvent::Read(ReadOutcome::DeviceGone) => (errors, ReaderAction::Finish(ReaderExit::Disconnected)),
        ReaderEvent::Read(ReadOutcome::TransferError) => {
            if errors + 1 >= MAX_CONSECUTIVE_ERRORS {
                (MAX_CONSECUTIVE_ERRORS, ReaderAction::Finish(ReaderExit::TooManyErrors))
            } else {
                ((errors + 1) as u32, ReaderAction::Pause(ERROR_PAUSE_MS))
            }
        },
    }
}

/// Every volume report read is applied as it came: the game sink gets
/// byte 1 and the chat sink byte 2, unmodified.
pub proof fn volume_reports_applied_unmodified(errors: u32, bytes: Vec<u8>, cancelled: bool)
    requires
        bytes@.len() >= 3,
        bytes@[0] == crate::report::VOLUME_REPORT_TAG,
    ensures
        reader_step(errors, ReaderEvent::Read(ReadOutcome::Data(bytes)), cancelled).1
            == ReaderAction::Apply(VolumePair { game: bytes@[1], chat: bytes@[2] }),
{
}

/// Any successful read, of any length or shape, clears the count of
/// consecutive failures.
pub proof fn successful_read_clears_errors(errors: u32, bytes: Vec<u8>, cancelled: bool)
    ensures
        reader_step(errors, ReaderEvent::Read(ReadOutcome::Data(bytes)), cancelled).0 == 0,
{
}

/// Starting from no failures, five failed reads in a row end the run with
/// `TooManyErrors`; each of the first four only pauses.
pub proof fn five_failures_end_the_run(c1: bool, c2: bool, c3: bool, c4: bool, c5: bool)
    ensures
        ({
            let e = ReaderEvent::Read(ReadOutcome::TransferError);
            let s1 = reader_step(0, e, c1);
            let s2 = reader_step(s1.0, e, c2);
            let s3 = reader_step(s2.0, e, c3);
            let s4 = reader_step(s3.0, e, c4);
            let s5 = reader_step(s4.0, e, c5);
            &&& s1.1 == ReaderAction::Pause(ERROR_PAUSE_MS)
            &&& s2.1 == ReaderAction::Pause(ERROR_PAUSE_MS)
            &&& s3.1 == ReaderAction::Pause(ERROR_PAUSE_MS)
            &&& s4.1 == ReaderAction::Pause(ERROR_PAUSE_MS)
            &&& s5.1 == ReaderAction::Finish(ReaderExit::TooManyErrors)
        }),
{
}

/// A failed read that follows a successful one only pauses: the run goes
/// on whatever failures came before the success.
pub proof fn failure_after_success_continues(errors: u32, bytes: Vec<u8>, c1: bool, c2: bool)
    ensures
        ({
            let s1 = reader_step(errors, ReaderEvent::Read(ReadOutcome::Data(bytes)), c1);
            let s2 = reader_step(s1.0, ReaderEvent::Read(ReadOutcome::TransferError), c2);
            &&& s2.0 == 1
            &&& s2.1 == ReaderAction::Pause(ERROR_PAUSE_MS)
        }),
{
}

/// A read that times out while cancellation is requested ends the run
/// gracefully, so the reader stops within one read timeout.
pub proof fn timeout_under_cancellation_finishes(errors: u32)
    ensures
        reader_step(errors, ReaderEvent::Read(ReadOutcome::Timeout), true) == (
            0u32,
            ReaderAction::Finish(ReaderExit::Cancelled),
        ),
{
}

impl Reader {
    /// The error count never passes the ceiling.
    pub open spec fn wf(&self) -> bool {
        self.consecutive_errors <= MAX_CONSECUTIVE_ERRORS
    }

    /// A reader with no failures counted.
    pub fn new() -> (r: Reader)
        ensures
            r.wf(),
            r.consecutive_errors == 0,
    {
        Reader { consecutive_errors: 0 }
    }

    /// Decides the next action after `event`, given whether cancellation has
    /// been requested.
    pub fn step(&mut self, event: &ReaderEvent, cancelled: bool) -> (r: ReaderAction)
        requires
            old(self).wf(),
        ensures
            final(self).wf(),
            (final(self).consecutive_errors, r) == reader_step(old(self).consecutive_errors, *event, cancelled),
    {
        let next = if cancelled {
            ReaderAction::Finish(ReaderExit::Cancelled)
        } else {
            ReaderAction::Read
        };
        match event {
            ReaderEvent::Start => next,
            ReaderEvent::Done => next,
            ReaderEvent::Read(ReadOutcome::Data(bytes)) => {
                self.consecutive_errors = 0;
                match parse_volume_report(bytes.as_slice()) {
                    Some(pair) => ReaderAction::Apply(pair),
                    None => next,
                }
            },
            ReaderEvent::Read(ReadOutcome::Timeout) => {
                self.consecutive_errors = 0;
                next
            },
            ReaderEvent::Read(ReadOutcome::DeviceGone) => ReaderAction::Finish(ReaderExit::Disconnected),
            ReaderEvent::Read(ReadOutcome::TransferError) => {
                if self.consecutive_errors + 1 >= MAX_CONSECUTIVE_ERRORS {
                    self.consecutive_errors = MAX_CONSECUTIVE_ERRORS;
                    ReaderAction::Finish(ReaderExit::TooManyErrors)
                } else {
                    self.consecutive_errors = self.consecutive_errors + 1;
                    ReaderAction::Pause(ERROR_PAUSE_MS)
                }
            },
        }
    }
}

} // verus!
