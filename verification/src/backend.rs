//! The line-oriented stand-in for the device: an outside process that takes
//! the text to draw on its input, one line for each message, and gives the
//! names of events on its output, one on each line.

use crate::event::{parse_event, WrappedEvent};
use crate::event_bus::{BusModel, EventBus};
use vstd::prelude::*;
use vstd::string::{StrSliceExecFns, StringSliceAdditionalSpecFns};

verus! {

/// The byte that ends a line.
pub const NEWLINE: u8 = 10;

/// The bytes written to the process for a message: the message, then the
/// end of the line.
pub fn frame_message(message: &str) -> (bytes: Vec<u8>)
    ensures
        bytes@ == message.spec_bytes().push(NEWLINE),
{
    let mut bytes = message.as_bytes_vec();
    bytes.push(NEWLINE);
    bytes
}

/// What reading the next line of the process gave.
#[derive(Debug, Clone, Copy, PartialEq, Eq)]
pub enum ReadOutcome<'a> {
    /// A line, without its end.
    Line(&'a str),
    /// The output of the process has ended.
    End,
    /// Reading failed.
    Failed,
}

/// Why the reader stopped.
#[derive(Debug, Clone, Copy, PartialEq, Eq, Structural)]
pub enum ReaderStop {
    /// The process has exited.
    Exited,
    /// The event bus is closed.
    BusClosed,
}

/// What the reader did with what it read.
#[derive(Debug, Clone, Copy, PartialEq, Eq, Structural)]
pub enum ReaderStep {
    /// The line named an event, which was published; the reader goes on.
    Published(WrappedEvent),
    /// The line named no event; this is logged, and the reader goes on.
    Skipped,
    /// Reading failed; this is logged, and the reader tries again.
    Retried,
    /// The reader stops for good.
    Stopped(ReaderStop),
}

/// The mathematical value of a [`ReadOutcome`].
pub enum ReadModel {
    Line(Seq<char>),
    End,
    Failed,
}

impl<'a> View for ReadOutcome<'a> {
    type V = ReadModel;

    open spec fn view(&self) -> ReadModel {
        match *self {
            ReadOutcome::Line(line) => ReadModel::Line(line@),
            ReadOutcome::End => ReadModel::End,
            ReadOutcome::Failed => ReadModel::Failed,
        }
    }
}

/// What the reader does with what it read, given the bus.
pub open spec fn reader_step(bus: BusModel, read: ReadModel) -> ReaderStep {
    match read {
        ReadModel::Line(line) => match parse_event(line) {
            Some(event) => if bus.closed {
                ReaderStep::Stopped(ReaderStop::BusClosed)
            } else {
                ReaderStep::Published(event)
            },
            None => ReaderStep::Skipped,
        },
        ReadModel::End => ReaderStep::Stopped(ReaderStop::Exited),
        ReadModel::Failed => ReaderStep::Retried,
    }
}

/// The bus after the reader dealt with what it read.
pub open spec fn bus_after_read(bus: BusModel, read: ReadModel) -> BusModel {
    match reader_step(bus, read) {
        ReaderStep::Published(event) => bus.publish(event),
        _ => bus,
    }
}

/// Deals with what was read from the process: the event that a line names
/// is published, any other line is skipped, a failed read is tried again,
/// and the end of the output stops the reader, as does a closed bus.
pub fn read_step(bus: &mut EventBus, read: ReadOutcome<'_>) -> (step: ReaderStep)
    requires
        old(bus).wf(),
    ensures
        final(bus).wf(),
        step == reader_step(old(bus)@, read@),
        final(bus)@ == bus_after_read(old(bus)@, read@),
{
    match read {
        ReadOutcome::Line(line) => match WrappedEvent::try_from(line) {
            Ok(event) => match bus.publish(event) {
                Ok(()) => ReaderStep::Published(event),
                Err(_) => ReaderStep::Stopped(ReaderStop::BusClosed),
            },
            Err(_) => ReaderStep::Skipped,
        },
        ReadOutcome::End => ReaderStep::Stopped(ReaderStop::Exited),
        ReadOutcome::Failed => ReaderStep::Retried,
    }
}

} // verus!
