//! The input poller: which line stands for which event, and what the
//! poller does with the outcome of each wait.
//!
//! The poller waits on eight interrupt lines, all armed for the rising
//! edge. Every edge gives an event: nothing is debounced.

use crate::event::WrappedEvent;
use crate::event_bus::{BusModel, EventBus};
use vstd::prelude::*;

verus! {

/// The line of the first push button.
pub const BUTTON1_LINE: u8 = 21;

/// The line of the second push button.
pub const BUTTON2_LINE: u8 = 20;

/// The line of the third push button.
pub const BUTTON3_LINE: u8 = 16;

/// The line of the joystick's left contact.
pub const JOYSTICK_LEFT_LINE: u8 = 5;

/// The line of the joystick's up contact.
pub const JOYSTICK_UP_LINE: u8 = 6;

/// The line of the joystick's right contact.
pub const JOYSTICK_RIGHT_LINE: u8 = 26;

/// The line of the joystick's down contact.
pub const JOYSTICK_DOWN_LINE: u8 = 19;

/// The line of the joystick's centre contact.
pub const JOYSTICK_PRESS_LINE: u8 = 13;

/// The edge of a line that raises an interrupt.
#[derive(Debug, Clone, Copy, PartialEq, Eq, Structural)]
pub enum Edge {
    Rising,
    Falling,
}

/// How one input line is set up: the line is pulled up and raises an
/// interrupt on the given edge.
#[derive(Debug, Clone, Copy, PartialEq, Eq, Structural)]
pub struct ArmedLine {
    pub line: u8,
    pub edge: Edge,
}

/// The event that a line stands for, if it is one of the eight.
pub open spec fn event_of_line(line: u8) -> Option<WrappedEvent> {
    if line == BUTTON1_LINE {
        Some(WrappedEvent::Button1Press)
    } else if line == BUTTON2_LINE {
        Some(WrappedEvent::Button2Press)
    } else if line == BUTTON3_LINE {
        Some(WrappedEvent::Button3Press)
    } else if line == JOYSTICK_LEFT_LINE {
        Some(WrappedEvent::JoystickLeft)
    } else if line == JOYSTICK_UP_LINE {
        Some(WrappedEvent::JoystickUp)
    } else if line == JOYSTICK_RIGHT_LINE {
        Some(WrappedEvent::JoystickRight)
    } else if line == JOYSTICK_DOWN_LINE {
        Some(WrappedEvent::JoystickDown)
    } else if line == JOYSTICK_PRESS_LINE {
        Some(WrappedEvent::JoystickPressed)
    } else {
        None
    }
}

/// The line that stands for an event.
pub open spec fn line_of_event(event: WrappedEvent) -> u8 {
    match event {
        WrappedEvent::Button1Press => BUTTON1_LINE,
        WrappedEvent::Button2Press => BUTTON2_LINE,
        WrappedEvent::Button3Press => BUTTON3_LINE,
        WrappedEvent::JoystickLeft => JOYSTICK_LEFT_LINE,
        WrappedEvent::JoystickUp => JOYSTICK_UP_LINE,
        WrappedEvent::JoystickRight => JOYSTICK_RIGHT_LINE,
        WrappedEvent::JoystickDown => JOYSTICK_DOWN_LINE,
        WrappedEvent::JoystickPressed => JOYSTICK_PRESS_LINE,
    }
}

/// The eight lines in the order in which they are armed and polled.
pub open spec fn polled_lines() -> Seq<u8> {
    seq![
        BUTTON1_LINE,
        BUTTON2_LINE,
        BUTTON3_LINE,
        JOYSTICK_LEFT_LINE,
        JOYSTICK_UP_LINE,
        JOYSTICK_RIGHT_LINE,
        JOYSTICK_DOWN_LINE,
        JOYSTICK_PRESS_LINE,
    ]
}

/// The event that a line stands for. A line that is none of the eight
/// stands for no event.
pub fn classify(line: u8) -> (event: Option<WrappedEvent>)
    ensures
        event == event_of_line(line),
{
    if line == BUTTON1_LINE {
        Some(WrappedEvent::Button1Press)
    } else if line == BUTTON2_LINE {
        Some(WrappedEvent::Button2Press)
    } else if line == BUTTON3_LINE {
        Some(WrappedEvent::Button3Press)
    } else if line == JOYSTICK_LEFT_LINE {
        Some(WrappedEvent::JoystickLeft)
    } else if line == JOYSTICK_UP_LINE {
        Some(WrappedEvent::JoystickUp)
    } else if line == JOYSTICK_RIGHT_LINE {
        Some(WrappedEvent::JoystickRight)
    } else if line == JOYSTICK_DOWN_LINE {
        Some(WrappedEvent::JoystickDown)
    } else if line == JOYSTICK_PRESS_LINE {
        Some(WrappedEvent::JoystickPressed)
    } else {
        None
    }
}

/// The line that stands for an event.
pub fn line_of(event: WrappedEvent) -> (line: u8)
    ensures
        line == line_of_event(event),
{
    match event {
        WrappedEvent::Button1Press => BUTTON1_LINE,
        WrappedEvent::Button2Press => BUTTON2_LINE,
        WrappedEvent::Button3Press => BUTTON3_LINE,
        WrappedEvent::JoystickLeft => JOYSTICK_LEFT_LINE,
        WrappedEvent::JoystickUp => JOYSTICK_UP_LINE,
        WrappedEvent::JoystickRight => JOYSTICK_RIGHT_LINE,
        WrappedEvent::JoystickDown => JOYSTICK_DOWN_LINE,
        WrappedEvent::JoystickPressed => JOYSTICK_PRESS_LINE,
    }
}

/// The set-up of the eight lines, in the order in which they are polled:
/// each raises its interrupt on the rising edge.
pub fn armed_lines() -> (lines: Vec<ArmedLine>)
    ensures
        lines@.len() == 8,
        forall|i: int|
            0 <= i < 8 ==> #[trigger] lines@[i] == (ArmedLine {
                line: polled_lines()[i],
                edge: Edge::Rising,
            }),
{
    let mut lines: Vec<ArmedLine> = Vec::new();
    lines.push(ArmedLine { line: BUTTON1_LINE, edge: Edge::Rising });
    lines.push(ArmedLine { line: BUTTON2_LINE, edge: Edge::Rising });
    lines.push(ArmedLine { line: BUTTON3_LINE, edge: Edge::Rising });
    lines.push(ArmedLine { line: JOYSTICK_LEFT_LINE, edge: Edge::Rising });
    lines.push(ArmedLine { line: JOYSTICK_UP_LINE, edge: Edge::Rising });
    lines.push(ArmedLine { line: JOYSTICK_RIGHT_LINE, edge: Edge::Rising });
    lines.push(ArmedLine { line: JOYSTICK_DOWN_LINE, edge: Edge::Rising });
    lines.push(ArmedLine { line: JOYSTICK_PRESS_LINE, edge: Edge::Rising });
    lines
}

/// Every event has a line of its own: the line of an event stands for that
/// event, and a line stands for an event only if it is the line of that
/// event.
pub proof fn lemma_lines_and_events(line: u8, event: WrappedEvent)
    ensures
        event_of_line(line_of_event(event)) == Some(event),
        event_of_line(line) == Some(event) <==> line == line_of_event(event),
{
}

/// Every polled line stands for an event.
pub proof fn lemma_polled_lines_classify(i: int)
    requires
        0 <= i < 8,
    ensures
        event_of_line(polled_lines()[i]) is Some,
{
}

/// What a wait on the lines came back with.
#[derive(Debug, Clone, Copy, PartialEq, Eq, Structural)]
pub enum PollOutcome {
    /// This line fired.
    Fired(u8),
    /// The wait ended though no line had fired.
    Quiet,
    /// The wait itself failed.
    Failed,
}

/// Why the poller stopped.
#[derive(Debug, Clone, Copy, PartialEq, Eq, Structural)]
pub enum PollerError {
    /// The wait on the lines failed.
    PollFailed,
    /// The wait ended though no line had fired.
    PollQuiet,
    /// The event bus is closed.
    BusClosed,
}

/// What the poller did with the outcome of a wait.
#[derive(Debug, Clone, Copy, PartialEq, Eq, Structural)]
pub enum PollerStep {
    /// The event was published; the poller waits again.
    Published(WrappedEvent),
    /// The line is none of the eight; this is logged, and the poller waits
    /// again.
    Dropped(u8),
    /// The poller stops for good.
    Stopped(PollerError),
}

/// What the poller does with the outcome of a wait, given the bus.
pub open spec fn poller_step(bus: BusModel, outcome: PollOutcome) -> PollerStep {
    match outcome {
        PollOutcome::Fired(line) => match event_of_line(line) {
            Some(event) => if bus.closed {
                PollerStep::Stopped(PollerError::BusClosed)
            } else {
                PollerStep::Published(event)
            },
            None => PollerStep::Dropped(line),
        },
        PollOutcome::Quiet => PollerStep::Stopped(PollerError::PollQuiet),
        PollOutcome::Failed => PollerStep::Stopped(PollerError::PollFailed),
    }
}

/// The bus after the poller dealt with the outcome of a wait.
pub open spec fn bus_after_poll(bus: BusModel, outcome: PollOutcome) -> BusModel {
    match poller_step(bus, outcome) {
        PollerStep::Published(event) => bus.publish(event),
        _ => bus,
    }
}

/// Deals with the outcome of a wait: the event of a known line is
/// published, an unknown line is dropped, and a wait that failed or came
/// back empty stops the poller, as does a closed bus.
pub fn poll_step(bus: &mut EventBus, outcome: PollOutcome) -> (step: PollerStep)
    requires
        old(bus).wf(),
    ensures
        final(bus).wf(),
        step == poller_step(old(bus)@, outcome),
        final(bus)@ == bus_after_poll(old(bus)@, outcome),
{
    match outcome {
        PollOutcome::Fired(line) => match classify(line) {
            Some(event) => match bus.publish(event) {
                Ok(()) => PollerStep::Published(event),
                Err(_) => PollerStep::Stopped(PollerError::BusClosed),
            },
            None => PollerStep::Dropped(line),
        },
        PollOutcome::Quiet => PollerStep::Stopped(PollerError::PollQuiet),
        PollOutcome::Failed => PollerStep::Stopped(PollerError::PollFailed),
    }
}

} // verus!
