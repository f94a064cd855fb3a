//! The display controller: bring-up of the device, the ordered queue of
//! render commands, and the frame that each command puts on the panel.
//!
//! The controller owns the state of the device. It never writes to the bus
//! itself: it hands out the steps to perform and takes their outcomes.
//! Until every step of the bring-up has counted it accepts no command, and
//! once a step of the bring-up has failed it never will.

use crate::bus::{op_models, BusError, BusOp, OpModel, Script, ScriptModel, WriteOutcome};
use crate::frame::{blank, frame_push, FrameBuffer, PIXELS};
use crate::text::{fits, render, rendered, MAX_TEXT_CHARS};
use vstd::prelude::*;

verus! {

/// An operation on the panel.
#[derive(Debug, PartialEq, Eq)]
pub enum DisplayCommand {
    /// Wipe the panel.
    Clear,
    /// Wipe the panel and show the text from its top left corner.
    Text(String),
}

/// The mathematical value of a [`DisplayCommand`].
pub enum CommandModel {
    Clear,
    Text(Seq<char>),
}

impl View for DisplayCommand {
    type V = CommandModel;

    open spec fn view(&self) -> CommandModel {
        match *self {
            DisplayCommand::Clear => CommandModel::Clear,
            DisplayCommand::Text(text) => CommandModel::Text(text@),
        }
    }
}

impl Clone for DisplayCommand {
    fn clone(&self) -> (copy: DisplayCommand)
        ensures
            copy@ == self@,
    {
        match self {
            DisplayCommand::Clear => DisplayCommand::Clear,
            DisplayCommand::Text(text) => DisplayCommand::Text(text.clone()),
        }
    }
}

impl CommandModel {
    /// Whether the command can be rendered: a text must not be longer than
    /// the rasterizer takes.
    pub open spec fn renderable(self) -> bool {
        match self {
            CommandModel::Clear => true,
            CommandModel::Text(text) => text.len() <= MAX_TEXT_CHARS,
        }
    }

    /// The frame that the panel shows once the command is applied. It does
    /// not depend on what the panel showed before.
    pub open spec fn frame(self) -> Seq<bool> {
        match self {
            CommandModel::Clear => blank(),
            CommandModel::Text(text) => rendered(text),
        }
    }
}

/// The values of a sequence of commands.
pub open spec fn command_models(commands: Seq<DisplayCommand>) -> Seq<CommandModel> {
    commands.map_values(|command: DisplayCommand| command@)
}

/// The command bytes that configure the device, in the order in which they
/// are sent: display off, column address, start line, contrast, segment and
/// row mapping, normal display, multiplex ratio, display offset, clock
/// divider, pre-charge period, pin configuration, deselect level, page
/// addressing, display from memory, not inverted.
pub const BRING_UP_COMMANDS: [u8; 24] = [
    0xAE, 0x02, 0x10, 0x40, 0x81, 0xA0, 0xC0, 0xA6, 0xA8, 0x3F, 0xD3, 0x00,
    0xD5, 0x80, 0xD9, 0xF1, 0xDA, 0x12, 0xDB, 0x40, 0x20, 0x02, 0xA4, 0xA6,
];

/// The command that powers the panel on. It ends the bring-up.
pub const PANEL_ON: u8 = 0xAF;

/// Milliseconds for which the reset line is held high before it is pulled.
pub const RESET_LEAD_MS: u32 = 1;

/// Milliseconds for which the reset line is held low.
pub const RESET_HOLD_MS: u32 = 10;

/// Milliseconds between the last configuration command and power-on.
pub const POWER_ON_SETTLE_MS: u32 = 100;

/// Steps of the bring-up.
pub const BRING_UP_STEPS: usize = 31;

/// The bring-up: the reset line is raised, pulled low, held and released;
/// then the configuration commands follow one by one; then, after a pause,
/// the panel is powered on.
pub open spec fn bring_up() -> Seq<OpModel> {
    Seq::new(
        BRING_UP_STEPS as nat,
        |i: int|
            if i == 0 {
                OpModel::Reset { high: true }
            } else if i == 1 {
                OpModel::Settle { millis: RESET_LEAD_MS as nat }
            } else if i == 2 {
                OpModel::Reset { high: false }
            } else if i == 3 {
                OpModel::Settle { millis: RESET_HOLD_MS as nat }
            } else if i == 4 {
                OpModel::Reset { high: true }
            } else if i < 29 {
                OpModel::Command(BRING_UP_COMMANDS@[i - 5])
            } else if i == 29 {
                OpModel::Settle { millis: POWER_ON_SETTLE_MS as nat }
            } else {
                OpModel::Command(PANEL_ON)
            },
    )
}

/// The steps of the bring-up, in order.
pub fn bring_up_plan() -> (plan: Vec<BusOp>)
    ensures
        op_models(plan@) == bring_up(),
{
    let mut plan: Vec<BusOp> = Vec::new();
    plan.push(BusOp::Reset { high: true });
    plan.push(BusOp::Settle { millis: RESET_LEAD_MS });
    plan.push(BusOp::Reset { high: false });
    plan.push(BusOp::Settle { millis: RESET_HOLD_MS });
    plan.push(BusOp::Reset { high: true });
    let mut i: usize = 0;
    while i < 24
        invariant
            i <= 24,
            plan.len() == 5 + i,
            forall|j: int| 0 <= j < plan.len() ==> (#[trigger] plan[j])@ == bring_up()[j],
        decreases 24 - i,
    {
        plan.push(BusOp::Command(BRING_UP_COMMANDS[i]));
        i = i + 1;
    }
    plan.push(BusOp::Settle { millis: POWER_ON_SETTLE_MS });
    plan.push(BusOp::Command(PANEL_ON));
    assert(op_models(plan@) =~= bring_up());
    plan
}

/// Why a command was not accepted.
#[derive(Debug, Clone, Copy, PartialEq, Eq, Structural)]
pub enum SubmitError {
    /// The bring-up has not completed, or has failed.
    NotReady,
    /// The text is longer than the rasterizer takes.
    TextTooLong,
    /// The queue is full. The command was not taken; the caller holds it
    /// back until a command has been rendered.
    QueueFull,
}

/// The mathematical value of a [`DisplayController`].
pub struct ControllerModel {
    /// The bring-up and how far it has come.
    pub bring_up: ScriptModel,
    /// The most commands that wait at a time.
    pub capacity: nat,
    /// The commands that wait, oldest first.
    pub queue: Seq<CommandModel>,
    /// What the panel was last told to show.
    pub frame: Seq<bool>,
    /// Whether a push was handed out and has not been finished.
    pub pushing: bool,
}

impl ControllerModel {
    /// A controller that has not begun its bring-up.
    pub open spec fn initial(capacity: nat) -> ControllerModel {
        ControllerModel {
            bring_up: ScriptModel { ops: bring_up(), done: 0, aborted: false },
            capacity,
            queue: Seq::empty(),
            frame: blank(),
            pushing: false,
        }
    }

    /// What holds of every controller: its bring-up is the fixed one, the
    /// queue is within its capacity and holds only commands that can be
    /// rendered, and nothing waits or is pushed unless the device is
    /// ready.
    pub open spec fn wf(self) -> bool {
        &&& self.bring_up.wf()
        &&& self.bring_up.ops == bring_up()
        &&& self.queue.len() <= self.capacity
        &&& self.frame.len() == PIXELS
        &&& (self.queue.len() > 0 ==> self.ready())
        &&& (self.pushing ==> self.ready())
        &&& forall|i: int| 0 <= i < self.queue.len() ==> (#[trigger] self.queue[i]).renderable()
    }

    /// Every step of the bring-up has counted.
    pub open spec fn ready(self) -> bool {
        self.bring_up.complete()
    }

    /// A step of the bring-up did not count.
    pub open spec fn failed(self) -> bool {
        self.bring_up.aborted
    }

    /// The controller after the outcome of the due bring-up step was
    /// reported.
    pub open spec fn report(self, outcome: WriteOutcome) -> ControllerModel {
        ControllerModel { bring_up: self.bring_up.report(outcome), ..self }
    }

    /// Whether `command` is accepted, and if not, why.
    pub open spec fn admits(self, command: CommandModel) -> Result<(), SubmitError> {
        if !self.ready() {
            Err(SubmitError::NotReady)
        } else if !command.renderable() {
            Err(SubmitError::TextTooLong)
        } else if self.queue.len() >= self.capacity {
            Err(SubmitError::QueueFull)
        } else {
            Ok(())
        }
    }

    /// The controller after `command` was submitted: the command waits
    /// behind all earlier ones if it was accepted; nothing changed if not.
    pub open spec fn submit(self, command: CommandModel) -> ControllerModel {
        if self.admits(command) is Ok {
            ControllerModel { queue: self.queue.push(command), ..self }
        } else {
            self
        }
    }

    /// Whether the oldest waiting command can be rendered now: a command
    /// waits, and no push is under way.
    pub open spec fn can_render(self) -> bool {
        self.queue.len() > 0 && !self.pushing
    }

    /// The steps handed out when the oldest waiting command is rendered: a
    /// push of the whole frame that the command gives. Nothing if no command
    /// waits, and nothing while an earlier push is under way.
    pub open spec fn render_ops(self) -> Option<Seq<OpModel>> {
        if self.can_render() {
            Some(frame_push(self.queue[0].frame()))
        } else {
            None
        }
    }

    /// The controller after the oldest waiting command was rendered: the
    /// command has left the queue, and its push is under way.
    pub open spec fn render(self) -> ControllerModel {
        if self.can_render() {
            ControllerModel {
                queue: self.queue.drop_first(),
                frame: self.queue[0].frame(),
                pushing: true,
                ..self
            }
        } else {
            self
        }
    }

    /// The controller after the push under way was finished, whether all of
    /// it reached the device or not.
    pub open spec fn finish(self) -> ControllerModel {
        ControllerModel { pushing: false, ..self }
    }
}

/// The owner of the display device.
pub struct DisplayController {
    bring_up: Script,
    capacity: usize,
    queue: Vec<DisplayCommand>,
    frame: FrameBuffer,
    pushing: bool,
}

impl View for DisplayController {
    type V = ControllerModel;

    closed spec fn view(&self) -> ControllerModel {
        ControllerModel {
            bring_up: self.bring_up@,
            capacity: self.capacity as nat,
            queue: command_models(self.queue@),
            frame: self.frame@,
            pushing: self.pushing,
        }
    }
}

impl DisplayController {
    /// Whether the controller is in a state that its own operations lead
    /// to.
    pub open spec fn wf(&self) -> bool {
        self@.wf()
    }

    /// A controller for a device that has not been brought up, with room for
    /// `capacity` waiting commands.
    pub fn new(capacity: usize) -> (controller: DisplayController)
        ensures
            controller.wf(),
            controller@ == ControllerModel::initial(capacity as nat),
    {
        let controller = DisplayController {
            bring_up: Script::new(bring_up_plan()),
            capacity,
            queue: Vec::new(),
            frame: FrameBuffer::new(),
            pushing: false,
        };
        assert(controller@.queue =~= Seq::empty());
        controller
    }

    /// Whether the bring-up has completed.
    pub fn is_ready(&self) -> (ready: bool)
        ensures
            ready == self@.ready(),
    {
        self.bring_up.is_complete()
    }

    /// Whether the bring-up has failed.
    pub fn has_failed(&self) -> (failed: bool)
        ensures
            failed == self@.failed(),
    {
        self.bring_up.is_aborted()
    }

    /// The step of the bring-up that the caller has to perform next. There
    /// is none once the device is ready, and none after a failure.
    pub fn next_step(&self) -> (op: Option<&BusOp>)
        ensures
            op is Some <==> self@.bring_up.current() is Some,
            op matches Some(op) ==> Some(op@) == self@.bring_up.current(),
    {
        self.bring_up.current()
    }

    /// Takes the outcome of the bring-up step that was due. A step that did
    /// not count ends the bring-up for good.
    pub fn report(&mut self, outcome: WriteOutcome) -> (verdict: Result<(), BusError>)
        requires
            old(self).wf(),
        ensures
            final(self).wf(),
            verdict == old(self)@.bring_up.verdict(outcome),
            final(self)@ == old(self)@.report(outcome),
    {
        self.bring_up.report(outcome)
    }

    /// The number of commands that wait.
    pub fn pending(&self) -> (count: usize)
        ensures
            count as nat == self@.queue.len(),
    {
        self.queue.len()
    }

    /// What the panel was last told to show.
    pub fn frame(&self) -> (frame: &FrameBuffer)
        ensures
            frame@ == self@.frame,
    {
        &self.frame
    }

    /// Puts a command behind those that wait.
    pub fn submit(&mut self, command: DisplayCommand) -> (verdict: Result<(), SubmitError>)
        requires
            old(self).wf(),
        ensures
            final(self).wf(),
            verdict == old(self)@.admits(command@),
            final(self)@ == old(self)@.submit(command@),
    {
        if !self.bring_up.is_complete() {
            return Err(SubmitError::NotReady);
        }
        let renderable = match &command {
            DisplayCommand::Clear => true,
            DisplayCommand::Text(text) => fits(text.as_str()),
        };
        if !renderable {
            return Err(SubmitError::TextTooLong);
        }
        if self.queue.len() >= self.capacity {
            return Err(SubmitError::QueueFull);
        }
        self.queue.push(command);
        assert(command_models(self.queue@) =~= old(self)@.queue.push(command@));
        Ok(())
    }

    /// Whether a push was handed out and has not been finished.
    pub fn is_pushing(&self) -> (pushing: bool)
        ensures
            pushing == self@.pushing,
    {
        self.pushing
    }

    /// Takes the oldest waiting command, applies it to the frame and hands
    /// out the push of the whole frame. Hands out nothing if no command
    /// waits, and nothing until the push handed out before is finished: the
    /// device is pushed to by one command at a time.
    pub fn render_next(&mut self) -> (push: Option<Script>)
        requires
            old(self).wf(),
        ensures
            final(self).wf(),
            final(self)@ == old(self)@.render(),
            push is Some <==> old(self)@.render_ops() is Some,
            push matches Some(script) ==> script@ == (ScriptModel {
                ops: old(self)@.render_ops()->Some_0,
                done: 0,
                aborted: false,
            }),
    {
        if self.queue.len() == 0 || self.pushing {
            return None;
        }
        let command = self.queue.remove(0);
        assert(command_models(self.queue@) =~= old(self)@.queue.drop_first());
        assert(command@ == old(self)@.queue[0]);
        let frame = match command {
            DisplayCommand::Clear => FrameBuffer::new(),
            DisplayCommand::Text(text) => {
                match render(text.as_str()) {
                    Ok(frame) => frame,
                    Err(_) => {
                        assert(false);
                        FrameBuffer::new()
                    },
                }
            },
        };
        let plan = frame.push_plan();
        self.frame = frame;
        self.pushing = true;
        Some(Script::new(plan))
    }

    /// Finishes the push that was handed out, after its last step or after
    /// the step at which it was aborted. Says whether all of it reached the
    /// device. Either way the next waiting command can be rendered: a push
    /// that failed is not tried again.
    pub fn finish_push(&mut self, push: &Script) -> (complete: bool)
        requires
            old(self).wf(),
        ensures
            final(self).wf(),
            final(self)@ == old(self)@.finish(),
            complete == push@.complete(),
    {
        self.pushing = false;
        push.is_complete()
    }
}

} // verus!
