//! Runs of the display controller: what holds of every sequence of
//! operations on it.

use crate::bus::{OpModel, WriteOutcome};
use crate::display::{CommandModel, ControllerModel};
use crate::frame::frame_push;
use vstd::prelude::*;

verus! {

/// One operation on the controller.
pub enum Input {
    /// The outcome of the bring-up step that was due.
    Report(WriteOutcome),
    /// A command to put in the queue.
    Submit(CommandModel),
    /// A request to render the oldest waiting command.
    Render,
    /// The end of the push that was handed out.
    Finish,
}

/// The controller after one operation.
pub open spec fn step(model: ControllerModel, input: Input) -> ControllerModel {
    match input {
        Input::Report(outcome) => model.report(outcome),
        Input::Submit(command) => model.submit(command),
        Input::Render => model.render(),
        Input::Finish => model.finish(),
    }
}

/// The controller after a sequence of operations.
pub open spec fn run(model: ControllerModel, inputs: Seq<Input>) -> ControllerModel
    decreases inputs.len(),
{
    if inputs.len() == 0 {
        model
    } else {
        step(run(model, inputs.drop_last()), inputs.last())
    }
}

/// The commands that were accepted during a sequence of operations, in the
/// order of their submission.
pub open spec fn accepted(model: ControllerModel, inputs: Seq<Input>) -> Seq<CommandModel>
    decreases inputs.len(),
{
    if inputs.len() == 0 {
        Seq::empty()
    } else {
        let before = run(model, inputs.drop_last());
        let earlier = accepted(model, inputs.drop_last());
        match inputs.last() {
            Input::Submit(command) => if before.admits(command) is Ok {
                earlier.push(command)
            } else {
                earlier
            },
            _ => earlier,
        }
    }
}

/// The commands that were rendered during a sequence of operations, in the
/// order in which their frames were handed out for the device.
pub open spec fn shown(model: ControllerModel, inputs: Seq<Input>) -> Seq<CommandModel>
    decreases inputs.len(),
{
    if inputs.len() == 0 {
        Seq::empty()
    } else {
        let before = run(model, inputs.drop_last());
        let earlier = shown(model, inputs.drop_last());
        match inputs.last() {
            Input::Render => if before.can_render() {
                earlier.push(before.queue[0])
            } else {
                earlier
            },
            _ => earlier,
        }
    }
}

/// The pushes that were handed out for the device during a sequence of
/// operations, each a whole frame, in order.
pub open spec fn pushes(model: ControllerModel, inputs: Seq<Input>) -> Seq<Seq<OpModel>>
    decreases inputs.len(),
{
    if inputs.len() == 0 {
        Seq::empty()
    } else {
        let before = run(model, inputs.drop_last());
        let earlier = pushes(model, inputs.drop_last());
        match inputs.last() {
            Input::Render => match before.render_ops() {
                Some(ops) => earlier.push(ops),
                None => earlier,
            },
            _ => earlier,
        }
    }
}

/// Every operation leads from a well-formed controller to a well-formed
/// one.
pub proof fn lemma_step_wf(model: ControllerModel, input: Input)
    requires
        model.wf(),
    ensures
        step(model, input).wf(),
{
    match input {
        Input::Report(outcome) => {},
        Input::Submit(command) => {},
        Input::Finish => {},
        Input::Render => {
            if model.can_render() {
                let after = model.render();
                assert forall|i: int| 0 <= i < after.queue.len() implies (
                #[trigger] after.queue[i]).renderable() by {
                    assert(after.queue[i] == model.queue[i + 1]);
                }
            }
        },
    }
}

/// Every sequence of operations leads from a well-formed controller to a
/// well-formed one.
pub proof fn lemma_run_wf(model: ControllerModel, inputs: Seq<Input>)
    requires
        model.wf(),
    ensures
        run(model, inputs).wf(),
    decreases inputs.len(),
{
    if inputs.len() > 0 {
        lemma_run_wf(model, inputs.drop_last());
        lemma_step_wf(run(model, inputs.drop_last()), inputs.last());
    }
}

/// A bring-up step that does not count, be it a short write or a refused
/// one, leaves the controller failed and not ready.
pub proof fn lemma_bad_write_fails_bring_up(model: ControllerModel, outcome: WriteOutcome)
    requires
        model.wf(),
        model.bring_up.current() is Some,
        model.bring_up.verdict(outcome) is Err,
    ensures
        model.report(outcome).failed(),
        !model.report(outcome).ready(),
{
}

/// After a failed bring-up no sequence of operations makes the controller
/// ready, puts a command in its queue, hands out a bring-up step or hands
/// out a push: nothing reaches the device any more.
pub proof fn lemma_failure_is_final(model: ControllerModel, inputs: Seq<Input>)
    requires
        model.wf(),
        model.failed(),
    ensures
        run(model, inputs).failed(),
        !run(model, inputs).ready(),
        run(model, inputs).bring_up.current() is None,
        run(model, inputs).queue.len() == 0,
        accepted(model, inputs).len() == 0,
        pushes(model, inputs).len() == 0,
    decreases inputs.len(),
{
    if inputs.len() > 0 {
        lemma_failure_is_final(model, inputs.drop_last());
        lemma_run_wf(model, inputs.drop_last());
    }
}

/// A bring-up step that does not count keeps every later submission from
/// the device, whatever operations follow.
pub proof fn lemma_failed_bring_up_blocks_device(
    model: ControllerModel,
    outcome: WriteOutcome,
    inputs: Seq<Input>,
)
    requires
        model.wf(),
        model.bring_up.current() is Some,
        model.bring_up.verdict(outcome) is Err,
    ensures
        !run(model.report(outcome), inputs).ready(),
        accepted(model.report(outcome), inputs).len() == 0,
        pushes(model.report(outcome), inputs).len() == 0,
{
    lemma_bad_write_fails_bring_up(model, outcome);
    lemma_step_wf(model, Input::Report(outcome));
    lemma_failure_is_final(model.report(outcome), inputs);
}

/// Commands leave the queue in the order in which they entered it: at any
/// time, the commands that waited at the start followed by those accepted
/// since are the commands rendered since followed by those that still wait.
pub proof fn lemma_submission_order(model: ControllerModel, inputs: Seq<Input>)
    requires
        model.wf(),
    ensures
        model.queue + accepted(model, inputs) == shown(model, inputs) + run(
            model,
            inputs,
        ).queue,
    decreases inputs.len(),
{
    if inputs.len() == 0 {
        assert(model.queue + accepted(model, inputs) =~= shown(model, inputs) + run(
            model,
            inputs,
        ).queue);
    } else {
        let head = inputs.drop_last();
        lemma_submission_order(model, head);
        let before = run(model, head);
        assert(model.queue + accepted(model, head) == shown(model, head) + before.queue);
        match inputs.last() {
            Input::Report(outcome) => {},
            Input::Submit(command) => {
                if before.admits(command) is Ok {
                    assert((model.queue + accepted(model, head)).push(command) =~= model.queue
                        + accepted(model, head).push(command));
                    assert((shown(model, head) + before.queue).push(command) =~= shown(
                        model,
                        head,
                    ) + before.queue.push(command));
                }
            },
            Input::Finish => {},
            Input::Render => {
                if before.can_render() {
                    assert(shown(model, head).push(before.queue[0])
                        + before.queue.drop_first() =~= shown(model, head) + before.queue);
                }
            },
        }
    }
}

/// The device is handed one push for each rendered command, in the same
/// order, and each push is the whole frame that its command gives.
pub proof fn lemma_pushes_follow_commands(model: ControllerModel, inputs: Seq<Input>)
    ensures
        pushes(model, inputs).len() == shown(model, inputs).len(),
        forall|i: int|
            0 <= i < shown(model, inputs).len() ==> #[trigger] pushes(model, inputs)[i]
                == frame_push(shown(model, inputs)[i].frame()),
    decreases inputs.len(),
{
    if inputs.len() > 0 {
        lemma_pushes_follow_commands(model, inputs.drop_last());
    }
}

/// Whether operation `at` of a sequence is a request to render that hands
/// out a push.
pub open spec fn hands_out(model: ControllerModel, inputs: Seq<Input>, at: int) -> bool {
    &&& 0 <= at < inputs.len()
    &&& inputs[at] is Render
    &&& run(model, inputs.take(at)).can_render()
}

/// From the moment a push is handed out until it is finished, a push is
/// under way.
proof fn lemma_push_stays(model: ControllerModel, inputs: Seq<Input>, first: int, upto: int)
    requires
        hands_out(model, inputs, first),
        first < upto <= inputs.len(),
        forall|k: int| first < k < upto ==> !(#[trigger] inputs[k] is Finish),
    ensures
        run(model, inputs.take(upto)).pushing,
    decreases upto - first,
{
    assert(inputs.take(upto).drop_last() =~= inputs.take(upto - 1));
    assert(inputs.take(upto).last() == inputs[upto - 1]);
    if upto > first + 1 {
        lemma_push_stays(model, inputs, first, upto - 1);
    }
}

/// The device is never pushed to by two commands at once: between any two
/// pushes that are handed out, the earlier one is finished.
pub proof fn lemma_one_push_at_a_time(
    model: ControllerModel,
    inputs: Seq<Input>,
    first: int,
    second: int,
)
    requires
        hands_out(model, inputs, first),
        hands_out(model, inputs, second),
        first < second,
    ensures
        exists|k: int| first < k < second && #[trigger] inputs[k] is Finish,
{
    if !(exists|k: int| first < k < second && #[trigger] inputs[k] is Finish) {
        lemma_push_stays(model, inputs, first, second);
    }
}

} // verus!
