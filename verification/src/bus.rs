//! The narrow synchronous bus to the display device.
//!
//! The device is driven by a sequence of steps. Each step is performed by the
//! caller, who reports how many bytes the bus took. A write counts only if the
//! bus took exactly the bytes it was given; anything else aborts the sequence
//! that the step belongs to.

use vstd::prelude::*;

verus! {

/// One step on the way to the device.
#[derive(Debug, PartialEq, Eq)]
pub enum BusOp {
    /// Drive the reset line high (`true`) or low (`false`).
    Reset { high: bool },
    /// Let the given number of milliseconds pass.
    Settle { millis: u32 },
    /// Write one command byte, with the data/command select line low.
    Command(u8),
    /// Write a burst of data bytes, with the data/command select line high.
    Data(Vec<u8>),
}

/// The mathematical value of a [`BusOp`].
pub enum OpModel {
    Reset { high: bool },
    Settle { millis: nat },
    Command(u8),
    Data(Seq<u8>),
}

impl View for BusOp {
    type V = OpModel;

    open spec fn view(&self) -> OpModel {
        match *self {
            BusOp::Reset { high } => OpModel::Reset { high },
            BusOp::Settle { millis } => OpModel::Settle { millis: millis as nat },
            BusOp::Command(byte) => OpModel::Command(byte),
            BusOp::Data(bytes) => OpModel::Data(bytes@),
        }
    }
}

impl Clone for BusOp {
    fn clone(&self) -> (copy: BusOp)
        ensures
            copy@ == self@,
    {
        match self {
            BusOp::Reset { high } => BusOp::Reset { high: *high },
            BusOp::Settle { millis } => BusOp::Settle { millis: *millis },
            BusOp::Command(byte) => BusOp::Command(*byte),
            BusOp::Data(bytes) => {
                let copy = bytes.clone();
                assert(copy@ =~= bytes@);
                BusOp::Data(copy)
            },
        }
    }
}

impl OpModel {
    /// The number of bytes that the bus must take for the step to count:
    /// one for a command, the length of the burst for data, none otherwise.
    pub open spec fn expected(self) -> nat {
        match self {
            OpModel::Reset { .. } => 0,
            OpModel::Settle { .. } => 0,
            OpModel::Command(_) => 1,
            OpModel::Data(bytes) => bytes.len(),
        }
    }
}

/// The values of a sequence of steps.
pub open spec fn op_models(ops: Seq<BusOp>) -> Seq<OpModel> {
    ops.map_values(|op: BusOp| op@)
}

/// What the caller saw when it performed a step.
#[derive(Debug, Clone, Copy, PartialEq, Eq, Structural)]
pub enum WriteOutcome {
    /// The bus took this many bytes. A step that writes nothing reports 0.
    Written(usize),
    /// The bus refused the transfer.
    Fault,
}

/// Why a step did not count.
#[derive(Debug, Clone, Copy, PartialEq, Eq, Structural)]
pub enum BusError {
    /// The bus took `written` bytes where `expected` were given.
    ShortWrite { expected: usize, written: usize },
    /// The bus refused the transfer.
    Fault,
    /// An outcome was reported while no step was due.
    Idle,
}

/// The verdict on a step that had to move `expected` bytes.
pub open spec fn judge(expected: nat, outcome: WriteOutcome) -> Result<(), BusError> {
    match outcome {
        WriteOutcome::Written(written) => if written as nat == expected {
            Ok(())
        } else {
            Err(BusError::ShortWrite { expected: expected as usize, written })
        },
        WriteOutcome::Fault => Err(BusError::Fault),
    }
}

/// Accepts a transfer only if the bus took exactly `expected` bytes.
pub fn check_write(expected: usize, outcome: WriteOutcome) -> (verdict: Result<(), BusError>)
    ensures
        verdict == judge(expected as nat, outcome),
{
    match outcome {
        WriteOutcome::Written(written) => {
            if written == expected {
                Ok(())
            } else {
                Err(BusError::ShortWrite { expected, written })
            }
        },
        WriteOutcome::Fault => Err(BusError::Fault),
    }
}

impl BusOp {
    /// The number of bytes that the bus must take for this step to count.
    pub fn expected_len(&self) -> (len: usize)
        ensures
            len as nat == self@.expected(),
    {
        match self {
            BusOp::Reset { .. } => 0,
            BusOp::Settle { .. } => 0,
            BusOp::Command(_) => 1,
            BusOp::Data(bytes) => bytes.len(),
        }
    }
}

/// The mathematical value of a [`Script`]: its steps, how many of them have
/// counted, and whether it was aborted.
pub struct ScriptModel {
    pub ops: Seq<OpModel>,
    pub done: nat,
    pub aborted: bool,
}

impl ScriptModel {
    /// A script never counts more steps than it has.
    pub open spec fn wf(self) -> bool {
        self.done <= self.ops.len()
    }

    /// The step that is due, if any: the first one that has not counted yet,
    /// unless the script was aborted.
    pub open spec fn current(self) -> Option<OpModel> {
        if !self.aborted && self.done < self.ops.len() {
            Some(self.ops[self.done as int])
        } else {
            None
        }
    }

    /// Every step has counted.
    pub open spec fn complete(self) -> bool {
        !self.aborted && self.done == self.ops.len()
    }

    /// The verdict on `outcome`, reported for the step that is due.
    pub open spec fn verdict(self, outcome: WriteOutcome) -> Result<(), BusError> {
        match self.current() {
            Some(op) => judge(op.expected(), outcome),
            None => Err(BusError::Idle),
        }
    }

    /// The script after `outcome` was reported: one step further if the step
    /// counted, aborted if it did not, unchanged if no step was due.
    pub open spec fn report(self, outcome: WriteOutcome) -> ScriptModel {
        match self.current() {
            Some(_) => if self.verdict(outcome) is Ok {
                ScriptModel { done: self.done + 1, ..self }
            } else {
                ScriptModel { aborted: true, ..self }
            },
            None => self,
        }
    }

    /// The steps that have reached the device in full.
    pub open spec fn delivered(self) -> Seq<OpModel> {
        self.ops.take(self.done as int)
    }
}

/// A sequence of steps that is walked in order, one step at a time, and that
/// stops for good at the first step that does not count.
pub struct Script {
    ops: Vec<BusOp>,
    done: usize,
    aborted: bool,
}

impl View for Script {
    type V = ScriptModel;

    closed spec fn view(&self) -> ScriptModel {
        ScriptModel { ops: op_models(self.ops@), done: self.done as nat, aborted: self.aborted }
    }
}

impl Script {
    #[verifier::type_invariant]
    spec fn inv(self) -> bool {
        self.done <= self.ops.len()
    }

    /// A script over the given steps, none of which has counted yet.
    pub fn new(ops: Vec<BusOp>) -> (script: Script)
        ensures
            script@ == (ScriptModel { ops: op_models(ops@), done: 0, aborted: false }),
            script@.wf(),
    {
        Script { ops, done: 0, aborted: false }
    }

    /// The step that the caller has to perform next, if any.
    pub fn current(&self) -> (op: Option<&BusOp>)
        ensures
            op is Some <==> self@.current() is Some,
            op matches Some(op) ==> Some(op@) == self@.current(),
    {
        proof {
            use_type_invariant(self);
        }
        if !self.aborted && self.done < self.ops.len() {
            Some(&self.ops[self.done])
        } else {
            None
        }
    }

    /// Takes the outcome of the step that was due.
    pub fn report(&mut self, outcome: WriteOutcome) -> (verdict: Result<(), BusError>)
        ensures
            verdict == old(self)@.verdict(outcome),
            final(self)@ == old(self)@.report(outcome),
            final(self)@.wf(),
    {
        proof {
            use_type_invariant(&*self);
        }
        if self.aborted || self.done >= self.ops.len() {
            return Err(BusError::Idle);
        }
        let expected = self.ops[self.done].expected_len();
        let verdict = check_write(expected, outcome);
        if verdict.is_ok() {
            self.done = self.done + 1;
        } else {
            self.aborted = true;
        }
        verdict
    }

    /// Whether every step has counted.
    pub fn is_complete(&self) -> (complete: bool)
        ensures
            complete == self@.complete(),
    {
        !self.aborted && self.done == self.ops.len()
    }

    /// Whether a step failed to count.
    pub fn is_aborted(&self) -> (aborted: bool)
        ensures
            aborted == self@.aborted,
    {
        self.aborted
    }

    /// The number of steps that have counted.
    pub fn steps_done(&self) -> (done: usize)
        ensures
            done as nat == self@.done,
    {
        self.done
    }

    /// The number of steps in the script.
    pub fn len(&self) -> (len: usize)
        ensures
            len as nat == self@.ops.len(),
    {
        self.ops.len()
    }
}

} // verus!
