//! The transfer primitive, as the engine sees it: a capability injected by
//! the caller, with a single method that either moves funds or fails.
//!
//! The engine treats each call as atomic and never retries; what a port
//! does between receiving an instruction and answering is the
//! collaborator's business. Every port records the instructions it was
//! handed, oldest first, and that record is what the engine's contracts
//! speak of: which transfers were attempted, and in what order.

use vstd::prelude::*;
use crate::accounts::{TransferError, TransferInstruction};

verus! {

/// A transfer-capable collaborator. Implementations perform one transfer
/// per call and report success or failure; the engine never looks past
/// that outcome.
pub trait TransferPort: Sized {
    /// The transfer instructions this port has been asked to perform,
    /// oldest first, successful or not.
    spec fn history(&self) -> Seq<TransferInstruction>;

    /// Perform one transfer. The outcome is the collaborator's to decide;
    /// whatever it is, the attempt itself is appended to the history.
    fn transfer(&mut self, instruction: &TransferInstruction) -> (outcome: Result<
        (),
        TransferError,
    >)
        ensures
            final(self).history() == old(self).history().push(*instruction),
    ;
}

/// An in-memory port: it records every instruction and answers from a
/// script, succeeding until the chosen call index, if any, at which it
/// reports the chosen cause. It moves no funds, so callers can exercise
/// the engine's ordering and fail-fast behaviour against it.
pub struct ScriptedPort {
    /// Every instruction received so far, oldest first.
    pub calls: Vec<TransferInstruction>,
    /// The index of the call that fails, if any; calls at other indices
    /// succeed.
    pub fail_at: Option<usize>,
    /// The cause reported by the failing call.
    pub failure_cause: TransferError,
}

impl ScriptedPort {
    /// A port on which every transfer succeeds.
    pub fn new_reliable() -> (port: ScriptedPort)
        ensures
            port.calls@ == Seq::<TransferInstruction>::empty(),
            port.fail_at is None,
    {
        ScriptedPort { calls: Vec::new(), fail_at: None, failure_cause: TransferError(0) }
    }

    /// A port on which the transfer at call index `index` fails with
    /// `cause` and every other transfer succeeds.
    pub fn new_failing_at(index: usize, cause: TransferError) -> (port: ScriptedPort)
        ensures
            port.calls@ == Seq::<TransferInstruction>::empty(),
            port.fail_at == Some(index),
            port.failure_cause == cause,
    {
        ScriptedPort { calls: Vec::new(), fail_at: Some(index), failure_cause: cause }
    }
}

impl TransferPort for ScriptedPort {
    open spec fn history(&self) -> Seq<TransferInstruction> {
        self.calls@
    }

    fn transfer(&mut self, instruction: &TransferInstruction) -> (outcome: Result<
        (),
        TransferError,
    >) {
        let position = self.calls.len();
        self.calls.push(*instruction);
        match self.fail_at {
            Some(index) => if index == position {
                Err(self.failure_cause)
            } else {
                Ok(())
            },
            None => Ok(()),
        }
    }
}

} // verus!
