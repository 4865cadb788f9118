use vstd::prelude::*;
use crate::error::CoreError;

verus! {

/// What the ledger reports of a submitted transaction.
#[derive(Clone, Debug, PartialEq, Eq)]
pub enum SignatureStatus {
    /// Not yet at the confirmed commitment.
    Pending,
    /// Confirmed and successful.
    Confirmed,
    /// Refused by the ledger or the program, with its reason.
    Failed { reason: String },
}

/// Where a submission stands.
#[derive(Clone, Copy, Debug, PartialEq, Eq, Structural)]
pub enum SubmitPhase {
    /// Signed, not yet sent.
    Ready,
    /// Sent; waiting for the confirmed commitment.
    AwaitingConfirmation,
    /// Confirmed, refused, expired or cut off: nothing more happens.
    Finished,
}

/// What the caller observed since the last step.
#[derive(Clone, Debug, PartialEq, Eq)]
pub enum SubmitEvent {
    /// The current block height, read before the transaction is sent.
    Height { block_height: u64 },
    /// A status poll, with the block height read alongside it.
    Status { status: SignatureStatus, block_height: u64 },
    /// The node could not be reached.
    TransportFailed,
}

/// What the caller must do next.
#[derive(Clone, Debug, PartialEq, Eq)]
pub enum SubmitAction {
    /// Send the signed transaction, then poll its status.
    Send,
    /// Poll the status again.
    Poll,
    /// The transaction is confirmed: its signature is the result.
    Confirmed,
    /// The submission failed for good.
    Fail { error: CoreError },
    /// The event does not fit the phase and changes nothing.
    Ignore,
}

/// One submission of one signed transaction, bounded by the last block
/// height at which its blockhash is still valid.
#[derive(Clone, Copy, Debug, PartialEq, Eq)]
pub struct Submission {
    pub last_valid_block_height: u64,
    pub phase: SubmitPhase,
}

/// The decision taken on an event: the next phase and the action.
pub open spec fn submit_step(phase: SubmitPhase, last_valid: u64, e: SubmitEvent) -> (
    SubmitPhase,
    SubmitAction,
) {
    match (phase, e) {
        (SubmitPhase::Finished, _) => (SubmitPhase::Finished, SubmitAction::Ignore),
        (_, SubmitEvent::TransportFailed) => (
            SubmitPhase::Finished,
            SubmitAction::Fail { error: CoreError::NetworkUnavailable },
        ),
        (SubmitPhase::Ready, SubmitEvent::Height { block_height }) => if block_height > last_valid {
            (SubmitPhase::Finished, SubmitAction::Fail { error: CoreError::BlockhashExpired })
        } else {
            (SubmitPhase::AwaitingConfirmation, SubmitAction::Send)
        },
        (SubmitPhase::AwaitingConfirmation, SubmitEvent::Status { status, block_height }) => match status {
            SignatureStatus::Confirmed => (SubmitPhase::Finished, SubmitAction::Confirmed),
            SignatureStatus::Failed { reason } => (
                SubmitPhase::Finished,
                SubmitAction::Fail { error: CoreError::TransactionRejected { reason } },
            ),
            SignatureStatus::Pending => if block_height > last_valid {
                (SubmitPhase::Finished, SubmitAction::Fail { error: CoreError::BlockhashExpired })
            } else {
                (SubmitPhase::AwaitingConfirmation, SubmitAction::Poll)
            },
        },
        _ => (phase, SubmitAction::Ignore),
    }
}

/// A transaction whose blockhash is past its window when it is about to be
/// sent fails with `BlockhashExpired` and is not sent; a submission that has
/// finished never reports a confirmation afterwards; and a confirmation is
/// reported only on a confirmed status.
pub proof fn lemma_expired_blockhash_fails(last_valid: u64, block_height: u64, e: SubmitEvent)
    ensures
        block_height > last_valid ==> submit_step(
            SubmitPhase::Ready,
            last_valid,
            SubmitEvent::Height { block_height },
        ) == (SubmitPhase::Finished, SubmitAction::Fail { error: CoreError::BlockhashExpired }),
        submit_step(SubmitPhase::Finished, last_valid, e) == (
            SubmitPhase::Finished,
            SubmitAction::Ignore,
        ),
        forall|p: SubmitPhase|
            #![trigger submit_step(p, last_valid, e)]
            submit_step(p, last_valid, e).1 == SubmitAction::Confirmed ==> p
                == SubmitPhase::AwaitingConfirmation && e matches SubmitEvent::Status {
                status: SignatureStatus::Confirmed,
                ..
            },
{
}

impl Submission {
    /// A submission of a transaction whose blockhash is valid up to
    /// `last_valid_block_height`.
    pub fn new(last_valid_block_height: u64) -> (r: Submission)
        ensures
            r.last_valid_block_height == last_valid_block_height,
            r.phase == SubmitPhase::Ready,
    {
        Submission { last_valid_block_height, phase: SubmitPhase::Ready }
    }

    /// Takes the decision on `e` and moves to the next phase.
    pub fn step(&mut self, e: SubmitEvent) -> (r: SubmitAction)
        ensures
            final(self).last_valid_block_height == old(self).last_valid_block_height,
            (final(self).phase, r) == submit_step(old(self).phase, old(self).last_valid_block_height, e),
    {
        let last_valid = self.last_valid_block_height;
        match (self.phase, e) {
            (SubmitPhase::Finished, _) => SubmitAction::Ignore,
            (_, SubmitEvent::TransportFailed) => {
                self.phase = SubmitPhase::Finished;
                SubmitAction::Fail { error: CoreError::NetworkUnavailable }
            },
            (SubmitPhase::Ready, SubmitEvent::Height { block_height }) => {
                if block_height > last_valid {
                    self.phase = SubmitPhase::Finished;
                    SubmitAction::Fail { error: CoreError::BlockhashExpired }
                } else {
                    self.phase = SubmitPhase::AwaitingConfirmation;
                    SubmitAction::Send
                }
            },
            (SubmitPhase::AwaitingConfirmation, SubmitEvent::Status { status, block_height }) => {
                match status {
                    SignatureStatus::Confirmed => {
                        self.phase = SubmitPhase::Finished;
                        SubmitAction::Confirmed
                    },
                    SignatureStatus::Failed { reason } => {
                        self.phase = SubmitPhase::Finished;
                        SubmitAction::Fail { error: CoreError::TransactionRejected { reason } }
                    },
                    SignatureStatus::Pending => {
                        if block_height > last_valid {
                            self.phase = SubmitPhase::Finished;
                            SubmitAction::Fail { error: CoreError::BlockhashExpired }
                        } else {
                            SubmitAction::Poll
                        }
                    },
                }
            },
            _ => SubmitAction::Ignore,
        }
    }
}

/// What a fetch of a transaction record came back with.
#[derive(Clone, Copy, Debug, PartialEq, Eq, Structural)]
pub enum FetchOutcome {
    Found,
    NotYetAvailable,
    NotFound,
    TransportFailed,
}

/// What to do after a fetch of a transaction record.
#[derive(Clone, Debug, PartialEq, Eq)]
pub enum FetchAction {
    /// The record is there.
    Done,
    /// Wait, then fetch again.
    Retry,
    /// Give up with this error.
    Fail { error: CoreError },
}

/// The decision after the fetch numbered `attempt` (from 0) out of at most
/// `max_attempts`: only a record not yet available is fetched again, and only
/// while attempts remain.
pub open spec fn fetch_decision(attempt: u32, max_attempts: u32, outcome: FetchOutcome) -> FetchAction {
    match outcome {
        FetchOutcome::Found => FetchAction::Done,
        FetchOutcome::NotFound => FetchAction::Fail { error: CoreError::NotFound },
        FetchOutcome::TransportFailed => FetchAction::Fail { error: CoreError::NetworkUnavailable },
        FetchOutcome::NotYetAvailable => if attempt as int + 1 < max_attempts as int {
            FetchAction::Retry
        } else {
            FetchAction::Fail { error: CoreError::NotYetAvailable }
        },
    }
}

/// Decides what follows a fetch of a transaction record.
pub fn after_fetch(attempt: u32, max_attempts: u32, outcome: FetchOutcome) -> (r: FetchAction)
    ensures
        r == fetch_decision(attempt, max_attempts, outcome),
{
    match outcome {
        FetchOutcome::Found => FetchAction::Done,
        FetchOutcome::NotFound => FetchAction::Fail { error: CoreError::NotFound },
        FetchOutcome::TransportFailed => FetchAction::Fail { error: CoreError::NetworkUnavailable },
        FetchOutcome::NotYetAvailable => {
            if attempt < max_attempts && max_attempts - attempt > 1 {
                FetchAction::Retry
            } else {
                FetchAction::Fail { error: CoreError::NotYetAvailable }
            }
        },
    }
}

} // verus!
