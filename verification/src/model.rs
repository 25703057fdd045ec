//! The pipeline as a mathematical state machine: its state, what each event
//! makes of it, and what it asks for next.

use crate::config::PipelineConfig;
use crate::confirm::{verdict_of, ConfirmationStatus, PollVerdict};
use crate::error::{arises_in, FailureKind, Phase, PipelineError};
use crate::fee::{budget_of, budgeted, SimulationOutcome};
use crate::protocol::{Action, Blockhash, Event, Stage};
use crate::retry::{retry_step, AttemptOutcome, RetryState};
use crate::submit::SubmissionResult;
use solana_program::instruction::Instruction;
use solana_sdk::signature::Signature;
use solana_sdk::transaction::Transaction;
use vstd::prelude::*;

verus! {

/// The draft of the element in flight.
pub struct Draft {
    /// The instructions of the transaction, in order.
    pub instructions: Seq<Instruction>,
    /// The blockhash that it is signed with.
    pub blockhash: Blockhash,
    /// The compute-unit limit that it declares, if the fee optimizer set one.
    pub budget: Option<u32>,
}

/// The state of a pipeline.
pub struct PipelineModel {
    pub config: PipelineConfig,
    /// Whether the fee optimizer runs.
    pub dynamic_cost: bool,
    /// Whether the confirmer is left out.
    pub skip_confirm: bool,
    /// The batch: one instruction group per element.
    pub groups: Seq<Seq<Instruction>>,
    /// The index of the element in flight.
    pub element: usize,
    pub stage: Stage,
    /// The one live draft, from the blockhash on.
    pub draft: Option<Draft>,
    /// The signed transaction, from the signature on.
    pub signed: Option<Transaction>,
    /// The signatures of the elements submitted so far, in their order.
    pub signatures: Seq<Signature>,
}

/// The simulation that an event reports while simulating, if it reports one.
pub open spec fn simulation_in(event: Event) -> Option<SimulationOutcome> {
    match event {
        Event::Simulation(outcome) => Some(outcome),
        Event::TransportFailure => Some(SimulationOutcome::TransportError),
        _ => None,
    }
}

/// The submission that an event reports while submitting, if it reports one.
pub open spec fn submission_in(event: Event) -> Option<SubmissionResult> {
    match event {
        Event::Submission(result) => Some(result),
        Event::TransportFailure => Some(SubmissionResult::Rejected),
        _ => None,
    }
}

/// The status that an event reports while confirming, if it reports one. A
/// poll that did not get through has not seen the transaction.
pub open spec fn status_in(event: Event) -> Option<ConfirmationStatus> {
    match event {
        Event::Status(status) => Some(status),
        Event::TransportFailure => Some(ConfirmationStatus::Unseen),
        _ => None,
    }
}

impl PipelineModel {
    /// The state before anything has happened. An empty batch is complete
    /// from the start.
    pub open spec fn start(
        groups: Seq<Seq<Instruction>>,
        config: PipelineConfig,
        dynamic_cost: bool,
        skip_confirm: bool,
    ) -> PipelineModel {
        PipelineModel {
            config,
            dynamic_cost,
            skip_confirm,
            groups,
            element: 0,
            stage: if groups.len() == 0 {
                Stage::Completed
            } else {
                Stage::AwaitingBalance
            },
            draft: None,
            signed: None,
            signatures: Seq::empty(),
        }
    }

    /// The instruction group of the element in flight.
    pub open spec fn group(self) -> Seq<Instruction> {
        self.groups[self.element as int]
    }

    /// What the state asks its driver to do. The first send and the first
    /// poll of an element come at once, the later ones after the delay of
    /// their phase.
    pub open spec fn pending(self) -> Action {
        match self.stage {
            Stage::AwaitingBalance => Action::QueryBalance,
            Stage::AwaitingBlockhash => Action::FetchBlockhash,
            Stage::Simulating { .. } => Action::Simulate,
            Stage::AwaitingSignature => Action::Sign,
            Stage::Submitting { failures } => Action::Submit {
                delay_ms: if failures == 0 {
                    0
                } else {
                    self.config.submission_retry_delay_ms
                },
            },
            Stage::Confirming { polls } => Action::Poll {
                delay_ms: if polls == 0 {
                    0
                } else {
                    self.config.confirmation_retry_delay_ms
                },
            },
            Stage::Completed => Action::Complete,
            Stage::Aborted(error) => Action::Abort(error),
        }
    }

    /// What the batch came to, once it is over: the signatures in the order
    /// of the elements, or the error of the element that failed.
    pub open spec fn outcome(self) -> Option<Result<Seq<Signature>, PipelineError>> {
        match self.stage {
            Stage::Completed => Some(Ok(self.signatures)),
            Stage::Aborted(error) => Some(Err(error)),
            _ => None,
        }
    }

    /// The state after the element in flight has failed for good.
    pub open spec fn abort(self, phase: Phase, kind: FailureKind) -> PipelineModel {
        PipelineModel {
            stage: Stage::Aborted(PipelineError { element: self.element, phase, kind }),
            ..self
        }
    }

    /// The state after the element in flight went through: the next element
    /// starts with nothing of this one, or the batch is complete.
    pub open spec fn advance(self) -> PipelineModel {
        PipelineModel {
            element: (self.element + 1) as usize,
            stage: if self.element + 1 < self.groups.len() {
                Stage::AwaitingBalance
            } else {
                Stage::Completed
            },
            draft: None,
            signed: None,
            ..self
        }
    }

    /// After the balance query: a positive balance goes on to the blockhash,
    /// anything else ends the batch, with no retry.
    pub open spec fn after_balance(self, event: Event) -> PipelineModel {
        match event {
            Event::Balance(balance) => if balance > 0 {
                PipelineModel { stage: Stage::AwaitingBlockhash, ..self }
            } else {
                self.abort(Phase::Preflight, FailureKind::InsufficientFunds)
            },
            Event::TransportFailure => self.abort(Phase::Preflight, FailureKind::TransportError),
            _ => self,
        }
    }

    /// After the blockhash fetch: the draft is made of the group as it is,
    /// and goes to the fee optimizer if that runs, else to the signer.
    pub open spec fn after_blockhash(self, event: Event) -> PipelineModel {
        match event {
            Event::Blockhash(blockhash) => PipelineModel {
                stage: if self.dynamic_cost {
                    Stage::Simulating { failures: 0 }
                } else {
                    Stage::AwaitingSignature
                },
                draft: Some(Draft { instructions: self.group(), blockhash, budget: None }),
                ..self
            },
            Event::TransportFailure => self.abort(
                Phase::BlockhashAcquisition,
                FailureKind::TransportError,
            ),
            _ => self,
        }
    }

    /// After a simulation: a count that yields a limit rebuilds the draft
    /// with the limit, the configured price and the group, and goes to the
    /// signer. Any other simulation is a failed attempt: the same draft is
    /// simulated again, until the ceiling is exceeded.
    pub open spec fn after_simulation(self, failures: u64, event: Event) -> PipelineModel {
        match simulation_in(event) {
            None => self,
            Some(outcome) => match budget_of(outcome, self.config.compute_unit_margin) {
                Some(limit) => PipelineModel {
                    stage: Stage::AwaitingSignature,
                    draft: Some(
                        Draft {
                            instructions: budgeted(
                                self.group(),
                                limit,
                                self.config.priority_fee_per_unit,
                            ),
                            blockhash: self.draft.unwrap().blockhash,
                            budget: Some(limit),
                        },
                    ),
                    ..self
                },
                None => match retry_step(
                    RetryState::Attempting { failures },
                    AttemptOutcome::Failure,
                    self.config.simulation_retry_ceiling,
                ) {
                    RetryState::Attempting { failures } => PipelineModel {
                        stage: Stage::Simulating { failures },
                        ..self
                    },
                    _ => self.abort(Phase::FeeOptimizer, FailureKind::SimulationFailed),
                },
            },
        }
    }

    /// After the signer: the signed transaction is kept and sent at once.
    pub open spec fn after_signature(self, event: Event) -> PipelineModel {
        match event {
            Event::Signed(transaction) => PipelineModel {
                stage: Stage::Submitting { failures: 0 },
                signed: Some(transaction),
                ..self
            },
            _ => self,
        }
    }

    /// After a submission: an accepted one records its signature, and goes
    /// to the confirmer or, if that is left out, to the next element. A
    /// failed one sends the same signed transaction again, until the ceiling
    /// is exceeded.
    pub open spec fn after_submission(self, failures: u64, event: Event) -> PipelineModel {
        match submission_in(event) {
            None => self,
            Some(SubmissionResult::Accepted(signature)) => {
                let recorded = PipelineModel {
                    signatures: self.signatures.push(signature),
                    ..self
                };
                if self.skip_confirm {
                    recorded.advance()
                } else {
                    PipelineModel { stage: Stage::Confirming { polls: 0 }, ..recorded }
                }
            },
            Some(SubmissionResult::Rejected) => match retry_step(
                RetryState::Attempting { failures },
                AttemptOutcome::Failure,
                self.config.submission_retry_ceiling,
            ) {
                RetryState::Attempting { failures } => PipelineModel {
                    stage: Stage::Submitting { failures },
                    ..self
                },
                _ => self.abort(Phase::Submitter, FailureKind::SubmissionFailed),
            },
        }
    }

    /// After a poll: a status at the threshold ends the element, a failure
    /// on chain ends the batch, and a status below the threshold is polled
    /// again, until the ceiling is exceeded.
    pub open spec fn after_status(self, polls: u64, event: Event) -> PipelineModel {
        match status_in(event) {
            None => self,
            Some(status) => match verdict_of(status, self.config.confirmation_threshold) {
                PollVerdict::Reached => self.advance(),
                PollVerdict::Failed => self.abort(
                    Phase::Confirmer,
                    FailureKind::OnChainExecutionError,
                ),
                PollVerdict::Below => match retry_step(
                    RetryState::Attempting { failures: polls },
                    AttemptOutcome::Failure,
                    self.config.confirmation_retry_ceiling,
                ) {
                    RetryState::Attempting { failures } => PipelineModel {
                        stage: Stage::Confirming { polls: failures },
                        ..self
                    },
                    _ => self.abort(Phase::Confirmer, FailureKind::ConfirmationTimeout),
                },
            },
        }
    }

    /// The state after an event. An event that does not answer what the
    /// state asked for changes nothing, and so does any event once the batch
    /// is over.
    pub open spec fn next(self, event: Event) -> PipelineModel {
        match self.stage {
            Stage::AwaitingBalance => self.after_balance(event),
            Stage::AwaitingBlockhash => self.after_blockhash(event),
            Stage::Simulating { failures } => self.after_simulation(failures, event),
            Stage::AwaitingSignature => self.after_signature(event),
            Stage::Submitting { failures } => self.after_submission(failures, event),
            Stage::Confirming { polls } => self.after_status(polls, event),
            Stage::Completed => self,
            Stage::Aborted(_) => self,
        }
    }

    /// The state after the events of `events`, one after the other.
    pub open spec fn run(self, events: Seq<Event>) -> PipelineModel
        decreases events.len(),
    {
        if events.len() == 0 {
            self
        } else {
            self.run(events.drop_last()).next(events.last())
        }
    }

    /// Whether the draft is what its stage says: the group as it is, or the
    /// group behind the limit that the draft declares and the configured
    /// price.
    pub open spec fn draft_is_current(self) -> bool {
        &&& self.draft is Some
        &&& self.draft.unwrap().instructions == match self.draft.unwrap().budget {
            Some(limit) => budgeted(self.group(), limit, self.config.priority_fee_per_unit),
            None => self.group(),
        }
    }

    /// The states that a pipeline can be in.
    pub open spec fn wf(self) -> bool {
        &&& self.groups.len() <= usize::MAX
        &&& self.element <= self.groups.len()
        &&& match self.stage {
            Stage::AwaitingBalance | Stage::AwaitingBlockhash => {
                &&& self.element < self.groups.len()
                &&& self.draft is None
                &&& self.signed is None
                &&& self.signatures.len() == self.element
            },
            Stage::Simulating { failures } => {
                &&& self.element < self.groups.len()
                &&& self.dynamic_cost
                &&& failures <= self.config.simulation_retry_ceiling
                &&& self.draft_is_current()
                &&& self.draft.unwrap().budget is None
                &&& self.signed is None
                &&& self.signatures.len() == self.element
            },
            Stage::AwaitingSignature => {
                &&& self.element < self.groups.len()
                &&& self.draft_is_current()
                &&& self.draft.unwrap().budget is Some <==> self.dynamic_cost
                &&& self.signed is None
                &&& self.signatures.len() == self.element
            },
            Stage::Submitting { failures } => {
                &&& self.element < self.groups.len()
                &&& failures <= self.config.submission_retry_ceiling
                &&& self.draft_is_current()
                &&& self.draft.unwrap().budget is Some <==> self.dynamic_cost
                &&& self.signed is Some
                &&& self.signatures.len() == self.element
            },
            Stage::Confirming { polls } => {
                &&& self.element < self.groups.len()
                &&& !self.skip_confirm
                &&& polls <= self.config.confirmation_retry_ceiling
                &&& self.draft_is_current()
                &&& self.draft.unwrap().budget is Some <==> self.dynamic_cost
                &&& self.signed is Some
                &&& self.signatures.len() == self.element + 1
            },
            Stage::Completed => {
                &&& self.element == self.groups.len()
                &&& self.draft is None
                &&& self.signed is None
                &&& self.signatures.len() == self.groups.len()
            },
            Stage::Aborted(error) => {
                &&& self.element < self.groups.len()
                &&& error.element == self.element
                &&& arises_in(error.kind, error.phase)
                &&& self.element <= self.signatures.len() <= self.element + 1
            },
        }
    }
}

/// Every step keeps a pipeline among the states it can be in.
pub proof fn lemma_next_keeps_wf(state: PipelineModel, event: Event)
    requires
        state.wf(),
    ensures
        state.next(event).wf(),
{
}

} // verus!
