//! The pipeline that a driver runs: it is told what happened on the network
//! and with the signer, and answers with what to do next.

use crate::config::PipelineConfig;
use crate::confirm::{judge, ConfirmationStatus, PollVerdict};
use crate::error::{FailureKind, Phase, PipelineError};
use crate::fee::{simulated_budget, with_compute_budget, SimulationOutcome};
use crate::laws::law_run_continues;
use crate::ledger::{copy_instructions, BatchResult, InstructionGroup};
use crate::model::{lemma_next_keeps_wf, Draft, PipelineModel};
use crate::protocol::{Action, Blockhash, Event, Stage};
use crate::preflight::check_balance;
use crate::retry::{transition, AttemptOutcome, RetryState};
use crate::submit::{send_options, send_options_at, SendOptions, SubmissionResult};
use solana_program::instruction::Instruction;
use solana_sdk::signature::Signature;
use solana_sdk::transaction::Transaction;
use vstd::prelude::*;

verus! {

/// The batch as the contracts see it: each group by its instructions.
pub open spec fn groups_of(groups: Vec<InstructionGroup>) -> Seq<Seq<Instruction>> {
    Seq::new(groups@.len(), |i: int| groups@[i]@)
}

/// The draft of the element in flight: the instructions of its transaction
/// and the blockhash it is signed with. The pipeline owns the one draft there
/// is, and replaces it when the fee optimizer rebuilds it.
pub struct TransactionDraft {
    instructions: InstructionGroup,
    blockhash: Blockhash,
    budget: Option<u32>,
}

impl View for TransactionDraft {
    type V = Draft;

    closed spec fn view(&self) -> Draft {
        Draft { instructions: self.instructions@, blockhash: self.blockhash, budget: self.budget }
    }
}

impl TransactionDraft {
    /// The instructions of the transaction, in order.
    pub fn instructions(&self) -> (instructions: &InstructionGroup)
        ensures
            instructions@ == self@.instructions,
    {
        &self.instructions
    }

    /// The blockhash that the draft is signed with.
    pub fn blockhash(&self) -> (blockhash: Blockhash)
        ensures
            blockhash == self@.blockhash,
    {
        self.blockhash
    }

    /// The compute-unit limit that the draft declares, if the fee optimizer
    /// set one.
    pub fn compute_unit_limit(&self) -> (limit: Option<u32>)
        ensures
            limit == self@.budget,
    {
        self.budget
    }
}

/// The draft that a pipeline holds, as the contracts see it.
pub open spec fn draft_of(draft: Option<TransactionDraft>) -> Option<Draft> {
    match draft {
        Some(draft) => Some(draft@),
        None => None,
    }
}

/// A borrowed draft, as the contracts see it.
pub open spec fn draft_of_ref(draft: Option<&TransactionDraft>) -> Option<Draft> {
    match draft {
        Some(draft) => Some(draft@),
        None => None,
    }
}

/// The state machine of one batch.
pub struct Pipeline {
    config: PipelineConfig,
    dynamic_cost: bool,
    skip_confirm: bool,
    groups: Vec<InstructionGroup>,
    element: usize,
    stage: Stage,
    draft: Option<TransactionDraft>,
    signed: Option<Transaction>,
    signatures: BatchResult,
}

impl View for Pipeline {
    type V = PipelineModel;

    closed spec fn view(&self) -> PipelineModel {
        PipelineModel {
            config: self.config,
            dynamic_cost: self.dynamic_cost,
            skip_confirm: self.skip_confirm,
            groups: groups_of(self.groups),
            element: self.element,
            stage: self.stage,
            draft: draft_of(self.draft),
            signed: self.signed,
            signatures: self.signatures@,
        }
    }
}

impl Pipeline {
    /// Every pipeline is in one of the states that the model allows.
    #[verifier::type_invariant]
    spec fn well_formed(&self) -> bool {
        self@.wf()
    }

    /// A pipeline for a batch, before anything has happened. With
    /// `dynamic_cost` the fee optimizer runs for each element; with
    /// `skip_confirm` the confirmer is left out.
    pub fn new(
        groups: Vec<InstructionGroup>,
        config: PipelineConfig,
        dynamic_cost: bool,
        skip_confirm: bool,
    ) -> (pipeline: Pipeline)
        ensures
            pipeline@ == PipelineModel::start(groups_of(groups), config, dynamic_cost, skip_confirm),
            pipeline@.wf(),
    {
        let stage = if groups.len() == 0 {
            Stage::Completed
        } else {
            Stage::AwaitingBalance
        };
        Pipeline {
            config,
            dynamic_cost,
            skip_confirm,
            groups,
            element: 0,
            stage,
            draft: None,
            signed: None,
            signatures: Vec::new(),
        }
    }

    /// What the driver has to do now.
    pub fn pending(&self) -> (action: Action)
        ensures
            action == self@.pending(),
    {
        match self.stage {
            Stage::AwaitingBalance => Action::QueryBalance,
            Stage::AwaitingBlockhash => Action::FetchBlockhash,
            Stage::Simulating { .. } => Action::Simulate,
            Stage::AwaitingSignature => Action::Sign,
            Stage::Submitting { failures } => Action::Submit {
                delay_ms: if failures == 0 {
                    0
                } else {
                    self.config.submission_retry_delay_ms
                },
            },
            Stage::Confirming { polls } => Action::Poll {
                delay_ms: if polls == 0 {
                    0
                } else {
                    self.config.confirmation_retry_delay_ms
                },
            },
            Stage::Completed => Action::Complete,
            Stage::Aborted(error) => Action::Abort(error),
        }
    }

    /// Takes in what happened, and gives the pipeline as it stands after it
    /// and what to do next.
    pub fn step(self, event: Event) -> (next: (Pipeline, Action))
        ensures
            next.0@ == self@.next(event),
            next.0@.wf(),
            next.1 == next.0@.pending(),
    {
        proof {
            use_type_invariant(&self);
            lemma_next_keeps_wf(self@, event);
        }
        let next = match self.stage {
            Stage::AwaitingBalance => self.on_balance(event),
            Stage::AwaitingBlockhash => self.on_blockhash(event),
            Stage::Simulating { failures } => self.on_simulation(failures, event),
            Stage::AwaitingSignature => self.on_signature(event),
            Stage::Submitting { failures } => self.on_submission(failures, event),
            Stage::Confirming { polls } => self.on_status(polls, event),
            Stage::Completed => self,
            Stage::Aborted(_) => self,
        };
        let action = next.pending();
        (next, action)
    }

    /// Takes in a whole record of events, one after the other, and gives the
    /// pipeline as it stands after the last of them.
    pub fn replay(self, events: Vec<Event>) -> (next: Pipeline)
        ensures
            next@ == self@.run(events@),
            next@.wf(),
    {
        proof {
            use_type_invariant(&self);
        }
        let ghost start = self@;
        let ghost record = events@;
        let mut pipeline = self;
        for event in iter: events.into_iter()
            invariant
                iter.seq() == record,
                pipeline@ == start.run(record.take(iter.index() as int)),
                pipeline@.wf(),
        {
            proof {
                let seen = record.take(iter.index() as int);
                law_run_continues(start, seen, event);
                assert(seen.push(event) == record.take(iter.index() + 1));
            }
            let (next, _) = pipeline.step(event);
            pipeline = next;
        }
        assert(record.take(record.len() as int) == record);
        pipeline
    }

    /// The index of the element in flight.
    pub fn element(&self) -> (element: usize)
        ensures
            element == self@.element,
    {
        self.element
    }

    /// Where the element in flight stands.
    pub fn stage(&self) -> (stage: Stage)
        ensures
            stage == self@.stage,
    {
        self.stage
    }

    /// The draft of the element in flight, from its blockhash on: what
    /// `Action::Simulate` and `Action::Sign` are about.
    pub fn draft(&self) -> (draft: Option<&TransactionDraft>)
        ensures
            draft_of_ref(draft) == self@.draft,
    {
        self.draft.as_ref()
    }

    /// The signed transaction of the element in flight, from its signature
    /// on: what `Action::Submit` sends.
    pub fn signed_transaction(&self) -> (signed: Option<&Transaction>)
        ensures
            signed matches Some(transaction) ==> self@.signed == Some(*transaction),
            signed is None <==> self@.signed is None,
    {
        self.signed.as_ref()
    }

    /// The options that `Action::Submit` sends with: the transport neither
    /// checks nor resends, and the network must have reached the slot of the
    /// draft's blockhash. There are none before there is a draft.
    pub fn send_options(&self) -> (options: Option<SendOptions>)
        ensures
            options == match self@.draft {
                Some(draft) => Some(send_options_at(draft.blockhash.slot)),
                None => None,
            },
    {
        match &self.draft {
            Some(draft) => Some(send_options(draft.blockhash.slot)),
            None => None,
        }
    }

    /// The signatures recorded so far, in the order of the elements.
    pub fn signatures(&self) -> (signatures: &Vec<Signature>)
        ensures
            signatures@ == self@.signatures,
    {
        &self.signatures
    }

    /// The signature recorded last: what `Action::Poll` asks about.
    pub fn last_signature(&self) -> (signature: Option<Signature>)
        ensures
            signature == if self@.signatures.len() > 0 {
                Some(self@.signatures.last())
            } else {
                None
            },
    {
        let count: usize = self.signatures.len();
        if count > 0 {
            Some(self.signatures[count - 1])
        } else {
            None
        }
    }

    /// What the batch came to, once it is over: every signature in the order
    /// of the elements, or the error of the element that failed. While the
    /// batch is in flight there is neither.
    pub fn finish(self) -> (outcome: Option<Result<BatchResult, PipelineError>>)
        ensures
            match outcome {
                Some(Ok(signatures)) => self@.outcome() == Some(
                    Ok::<Seq<Signature>, PipelineError>(signatures@),
                ),
                Some(Err(error)) => self@.outcome() == Some(
                    Err::<Seq<Signature>, PipelineError>(error),
                ),
                None => self@.outcome() is None,
            },
    {
        match self.stage {
            Stage::Completed => Some(Ok(self.signatures)),
            Stage::Aborted(error) => Some(Err(error)),
            _ => None,
        }
    }

    /// The pipeline with another stage and nothing else changed.
    fn at(self, stage: Stage) -> (next: Pipeline)
        requires
            (PipelineModel { stage, ..self@ }).wf(),
        ensures
            next@ == (PipelineModel { stage, ..self@ }),
    {
        Pipeline { stage, ..self }
    }

    fn abort(self, phase: Phase, kind: FailureKind) -> (next: Pipeline)
        requires
            self@.abort(phase, kind).wf(),
        ensures
            next@ == self@.abort(phase, kind),
    {
        let error = PipelineError { element: self.element, phase, kind };
        self.at(Stage::Aborted(error))
    }

    /// The stage that follows the last phase of the element in flight.
    fn stage_after(&self) -> (stage: Stage)
        requires
            self@.element < self@.groups.len(),
        ensures
            stage == self@.advance().stage,
            self@.element < usize::MAX,
    {
        assert(self@.groups.len() == self.groups.len());
        if self.element + 1 < self.groups.len() {
            Stage::AwaitingBalance
        } else {
            Stage::Completed
        }
    }

    fn advance(self) -> (next: Pipeline)
        requires
            self@.element < self@.groups.len(),
            self@.advance().wf(),
        ensures
            next@ == self@.advance(),
    {
        let stage = self.stage_after();
        Pipeline { element: self.element + 1, stage, draft: None, signed: None, ..self }
    }

    fn on_balance(self, event: Event) -> (next: Pipeline)
        requires
            self@.wf(),
            self@.stage == Stage::AwaitingBalance,
        ensures
            next@ == self@.after_balance(event),
    {
        match event {
            Event::Balance(balance) => match check_balance(balance) {
                Ok(()) => self.at(Stage::AwaitingBlockhash),
                Err(kind) => self.abort(Phase::Preflight, kind),
            },
            Event::TransportFailure => self.abort(Phase::Preflight, FailureKind::TransportError),
            _ => self,
        }
    }

    fn on_blockhash(self, event: Event) -> (next: Pipeline)
        requires
            self@.wf(),
            self@.stage == Stage::AwaitingBlockhash,
        ensures
            next@ == self@.after_blockhash(event),
    {
        match event {
            Event::Blockhash(blockhash) => {
                let instructions = copy_instructions(&self.groups[self.element]);
                let stage = if self.dynamic_cost {
                    Stage::Simulating { failures: 0 }
                } else {
                    Stage::AwaitingSignature
                };
                let draft = TransactionDraft { instructions, blockhash, budget: None };
                Pipeline { stage, draft: Some(draft), ..self }
            },
            Event::TransportFailure => self.abort(
                Phase::BlockhashAcquisition,
                FailureKind::TransportError,
            ),
            _ => self,
        }
    }

    fn on_simulation(self, failures: u64, event: Event) -> (next: Pipeline)
        requires
            self@.wf(),
            self@.stage == (Stage::Simulating { failures }),
        ensures
            next@ == self@.after_simulation(failures, event),
    {
        let outcome = match event {
            Event::Simulation(outcome) => outcome,
            Event::TransportFailure => SimulationOutcome::TransportError,
            _ => {
                return self;
            },
        };
        match simulated_budget(outcome, self.config.compute_unit_margin) {
            Some(limit) => {
                let instructions = with_compute_budget(
                    &self.groups[self.element],
                    limit,
                    self.config.priority_fee_per_unit,
                );
                let blockhash = self.draft.as_ref().unwrap().blockhash;
                let draft = TransactionDraft { instructions, blockhash, budget: Some(limit) };
                Pipeline { stage: Stage::AwaitingSignature, draft: Some(draft), ..self }
            },
            None => match transition(
                RetryState::Attempting { failures },
                AttemptOutcome::Failure,
                self.config.simulation_retry_ceiling,
            ) {
                RetryState::Attempting { failures } => self.at(Stage::Simulating { failures }),
                _ => self.abort(Phase::FeeOptimizer, FailureKind::SimulationFailed),
            },
        }
    }

    fn on_signature(self, event: Event) -> (next: Pipeline)
        requires
            self@.wf(),
            self@.stage == Stage::AwaitingSignature,
        ensures
            next@ == self@.after_signature(event),
    {
        match event {
            Event::Signed(transaction) => Pipeline {
                stage: Stage::Submitting { failures: 0 },
                signed: Some(transaction),
                ..self
            },
            _ => self,
        }
    }

    fn on_submission(self, failures: u64, event: Event) -> (next: Pipeline)
        requires
            self@.wf(),
            self@.stage == (Stage::Submitting { failures }),
        ensures
            next@ == self@.after_submission(failures, event),
    {
        let result = match event {
            Event::Submission(result) => result,
            Event::TransportFailure => SubmissionResult::Rejected,
            _ => {
                return self;
            },
        };
        match result {
            SubmissionResult::Accepted(signature) => {
                let stage = self.stage_after();
                let mut signatures = self.signatures;
                signatures.push(signature);
                if self.skip_confirm {
                    Pipeline {
                        element: self.element + 1,
                        stage,
                        draft: None,
                        signed: None,
                        signatures,
                        ..self
                    }
                } else {
                    Pipeline { stage: Stage::Confirming { polls: 0 }, signatures, ..self }
                }
            },
            SubmissionResult::Rejected => match transition(
                RetryState::Attempting { failures },
                AttemptOutcome::Failure,
                self.config.submission_retry_ceiling,
            ) {
                RetryState::Attempting { failures } => self.at(Stage::Submitting { failures }),
                _ => self.abort(Phase::Submitter, FailureKind::SubmissionFailed),
            },
        }
    }

    fn on_status(self, polls: u64, event: Event) -> (next: Pipeline)
        requires
            self@.wf(),
            self@.stage == (Stage::Confirming { polls }),
        ensures
            next@ == self@.after_status(polls, event),
    {
        let status = match event {
            Event::Status(status) => status,
            Event::TransportFailure => ConfirmationStatus::Unseen,
            _ => {
                return self;
            },
        };
        match judge(status, self.config.confirmation_threshold) {
            PollVerdict::Reached => self.advance(),
            PollVerdict::Failed => self.abort(Phase::Confirmer, FailureKind::OnChainExecutionError),
            PollVerdict::Below => match transition(
                RetryState::Attempting { failures: polls },
                AttemptOutcome::Failure,
                self.config.confirmation_retry_ceiling,
            ) {
                RetryState::Attempting { failures } => self.at(Stage::Confirming { polls: failures }),
                _ => self.abort(Phase::Confirmer, FailureKind::ConfirmationTimeout),
            },
        }
    }
}

} // verus!
