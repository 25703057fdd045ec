//! What holds of every run of the pipeline.

use crate::config::PipelineConfig;
use crate::confirm::{verdict_of, ConfirmationStatus, PollVerdict};
use crate::error::{FailureKind, Phase, PipelineError};
use crate::fee::{budget_of, budgeted, compute_budget, SimulationOutcome};
use crate::model::{simulation_in, status_in, submission_in, Draft, PipelineModel};
use crate::protocol::{Action, Blockhash, Event, Stage};
use crate::submit::SubmissionResult;
use solana_program::instruction::Instruction;
use solana_sdk::signature::Signature;
use solana_sdk::transaction::Transaction;
use vstd::prelude::*;

verus! {

/// Whether an event, met while simulating, counts as a failed simulation.
pub open spec fn is_failed_simulation(event: Event, margin: u32) -> bool {
    simulation_in(event) matches Some(outcome) && budget_of(outcome, margin) is None
}

/// Whether an event, met while submitting, counts as a failed submission.
pub open spec fn is_failed_submission(event: Event) -> bool {
    submission_in(event) == Some(SubmissionResult::Rejected)
}

/// Whether an event, met while confirming, counts as a poll below the
/// threshold.
pub open spec fn is_poll_below(event: Event, state: PipelineModel) -> bool {
    status_in(event) matches Some(status) && verdict_of(
        status,
        state.config.confirmation_threshold,
    ) == PollVerdict::Below
}

/// A run that is continued by one event ends where that event leads from the
/// end of the run.
pub proof fn law_run_continues(state: PipelineModel, events: Seq<Event>, event: Event)
    ensures
        state.run(events.push(event)) == state.run(events).next(event),
{
    assert(events.push(event).drop_last() =~= events);
}

/// A run in two parts ends where the second part leads from the end of the
/// first.
pub proof fn law_run_splits(state: PipelineModel, first: Seq<Event>, second: Seq<Event>)
    ensures
        state.run(first + second) == state.run(first).run(second),
    decreases second.len(),
{
    if second.len() == 0 {
        assert(first + second =~= first);
    } else {
        law_run_splits(state, first, second.drop_last());
        assert((first + second).drop_last() =~= first + second.drop_last());
    }
}

/// A run keeps a pipeline among the states it can be in.
pub proof fn law_run_keeps_wf(state: PipelineModel, events: Seq<Event>)
    requires
        state.wf(),
    ensures
        state.run(events).wf(),
    decreases events.len(),
{
    if events.len() > 0 {
        law_run_keeps_wf(state, events.drop_last());
    }
}

/// A run changes neither the batch nor how it is processed.
pub proof fn law_run_keeps_groups(state: PipelineModel, events: Seq<Event>)
    ensures
        state.run(events).groups == state.groups,
        state.run(events).config == state.config,
        state.run(events).dynamic_cost == state.dynamic_cost,
        state.run(events).skip_confirm == state.skip_confirm,
    decreases events.len(),
{
    if events.len() > 0 {
        law_run_keeps_groups(state, events.drop_last());
    }
}

/// Once the batch is over, nothing changes it: whatever is reported, the
/// state stays, and what it asks for is no request.
pub proof fn law_final_state_stays(state: PipelineModel, events: Seq<Event>)
    requires
        state.stage.is_final(),
    ensures
        state.run(events) == state,
        state.run(events).pending() is Complete || state.run(events).pending() is Abort,
    decreases events.len(),
{
    if events.len() > 0 {
        law_final_state_stays(state, events.drop_last());
    }
}

/// The flow goes from top to bottom: a step never takes an element back to
/// an earlier stage, nor the batch back to an earlier element.
pub proof fn law_step_goes_forward(state: PipelineModel, event: Event)
    requires
        state.wf(),
    ensures
        state.next(event).element >= state.element,
        state.next(event).element == state.element ==> state.next(event).stage.rank()
            >= state.stage.rank(),
{
}

/// The flow goes from top to bottom over a whole run.
pub proof fn law_run_goes_forward(state: PipelineModel, events: Seq<Event>)
    requires
        state.wf(),
    ensures
        state.run(events).element >= state.element,
        state.run(events).element == state.element ==> state.run(events).stage.rank()
            >= state.stage.rank(),
    decreases events.len(),
{
    if events.len() > 0 {
        law_run_goes_forward(state, events.drop_last());
        law_run_keeps_wf(state, events.drop_last());
        law_step_goes_forward(state.run(events.drop_last()), events.last());
    }
}

/// Whatever the pipeline asks for, it holds what the request is about: a
/// draft to simulate or to sign, a signed transaction and the slot of its
/// blockhash to send, a signature to poll.
pub proof fn law_request_has_its_subject(state: PipelineModel)
    requires
        state.wf(),
    ensures
        state.pending() is Simulate || state.pending() is Sign ==> state.draft is Some,
        state.pending() is Submit ==> state.signed is Some && state.draft is Some,
        state.pending() is Poll ==> state.signatures.len() > 0,
{
}

/// A balance that is not strictly positive ends the batch with
/// `InsufficientFunds` for the element in flight, and no request is made
/// after the balance query, whatever is reported from then on.
pub proof fn law_no_funds_no_request(state: PipelineModel, events: Seq<Event>)
    requires
        state.wf(),
        state.stage == Stage::AwaitingBalance,
    ensures
        state.next(Event::Balance(0)).run(events).pending() == Action::Abort(
            PipelineError {
                element: state.element,
                phase: Phase::Preflight,
                kind: FailureKind::InsufficientFunds,
            },
        ),
        state.next(Event::Balance(0)).run(events).signatures == state.signatures,
{
    law_final_state_stays(state.next(Event::Balance(0)), events);
}

/// While simulations fail within the ceiling, the same draft is simulated
/// again and only the count of failures changes.
pub proof fn law_failed_simulations_are_counted(state: PipelineModel, failures: Seq<Event>)
    requires
        state.wf(),
        state.stage == (Stage::Simulating { failures: 0 }),
        failures.len() <= state.config.simulation_retry_ceiling,
        forall|i: int|
            0 <= i < failures.len() ==> is_failed_simulation(
                #[trigger] failures[i],
                state.config.compute_unit_margin,
            ),
    ensures
        state.run(failures) == (PipelineModel {
            stage: Stage::Simulating { failures: failures.len() as u64 },
            ..state
        }),
        state.run(failures).pending() == Action::Simulate,
    decreases failures.len(),
{
    if failures.len() > 0 {
        law_failed_simulations_are_counted(state, failures.drop_last());
        assert(is_failed_simulation(failures.last(), state.config.compute_unit_margin));
    }
}

/// Failed simulations within the ceiling and then one that reports a count:
/// the draft is rebuilt with a limit of that count and the margin, the
/// configured price, and the group as it was, and goes to the signer.
pub proof fn law_simulation_succeeds_after_failures(
    state: PipelineModel,
    failures: Seq<Event>,
    consumed: u64,
)
    requires
        state.wf(),
        state.stage == (Stage::Simulating { failures: 0 }),
        failures.len() <= state.config.simulation_retry_ceiling,
        forall|i: int|
            0 <= i < failures.len() ==> is_failed_simulation(
                #[trigger] failures[i],
                state.config.compute_unit_margin,
            ),
        consumed + state.config.compute_unit_margin <= u32::MAX,
    ensures
        state.run(failures.push(Event::Simulation(SimulationOutcome::Consumed(consumed))))
            == (PipelineModel {
            stage: Stage::AwaitingSignature,
            draft: Some(
                Draft {
                    instructions: budgeted(
                        state.group(),
                        (consumed + state.config.compute_unit_margin) as u32,
                        state.config.priority_fee_per_unit,
                    ),
                    blockhash: state.draft.unwrap().blockhash,
                    budget: Some((consumed + state.config.compute_unit_margin) as u32),
                },
            ),
            ..state
        }),
        state.run(
            failures.push(Event::Simulation(SimulationOutcome::Consumed(consumed))),
        ).pending() == Action::Sign,
{
    law_failed_simulations_are_counted(state, failures);
    law_run_continues(state, failures, Event::Simulation(SimulationOutcome::Consumed(consumed)));
}

/// One failed simulation more than the ceiling ends the batch with
/// `SimulationFailed` for the element in flight.
pub proof fn law_simulation_gives_up(state: PipelineModel, failures: Seq<Event>)
    requires
        state.wf(),
        state.stage == (Stage::Simulating { failures: 0 }),
        failures.len() == state.config.simulation_retry_ceiling + 1,
        forall|i: int|
            0 <= i < failures.len() ==> is_failed_simulation(
                #[trigger] failures[i],
                state.config.compute_unit_margin,
            ),
    ensures
        state.run(failures).outcome() == Some(
            Err::<Seq<Signature>, PipelineError>(
                PipelineError {
                    element: state.element,
                    phase: Phase::FeeOptimizer,
                    kind: FailureKind::SimulationFailed,
                },
            ),
        ),
{
    law_failed_simulations_are_counted(state, failures.drop_last());
    assert(is_failed_simulation(failures.last(), state.config.compute_unit_margin));
}

/// While submissions fail within the ceiling, the same signed transaction is
/// sent again, after the delay, and only the count of failures changes.
pub proof fn law_failed_submissions_are_counted(state: PipelineModel, failures: Seq<Event>)
    requires
        state.wf(),
        state.stage == (Stage::Submitting { failures: 0 }),
        failures.len() <= state.config.submission_retry_ceiling,
        forall|i: int| 0 <= i < failures.len() ==> is_failed_submission(#[trigger] failures[i]),
    ensures
        state.run(failures) == (PipelineModel {
            stage: Stage::Submitting { failures: failures.len() as u64 },
            ..state
        }),
        failures.len() > 0 ==> state.run(failures).pending() == (Action::Submit {
            delay_ms: state.config.submission_retry_delay_ms,
        }),
    decreases failures.len(),
{
    if failures.len() > 0 {
        law_failed_submissions_are_counted(state, failures.drop_last());
        assert(is_failed_submission(failures.last()));
    }
}

/// Fewer than `ceiling + 1` failed submissions and then an accepted one: the
/// signature that came back is recorded for the element, and the
/// transaction is not sent again.
pub proof fn law_submission_succeeds_after_failures(
    state: PipelineModel,
    failures: Seq<Event>,
    signature: Signature,
)
    requires
        state.wf(),
        state.stage == (Stage::Submitting { failures: 0 }),
        failures.len() <= state.config.submission_retry_ceiling,
        forall|i: int| 0 <= i < failures.len() ==> is_failed_submission(#[trigger] failures[i]),
    ensures
        ({
            let end = state.run(
                failures.push(Event::Submission(SubmissionResult::Accepted(signature))),
            );
            &&& end.signatures == state.signatures.push(signature)
            &&& end.signatures[state.element as int] == signature
            &&& !(end.pending() is Submit)
            &&& end == if state.skip_confirm {
                (PipelineModel { signatures: state.signatures.push(signature), ..state }).advance()
            } else {
                PipelineModel {
                    stage: Stage::Confirming { polls: 0 },
                    signatures: state.signatures.push(signature),
                    ..state
                }
            }
        }),
{
    law_failed_submissions_are_counted(state, failures);
    law_run_continues(state, failures, Event::Submission(SubmissionResult::Accepted(signature)));
}

/// Exactly `ceiling + 1` failed submissions end the batch with
/// `SubmissionFailed` for the element in flight, and no signature of it is
/// recorded.
pub proof fn law_submission_gives_up(state: PipelineModel, failures: Seq<Event>)
    requires
        state.wf(),
        state.stage == (Stage::Submitting { failures: 0 }),
        failures.len() == state.config.submission_retry_ceiling + 1,
        forall|i: int| 0 <= i < failures.len() ==> is_failed_submission(#[trigger] failures[i]),
    ensures
        state.run(failures).outcome() == Some(
            Err::<Seq<Signature>, PipelineError>(
                PipelineError {
                    element: state.element,
                    phase: Phase::Submitter,
                    kind: FailureKind::SubmissionFailed,
                },
            ),
        ),
        state.run(failures).signatures == state.signatures,
{
    law_failed_submissions_are_counted(state, failures.drop_last());
    assert(is_failed_submission(failures.last()));
}

/// A transaction is signed once and sent as it was signed: as long as an
/// element is being submitted, whatever was reported in between, the signed
/// transaction and the draft are those of the first send.
pub proof fn law_resubmission_sends_the_same(state: PipelineModel, events: Seq<Event>)
    requires
        state.wf(),
        state.stage is Submitting,
        state.run(events).stage is Submitting,
        state.run(events).element == state.element,
    ensures
        state.run(events).signed == state.signed,
        state.run(events).draft == state.draft,
        state.run(events).signatures == state.signatures,
    decreases events.len(),
{
    if events.len() > 0 {
        let before = state.run(events.drop_last());
        law_run_keeps_wf(state, events.drop_last());
        law_run_goes_forward(state, events.drop_last());
        law_step_goes_forward(before, events.last());
        law_resubmission_sends_the_same(state, events.drop_last());
    }
}

/// Once signed, a transaction is not touched again: as long as its element
/// is in flight, whatever is reported, the pipeline holds the transaction as
/// it was signed and the draft that it was signed from.
pub proof fn law_signed_draft_is_kept(state: PipelineModel, events: Seq<Event>)
    requires
        state.wf(),
        state.signed is Some,
        state.run(events).element == state.element,
    ensures
        state.run(events).signed == state.signed,
        state.run(events).draft == state.draft,
    decreases events.len(),
{
    if events.len() > 0 {
        let before = state.run(events.drop_last());
        law_run_keeps_wf(state, events.drop_last());
        law_run_goes_forward(state, events.drop_last());
        law_step_goes_forward(before, events.last());
        law_signed_draft_is_kept(state, events.drop_last());
    }
}

/// While polls stay below the threshold within the ceiling, the signature is
/// polled again, after the delay, and only the count of polls changes.
pub proof fn law_polls_below_are_counted(state: PipelineModel, polls: Seq<Event>)
    requires
        state.wf(),
        state.stage == (Stage::Confirming { polls: 0 }),
        polls.len() <= state.config.confirmation_retry_ceiling,
        forall|i: int| 0 <= i < polls.len() ==> is_poll_below(#[trigger] polls[i], state),
    ensures
        state.run(polls) == (PipelineModel {
            stage: Stage::Confirming { polls: polls.len() as u64 },
            ..state
        }),
        polls.len() > 0 ==> state.run(polls).pending() == (Action::Poll {
            delay_ms: state.config.confirmation_retry_delay_ms,
        }),
    decreases polls.len(),
{
    if polls.len() > 0 {
        law_polls_below_are_counted(state, polls.drop_last());
        assert(is_poll_below(polls.last(), state));
    }
}

/// Polls below the threshold within the ceiling and then one at the
/// threshold or beyond: the element is confirmed, and the batch goes on to
/// the next element or is complete.
pub proof fn law_confirmation_succeeds(state: PipelineModel, polls: Seq<Event>, reached: Event)
    requires
        state.wf(),
        state.stage == (Stage::Confirming { polls: 0 }),
        polls.len() <= state.config.confirmation_retry_ceiling,
        forall|i: int| 0 <= i < polls.len() ==> is_poll_below(#[trigger] polls[i], state),
        status_in(reached) matches Some(status) && verdict_of(
            status,
            state.config.confirmation_threshold,
        ) == PollVerdict::Reached,
    ensures
        state.run(polls.push(reached)) == state.advance(),
        !(state.run(polls.push(reached)).stage is Aborted),
        state.run(polls.push(reached)).signatures == state.signatures,
{
    law_polls_below_are_counted(state, polls);
    law_run_continues(state, polls, reached);
}

/// One poll below the threshold more than the ceiling ends the batch with
/// `ConfirmationTimeout` for the element in flight.
pub proof fn law_confirmation_times_out(state: PipelineModel, polls: Seq<Event>)
    requires
        state.wf(),
        state.stage == (Stage::Confirming { polls: 0 }),
        polls.len() == state.config.confirmation_retry_ceiling + 1,
        forall|i: int| 0 <= i < polls.len() ==> is_poll_below(#[trigger] polls[i], state),
    ensures
        state.run(polls).outcome() == Some(
            Err::<Seq<Signature>, PipelineError>(
                PipelineError {
                    element: state.element,
                    phase: Phase::Confirmer,
                    kind: FailureKind::ConfirmationTimeout,
                },
            ),
        ),
{
    law_polls_below_are_counted(state, polls.drop_last());
    assert(is_poll_below(polls.last(), state));
}

/// A failure for good ends the whole batch: the error names the element that
/// was in flight, the batch comes to that error, and whatever is reported
/// afterwards no request is made and no signature of a later element is
/// recorded.
pub proof fn law_abort_ends_the_batch(state: PipelineModel, event: Event, later: Seq<Event>)
    requires
        state.wf(),
        !state.stage.is_final(),
        state.next(event).stage is Aborted,
    ensures
        ({
            let end = state.next(event).run(later);
            &&& end.outcome() matches Some(Err(error))
            &&& error.element == state.element
            &&& end.pending() == Action::Abort(error)
            &&& end.signatures.len() <= state.element + 1
            &&& end.signatures == state.signatures
        }),
{
    law_final_state_stays(state.next(event), later);
}

/// The signatures come in the order of the elements: a step only ever adds
/// the signature of the element in flight, at the index of that element,
/// behind those of the elements before it.
pub proof fn law_step_keeps_signature_order(state: PipelineModel, event: Event)
    requires
        state.wf(),
    ensures
        state.next(event).signatures == state.signatures || (exists|signature: Signature|
            {
                &&& submission_in(event) == Some(SubmissionResult::Accepted(signature))
                &&& state.stage is Submitting
                &&& state.signatures.len() == state.element
                &&& state.next(event).signatures == state.signatures.push(signature)
            }),
{
    if state.stage is Submitting {
        if let Some(SubmissionResult::Accepted(signature)) = submission_in(event) {
            assert(state.next(event).signatures == state.signatures.push(signature));
        }
    }
}

/// Over a whole run the signatures recorded before it stay where they are,
/// and there is one signature for each element that was submitted.
pub proof fn law_run_keeps_signature_order(state: PipelineModel, events: Seq<Event>)
    requires
        state.wf(),
    ensures
        state.signatures.len() <= state.run(events).signatures.len(),
        state.run(events).signatures.take(state.signatures.len() as int) == state.signatures,
        state.run(events).outcome() matches Some(Ok(signatures)) ==> signatures.len()
            == state.groups.len(),
    decreases events.len(),
{
    if events.len() > 0 {
        let before = state.run(events.drop_last());
        law_run_keeps_signature_order(state, events.drop_last());
        law_run_keeps_wf(state, events.drop_last());
        law_step_keeps_signature_order(before, events.last());
        law_run_keeps_groups(state, events.drop_last());
        assert(state.run(events).wf()) by {
            law_run_keeps_wf(state, events);
        }
        law_run_keeps_groups(state, events);
    } else {
        assert(state.signatures.take(state.signatures.len() as int) == state.signatures);
    }
}

/// What is reported of one element that goes through every phase.
pub struct Passage {
    pub balance: u64,
    pub blockhash: Blockhash,
    /// The units that the simulation consumed, where the fee optimizer runs.
    pub consumed: u64,
    pub transaction: Transaction,
    pub signature: Signature,
    /// The status that the first poll finds, where the confirmer runs.
    pub status: ConfirmationStatus,
}

impl Passage {
    /// Whether every phase succeeds at its first attempt on what is
    /// reported.
    pub open spec fn succeeds(self, config: PipelineConfig) -> bool {
        &&& self.balance > 0
        &&& compute_budget(self.consumed, config.compute_unit_margin) is Some
        &&& verdict_of(self.status, config.confirmation_threshold) == PollVerdict::Reached
    }

    /// The events of the element, in the order of its phases.
    pub open spec fn events(self, dynamic_cost: bool, skip_confirm: bool) -> Seq<Event> {
        let fetched = seq![Event::Balance(self.balance), Event::Blockhash(self.blockhash)];
        let simulated = if dynamic_cost {
            fetched.push(Event::Simulation(SimulationOutcome::Consumed(self.consumed)))
        } else {
            fetched
        };
        let submitted = simulated.push(Event::Signed(self.transaction)).push(
            Event::Submission(SubmissionResult::Accepted(self.signature)),
        );
        if skip_confirm {
            submitted
        } else {
            submitted.push(Event::Status(self.status))
        }
    }
}

/// The events of a batch whose elements all go through, one element after
/// the other.
pub open spec fn batch_events(passages: Seq<Passage>, dynamic_cost: bool, skip_confirm: bool) -> Seq<
    Event,
>
    decreases passages.len(),
{
    if passages.len() == 0 {
        Seq::empty()
    } else {
        batch_events(passages.drop_last(), dynamic_cost, skip_confirm) + passages.last().events(
            dynamic_cost,
            skip_confirm,
        )
    }
}

/// The signatures of the passages, in their order.
pub open spec fn signatures_of(passages: Seq<Passage>) -> Seq<Signature> {
    Seq::new(passages.len(), |i: int| passages[i].signature)
}

/// An element that goes through every phase leaves its signature behind
/// those before it, and hands over to the next element or completes the
/// batch.
pub proof fn law_element_goes_through(state: PipelineModel, passage: Passage)
    requires
        state.wf(),
        state.stage == Stage::AwaitingBalance,
        passage.succeeds(state.config),
    ensures
        state.run(passage.events(state.dynamic_cost, state.skip_confirm)) == (PipelineModel {
            signatures: state.signatures.push(passage.signature),
            ..state
        }).advance(),
{
    let balance = Event::Balance(passage.balance);
    let blockhash = Event::Blockhash(passage.blockhash);
    let simulation = Event::Simulation(SimulationOutcome::Consumed(passage.consumed));
    let signed = Event::Signed(passage.transaction);
    let accepted = Event::Submission(SubmissionResult::Accepted(passage.signature));
    let status = Event::Status(passage.status);
    let none = Seq::<Event>::empty();
    let fetched = seq![balance, blockhash];
    assert(fetched =~= none.push(balance).push(blockhash));
    law_run_continues(state, none, balance);
    law_run_continues(state, none.push(balance), blockhash);
    let simulated = if state.dynamic_cost {
        fetched.push(simulation)
    } else {
        fetched
    };
    if state.dynamic_cost {
        law_run_continues(state, fetched, simulation);
    }
    law_run_continues(state, simulated, signed);
    law_run_continues(state, simulated.push(signed), accepted);
    if !state.skip_confirm {
        law_run_continues(state, simulated.push(signed).push(accepted), status);
    }
}

/// After the first elements of a batch went through, the batch stands at the
/// element behind them, with their signatures.
proof fn lemma_batch_prefix_goes_through(start: PipelineModel, passages: Seq<Passage>)
    requires
        start == PipelineModel::start(
            start.groups,
            start.config,
            start.dynamic_cost,
            start.skip_confirm,
        ),
        start.groups.len() <= usize::MAX,
        passages.len() <= start.groups.len(),
        forall|i: int| 0 <= i < passages.len() ==> (#[trigger] passages[i]).succeeds(start.config),
    ensures
        start.run(batch_events(passages, start.dynamic_cost, start.skip_confirm)) == (PipelineModel {
            element: passages.len() as usize,
            stage: if passages.len() < start.groups.len() {
                Stage::AwaitingBalance
            } else {
                Stage::Completed
            },
            signatures: signatures_of(passages),
            ..start
        }),
    decreases passages.len(),
{
    if passages.len() == 0 {
        assert(signatures_of(passages) =~= Seq::empty());
    } else {
        let before = passages.drop_last();
        let last = passages.last();
        lemma_batch_prefix_goes_through(start, before);
        let events = batch_events(before, start.dynamic_cost, start.skip_confirm);
        let state = start.run(events);
        law_run_splits(start, events, last.events(start.dynamic_cost, start.skip_confirm));
        assert(last.succeeds(start.config));
        law_element_goes_through(state, last);
        assert(signatures_of(before).push(last.signature) =~= signatures_of(passages));
    }
}

/// A batch whose elements all go through comes to one signature for each
/// group, in the order of the groups.
pub proof fn law_batch_keeps_the_order_of_its_groups(
    groups: Seq<Seq<Instruction>>,
    config: PipelineConfig,
    dynamic_cost: bool,
    skip_confirm: bool,
    passages: Seq<Passage>,
)
    requires
        groups.len() <= usize::MAX,
        passages.len() == groups.len(),
        forall|i: int| 0 <= i < passages.len() ==> (#[trigger] passages[i]).succeeds(config),
    ensures
        PipelineModel::start(groups, config, dynamic_cost, skip_confirm).run(
            batch_events(passages, dynamic_cost, skip_confirm),
        ).outcome() == Some(Ok::<Seq<Signature>, PipelineError>(signatures_of(passages))),
{
    let start = PipelineModel::start(groups, config, dynamic_cost, skip_confirm);
    lemma_batch_prefix_goes_through(start, passages);
}

} // verus!
