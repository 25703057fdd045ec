use solana_program::instruction::{AccountMeta, Instruction};
use solana_program::pubkey::Pubkey;
use solana_sdk::compute_budget::{self, ComputeBudgetInstruction};
use tx_pipeline::config::{
    Commitment, PipelineConfig, COMPUTE_UNIT_MARGIN, CONFIRMATION_DELAY_MS, CONFIRMATION_RETRIES,
    SIMULATION_RETRIES, SUBMISSION_DELAY_MS, SUBMISSION_RETRIES,
};
use tx_pipeline::confirm::{judge, read_status, ConfirmationStatus, PollVerdict, StatusReport};
use tx_pipeline::error::{FailureKind, Phase, PipelineError};
use tx_pipeline::fee::{
    budget_for, read_report, simulated_budget, simulation_options, with_compute_budget,
    SimulationOutcome,
};
use tx_pipeline::ledger::copy_instructions;
use tx_pipeline::preflight::check_balance;
use tx_pipeline::retry::{transition, AttemptOutcome, RetryState};
use tx_pipeline::submit::send_options;

fn transfer_like(tag: u8) -> Instruction {
    let program = Pubkey::new_from_array([tag; 32]);
    let from = Pubkey::new_from_array([tag.wrapping_add(1); 32]);
    let to = Pubkey::new_from_array([tag.wrapping_add(2); 32]);
    Instruction::new_with_bytes(
        program,
        &[tag, 0, 1, 2],
        vec![AccountMeta::new(from, true), AccountMeta::new_readonly(to, false)],
    )
}

#[test]
fn standard_config_has_the_fixed_constants() {
    let config = PipelineConfig::standard(25, Commitment::Confirmed);
    assert_eq!(config.submission_retry_ceiling, 4);
    assert_eq!(config.submission_retry_delay_ms, 2000);
    assert_eq!(config.simulation_retry_ceiling, 4);
    assert_eq!(config.confirmation_retry_ceiling, 4);
    assert_eq!(config.confirmation_retry_delay_ms, 5000);
    assert_eq!(config.compute_unit_margin, 1000);
    assert_eq!(config.priority_fee_per_unit, 25);
    assert_eq!(config.confirmation_threshold, Commitment::Confirmed);
    assert_eq!(SUBMISSION_RETRIES, 4);
    assert_eq!(SUBMISSION_DELAY_MS, 2000);
    assert_eq!(SIMULATION_RETRIES, 4);
    assert_eq!(CONFIRMATION_RETRIES, 4);
    assert_eq!(CONFIRMATION_DELAY_MS, 5000);
    assert_eq!(COMPUTE_UNIT_MARGIN, 1000);
}

#[test]
fn balance_of_zero_is_insufficient() {
    assert_eq!(check_balance(0), Err(FailureKind::InsufficientFunds));
}

#[test]
fn positive_balance_passes() {
    assert_eq!(check_balance(1), Ok(()));
    assert_eq!(check_balance(u64::MAX), Ok(()));
}

#[test]
fn budget_is_consumed_plus_margin() {
    assert_eq!(budget_for(50_000, 1000), Some(51_000));
    assert_eq!(budget_for(0, 0), Some(0));
    assert_eq!(budget_for(0, 1000), Some(1000));
}

#[test]
fn budget_at_the_edge_of_the_limit() {
    assert_eq!(budget_for(u32::MAX as u64 - 1000, 1000), Some(u32::MAX));
    assert_eq!(budget_for(u32::MAX as u64 - 999, 1000), None);
    assert_eq!(budget_for(u32::MAX as u64, 0), Some(u32::MAX));
    assert_eq!(budget_for(u32::MAX as u64 + 1, 0), None);
    assert_eq!(budget_for(u64::MAX, 1000), None);
    assert_eq!(budget_for(0, u32::MAX), Some(u32::MAX));
    assert_eq!(budget_for(1, u32::MAX), None);
}

#[test]
fn only_a_count_yields_a_budget() {
    assert_eq!(simulated_budget(SimulationOutcome::Consumed(50_000), 1000), Some(51_000));
    assert_eq!(simulated_budget(SimulationOutcome::ExecutionError, 1000), None);
    assert_eq!(simulated_budget(SimulationOutcome::NoReport, 1000), None);
    assert_eq!(simulated_budget(SimulationOutcome::TransportError, 1000), None);
    assert_eq!(simulated_budget(SimulationOutcome::Consumed(u64::MAX), 1000), None);
}

#[test]
fn report_reads_error_before_count() {
    assert_eq!(read_report(true, Some(7)), SimulationOutcome::ExecutionError);
    assert_eq!(read_report(true, None), SimulationOutcome::ExecutionError);
    assert_eq!(read_report(false, Some(7)), SimulationOutcome::Consumed(7));
    assert_eq!(read_report(false, None), SimulationOutcome::NoReport);
}

#[test]
fn simulation_leaves_signature_and_blockhash_aside() {
    let options = simulation_options();
    assert!(!options.verify_signature);
    assert!(options.replace_blockhash);
}

#[test]
fn rebuilt_list_starts_with_limit_and_price() {
    let group = vec![transfer_like(10), transfer_like(20), transfer_like(30)];
    let rebuilt = with_compute_budget(&group, 51_000, 77);
    assert_eq!(rebuilt.len(), 5);
    assert_eq!(rebuilt[0], ComputeBudgetInstruction::set_compute_unit_limit(51_000));
    assert_eq!(rebuilt[1], ComputeBudgetInstruction::set_compute_unit_price(77));
    assert_eq!(rebuilt[0].program_id, compute_budget::id());
    assert_eq!(rebuilt[1].program_id, compute_budget::id());
    assert!(rebuilt[0].accounts.is_empty());
    assert!(rebuilt[1].accounts.is_empty());
    assert_eq!(rebuilt[0].data, vec![2u8, 0x38, 0xc7, 0x00, 0x00]);
    assert_eq!(rebuilt[1].data, vec![3u8, 77, 0, 0, 0, 0, 0, 0, 0]);
    assert_ne!(rebuilt[0], rebuilt[1]);
    assert_eq!(&rebuilt[2..], &group[..]);
}

#[test]
fn rebuilt_list_of_an_empty_group() {
    let group: Vec<Instruction> = Vec::new();
    let rebuilt = with_compute_budget(&group, 1000, 0);
    assert_eq!(rebuilt.len(), 2);
    assert_eq!(rebuilt[0], ComputeBudgetInstruction::set_compute_unit_limit(1000));
    assert_eq!(rebuilt[1], ComputeBudgetInstruction::set_compute_unit_price(0));
}

#[test]
fn limits_differ_with_the_units() {
    let group: Vec<Instruction> = Vec::new();
    let low = with_compute_budget(&group, 1, 5);
    let high = with_compute_budget(&group, 2, 5);
    assert_ne!(low[0], high[0]);
    assert_eq!(low[1], high[1]);
}

#[test]
fn copy_keeps_every_instruction_in_order() {
    let group = vec![transfer_like(1), transfer_like(2), transfer_like(3), transfer_like(4)];
    let copy = copy_instructions(&group);
    assert_eq!(copy, group);
    assert_eq!(copy[2].data, vec![3u8, 0, 1, 2]);
    assert_eq!(copy[2].accounts.len(), 2);
    assert!(copy_instructions(&Vec::new()).is_empty());
}

#[test]
fn status_is_judged_against_the_threshold() {
    let levels = [Commitment::Processed, Commitment::Confirmed, Commitment::Finalized];
    for threshold in levels {
        assert_eq!(judge(ConfirmationStatus::Unseen, threshold), PollVerdict::Below);
        assert_eq!(judge(ConfirmationStatus::Failed, threshold), PollVerdict::Failed);
        assert_eq!(judge(ConfirmationStatus::Finalized, threshold), PollVerdict::Reached);
    }
    assert_eq!(judge(ConfirmationStatus::Processed, Commitment::Processed), PollVerdict::Reached);
    assert_eq!(judge(ConfirmationStatus::Processed, Commitment::Confirmed), PollVerdict::Below);
    assert_eq!(judge(ConfirmationStatus::Processed, Commitment::Finalized), PollVerdict::Below);
    assert_eq!(judge(ConfirmationStatus::Confirmed, Commitment::Processed), PollVerdict::Reached);
    assert_eq!(judge(ConfirmationStatus::Confirmed, Commitment::Confirmed), PollVerdict::Reached);
    assert_eq!(judge(ConfirmationStatus::Confirmed, Commitment::Finalized), PollVerdict::Below);
}

#[test]
fn status_report_reads_failure_before_level() {
    assert_eq!(read_status(None), ConfirmationStatus::Unseen);
    let failed = StatusReport { failed: true, level: Commitment::Finalized };
    assert_eq!(read_status(Some(failed)), ConfirmationStatus::Failed);
    let processed = StatusReport { failed: false, level: Commitment::Processed };
    assert_eq!(read_status(Some(processed)), ConfirmationStatus::Processed);
    let confirmed = StatusReport { failed: false, level: Commitment::Confirmed };
    assert_eq!(read_status(Some(confirmed)), ConfirmationStatus::Confirmed);
    let finalized = StatusReport { failed: false, level: Commitment::Finalized };
    assert_eq!(read_status(Some(finalized)), ConfirmationStatus::Finalized);
}

#[test]
fn send_options_skip_checks_and_pin_the_slot() {
    let options = send_options(123_456);
    assert!(options.skip_preflight);
    assert_eq!(options.preflight_commitment, Commitment::Finalized);
    assert_eq!(options.max_retries, 0);
    assert_eq!(options.min_context_slot, 123_456);
}

#[test]
fn retry_counts_failures_up_to_the_ceiling() {
    let mut state = RetryState::Attempting { failures: 0 };
    for expected in 1..=4u64 {
        state = transition(state, AttemptOutcome::Failure, 4);
        assert_eq!(state, RetryState::Attempting { failures: expected });
    }
    state = transition(state, AttemptOutcome::Failure, 4);
    assert_eq!(state, RetryState::RetriesExhausted);
}

#[test]
fn retry_succeeds_from_any_count() {
    for failures in 0..=4u64 {
        let state = RetryState::Attempting { failures };
        assert_eq!(transition(state, AttemptOutcome::Success, 4), RetryState::Succeeded);
    }
}

#[test]
fn retry_with_ceiling_zero_gives_up_at_once() {
    let state = RetryState::Attempting { failures: 0 };
    assert_eq!(transition(state, AttemptOutcome::Failure, 0), RetryState::RetriesExhausted);
    assert_eq!(transition(state, AttemptOutcome::Success, 0), RetryState::Succeeded);
}

#[test]
fn retry_final_states_stay() {
    for outcome in [AttemptOutcome::Success, AttemptOutcome::Failure] {
        assert_eq!(transition(RetryState::Succeeded, outcome, 4), RetryState::Succeeded);
        assert_eq!(
            transition(RetryState::RetriesExhausted, outcome, 4),
            RetryState::RetriesExhausted
        );
    }
}

#[test]
fn retry_at_the_largest_ceiling_does_not_wrap() {
    let state = RetryState::Attempting { failures: u64::MAX };
    assert_eq!(
        transition(state, AttemptOutcome::Failure, u64::MAX),
        RetryState::RetriesExhausted
    );
    let below = RetryState::Attempting { failures: u64::MAX - 1 };
    assert_eq!(
        transition(below, AttemptOutcome::Failure, u64::MAX),
        RetryState::Attempting { failures: u64::MAX }
    );
}

#[test]
fn each_kind_of_error_has_its_text() {
    let kinds = [
        (FailureKind::InsufficientFunds, "Insufficient SOL balance"),
        (FailureKind::SimulationFailed, "Simulation failed"),
        (FailureKind::SubmissionFailed, "Max retries exceeded"),
        (FailureKind::ConfirmationTimeout, "Confirmation timed out"),
        (FailureKind::OnChainExecutionError, "Transaction failed on chain"),
        (FailureKind::TransportError, "Transport error"),
    ];
    for (kind, text) in kinds {
        let error = PipelineError { element: 3, phase: Phase::Preflight, kind };
        assert_eq!(error.message(), text);
    }
}
