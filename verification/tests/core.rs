//! The pipeline controller's ordering and concurrency discipline, the sync
//! controller's target computation and probe discipline, the stream reader
//! and the decimal renderer.

use sync_core::decimal::u64_to_string;
use sync_core::felt::Felt;
use sync_core::pipeline::{ApplyOutcome, PipelineController};
use sync_core::stream::{
    read_transactions_stream, SyncHandlersError, TransactionMessage, TransactionsResponse,
};
use sync_core::stream::Fin;
use sync_core::sync::SyncController;
use sync_core::transactions::{InvokeTransaction, InvokeTransactionV1, Transaction};
use sync_core::receipts::{
    ExecutionResources, ExecutionResult, FeePayment, InvokeTransactionReceipt, L1Gas, PriceUnit,
    TransactionReceipt, TransactionWithReceipt,
};

fn f(n: u64) -> Felt {
    Felt::from_u64(n)
}

fn sample_twr(hash: u64) -> TransactionWithReceipt {
    TransactionWithReceipt {
        transaction: Transaction::Invoke(InvokeTransaction::V1(InvokeTransactionV1 {
            sender_address: f(1),
            calldata: vec![f(2)],
            max_fee: f(3),
            signature: vec![],
            nonce: f(4),
        })),
        receipt: TransactionReceipt::Invoke(InvokeTransactionReceipt {
            transaction_hash: f(hash),
            actual_fee: FeePayment {
                amount: f(5),
                unit: PriceUnit::Wei,
            },
            messages_sent: vec![],
            events: vec![],
            execution_resources: ExecutionResources {
                steps: 1,
                memory_holes: None,
                range_check_builtin_applications: None,
                pedersen_builtin_applications: None,
                poseidon_builtin_applications: None,
                ec_op_builtin_applications: None,
                ecdsa_builtin_applications: None,
                bitwise_builtin_applications: None,
                keccak_builtin_applications: None,
                segment_arena_builtin: None,
                data_availability: L1Gas {
                    l1_gas: 0,
                    l1_data_gas: 0,
                },
                total_gas_consumed: L1Gas {
                    l1_gas: 0,
                    l1_data_gas: 0,
                },
            },
            execution_result: ExecutionResult::Succeeded,
        }),
    }
}

fn twr_message(hash: u64) -> TransactionsResponse {
    TransactionsResponse {
        transaction_message: Some(TransactionMessage::TransactionWithReceipt(
            sample_twr(hash).to_model(),
        )),
    }
}

fn fin_message() -> TransactionsResponse {
    TransactionsResponse {
        transaction_message: Some(TransactionMessage::Fin(Fin {})),
    }
}

// The scenario for the ordering law: three ranges whose parallel steps
// finish in reverse order must still commit in scheduling order.
#[test]
fn commits_stay_in_range_order() {
    let mut p = PipelineController::new(4, 10, None);
    let r0 = p.schedule(29);
    let r1 = p.schedule(29);
    let r2 = p.schedule(29);
    assert_eq!((r0.start, r0.end), (0, 10));
    assert_eq!((r1.start, r1.end), (10, 20));
    assert_eq!((r2.start, r2.end), (20, 30));

    // Parallel steps finish latest-first.
    p.parallel_done(2);
    assert_eq!(p.next_commit(), None, "later ranges must wait for earlier ones");
    p.parallel_done(1);
    assert_eq!(p.next_commit(), None);
    p.parallel_done(0);

    let mut commit_order = Vec::new();
    while let Some(r) = p.next_commit() {
        commit_order.push((r.start, r.end));
        p.record_commit(ApplyOutcome::Success(()));
    }
    assert_eq!(commit_order, vec![(0, 10), (10, 20), (20, 30)]);
    assert_eq!(p.next_commit_block_n(), 30);
    assert_eq!(p.next_input_block_n(), 30);
    assert!(p.is_empty());
}

#[test]
fn parallelism_is_bounded() {
    let mut p = PipelineController::new(2, 5, None);
    assert!(p.can_schedule(100));
    p.schedule(100);
    assert!(p.can_schedule(100));
    p.schedule(100);
    // Both slots are busy: nothing more may be scheduled, whatever the
    // target asks for.
    assert!(!p.can_schedule(100));
    assert_eq!(p.in_flight(), 2);
    p.parallel_done(0);
    p.record_commit::<()>(ApplyOutcome::Success(()));
    assert!(p.can_schedule(100));
}

#[test]
fn stop_outcome_halts_without_error() {
    let mut p = PipelineController::new(3, 10, Some(40));
    p.schedule(100);
    p.parallel_done(0);
    assert!(p.next_commit().is_some());
    let out = p.record_commit::<u32>(ApplyOutcome::Stop);
    assert_eq!(out, None);
    assert!(p.is_halted());
    // The frontier stays, and no further range is ever scheduled.
    assert_eq!(p.next_commit_block_n(), 40);
    assert!(!p.can_schedule(1_000_000));
}

#[test]
fn schedule_respects_target_and_batch() {
    let mut p = PipelineController::new(8, 25, Some(100));
    let r = p.schedule(110);
    assert_eq!((r.start, r.end), (100, 111), "a short tail stops at the target");
    assert!(!p.can_schedule(110));
    let mut q = PipelineController::new(8, 3, Some(100));
    let r = q.schedule(110);
    assert_eq!((r.start, r.end), (100, 103), "a long tail stops at one batch");
}

#[test]
fn starting_block_defaults_to_genesis() {
    let p = PipelineController::new(1, 1, None);
    assert_eq!(p.next_commit_block_n(), 0);
    let p = PipelineController::new(1, 1, Some(17));
    assert_eq!(p.next_commit_block_n(), 17);
    assert_eq!(p.next_input_block_n(), 17);
}

fn controller(stop: Option<u64>, probe: bool) -> SyncController {
    SyncController::new(PipelineController::new(2, 10, None), stop, probe)
}

// The four concrete target-height cases.
#[test]
fn target_height_min_max() {
    let mut c = controller(None, true);
    c.on_l1_head_update(Some(100));
    c.probe_in_flight = true;
    c.on_probe_success(Some(80));
    assert_eq!(c.target_height(), Some(100));

    let mut c = controller(Some(90), true);
    c.probe_in_flight = true;
    c.on_probe_success(Some(80));
    assert_eq!(c.target_height(), Some(80));

    let c = controller(Some(50), false);
    assert_eq!(c.target_height(), Some(50));

    let c = controller(None, true);
    assert_eq!(c.target_height(), None);
}

#[test]
fn probe_height_raises_target() {
    let mut c = controller(None, true);
    c.on_l1_head_update(Some(10));
    c.probe_in_flight = true;
    c.on_probe_success(Some(25));
    assert_eq!(c.target_height(), Some(25));
}

// A second scheduling opportunity while a probe is in flight must not issue
// a duplicate call.
#[test]
fn only_one_probe_in_flight() {
    let mut c = controller(None, true);
    let plan = c.begin_iteration(true);
    assert!(plan.start_probe.is_some(), "idle controller probes");
    assert!(c.probe_in_flight);
    let plan2 = c.begin_iteration(true);
    assert!(plan2.start_probe.is_none(), "no duplicate while one is outstanding");
    let plan3 = c.begin_iteration(false);
    assert!(plan3.start_probe.is_none());
    assert!(!plan3.exit, "an outstanding probe keeps the loop alive");
}

#[test]
fn probe_cooldown_is_armed_after_completion() {
    let mut c = controller(None, true);
    let plan = c.begin_iteration(true);
    assert!(!plan.start_probe.unwrap().wait_cooldown, "first call goes out at once");
    c.on_probe_success(None);
    let plan = c.begin_iteration(true);
    assert!(plan.start_probe.unwrap().wait_cooldown, "later calls wait the cooldown out");
}

// Re-running after a clean termination performs no additional work.
#[test]
fn rerun_after_clean_exit_is_idle() {
    let mut c = controller(None, false);
    let plan = c.begin_iteration(false);
    assert!(plan.exit);
    assert!(plan.start_probe.is_none());
    assert!(plan.pipeline_target.is_none());
    let frontier = c.pipeline.next_commit_block_n();
    // Unchanged inputs: the next iteration reaches the same clean exit with
    // the frontier where it was.
    let plan2 = c.begin_iteration(false);
    assert_eq!(plan, plan2);
    assert_eq!(c.pipeline.next_commit_block_n(), frontier);
}

#[test]
fn pipeline_runs_when_target_reaches_input() {
    let mut c = controller(None, true);
    c.on_l1_head_update(Some(5));
    let plan = c.begin_iteration(true);
    assert_eq!(plan.pipeline_target, Some(5));
    assert!(plan.start_probe.is_none(), "a runnable pipeline suppresses the probe");
}

#[test]
fn probe_error_clears_flight_flag() {
    let mut c = controller(None, true);
    c.begin_iteration(true);
    assert!(c.probe_in_flight);
    c.on_probe_failure();
    assert!(!c.probe_in_flight);
    assert!(c.probe_cooldown_pending);
}

#[test]
fn stream_reads_expected_count() {
    let responses = vec![twr_message(1), twr_message(2), fin_message()];
    let out = read_transactions_stream(responses, 2).expect("two good messages");
    assert_eq!(out.len(), 2);
    assert_eq!(out[0], sample_twr(1));
    assert_eq!(out[1], sample_twr(2));
}

#[test]
fn stream_empty_is_end_of_stream() {
    let err = read_transactions_stream(vec![fin_message()], 3).unwrap_err();
    assert_eq!(err, SyncHandlersError::EndOfStream);
    let err = read_transactions_stream(vec![], 3).unwrap_err();
    assert_eq!(err, SyncHandlersError::EndOfStream);
}

#[test]
fn stream_zero_expected_reads_nothing() {
    let out = read_transactions_stream(vec![], 0).expect("nothing expected");
    assert!(out.is_empty());
}

#[test]
fn stream_short_response_is_bad_request() {
    let responses = vec![twr_message(1), fin_message()];
    let err = read_transactions_stream(responses, 3).unwrap_err();
    assert_eq!(
        err,
        SyncHandlersError::BadRequest("Expected 3 messages in stream, got 1".to_string())
    );
}

#[test]
fn stream_missing_message_is_bad_request() {
    let responses = vec![TransactionsResponse {
        transaction_message: None,
    }];
    let err = read_transactions_stream(responses, 1).unwrap_err();
    assert_eq!(err, SyncHandlersError::BadRequest("No message".to_string()));
}

#[test]
fn stream_unconvertible_message_is_bad_request() {
    let bad = TransactionsResponse {
        transaction_message: Some(TransactionMessage::TransactionWithReceipt(
            sync_core::wire_receipt::TransactionWithReceipt {
                transaction: None,
                receipt: None,
            },
        )),
    };
    let err = read_transactions_stream(vec![bad], 1).unwrap_err();
    assert_eq!(
        err,
        SyncHandlersError::BadRequest("Converting transaction with receipt".to_string())
    );
}

#[test]
fn decimal_rendering() {
    assert_eq!(u64_to_string(0), "0");
    assert_eq!(u64_to_string(7), "7");
    assert_eq!(u64_to_string(10), "10");
    assert_eq!(u64_to_string(90210), "90210");
    assert_eq!(u64_to_string(u64::MAX), "18446744073709551615");
}
