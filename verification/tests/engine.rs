use batch_vm::bootloader::{
    BootloaderState, CompressedBytecodeInfo, FactoryDep, PubdataInput, QueuedTransaction,
    Transaction,
};
use batch_vm::env::{
    plan_run, ExecutionPhase, L1BatchEnv, L2BlockEnv, RunPlan, SystemEnv, VmExecutionMode,
};
use batch_vm::events::{merge_events, EventMessage};
use batch_vm::interface::{BytecodeCompressionError, CurrentExecutionState};
use batch_vm::logs::{L2ToL1Log, LogQuery, SystemL2ToL1Log, UserL2ToL1Log};
use batch_vm::primitives::{l1_messenger_address, Address, Word};
use batch_vm::state::{ExecutionResult, RunRecord, Storage, VmState};
use batch_vm::vm::Vm;

fn addr(n: u128) -> Address {
    Address { high: 0, low: n }
}

fn word(n: u128) -> Word {
    Word { high: 0, low: n }
}

fn block(number: u32) -> L2BlockEnv {
    L2BlockEnv {
        number,
        timestamp: 1000 + number as u64,
        prev_block_hash: word(number as u128 + 500),
        max_virtual_blocks_to_create: 1,
    }
}

fn batch_env() -> L1BatchEnv {
    L1BatchEnv { number: 42, timestamp: 1000, fee_account: addr(0xfee), first_l2_block: block(1) }
}

fn system_env() -> SystemEnv {
    SystemEnv { chain_id: 270, bootloader_gas_limit: 80_000_000, zk_porter_available: false }
}

fn engine() -> Vm {
    Vm::new(batch_env(), system_env(), Storage { known_bytecodes: vec![word(0xc0de)] })
}

fn entry(contract: Address, key: u128, value: u128, tx: u16) -> EventMessage {
    EventMessage {
        shard_id: 0,
        tx_number_in_block: tx,
        address: contract,
        key: word(key),
        value: word(value),
    }
}

fn query(key: u128) -> LogQuery {
    LogQuery {
        timestamp: 7,
        tx_number_in_block: 0,
        shard_id: 0,
        address: addr(0x77),
        key: word(key),
        read_value: word(0),
        written_value: word(key + 1),
        rw_flag: true,
        rollback: false,
    }
}

fn message(key: u128) -> L2ToL1Log {
    L2ToL1Log {
        shard_id: 0,
        tx_number_in_l1_batch: 0,
        sender: addr(0x800b),
        key: word(key),
        value: word(key * 2),
    }
}

fn quiet_run(cycles: u32) -> RunRecord {
    RunRecord {
        result: ExecutionResult::Success,
        cycles,
        gas_used: 21_000,
        events: vec![],
        deduplicated_events_logs: vec![],
        l1_messages: vec![],
        event_sink_log_queries: 0,
        precompile_timestamps: vec![],
        storage_log_queries: vec![],
        used_contract_hashes: vec![],
        storage_refunds: vec![],
        published_bytecodes: vec![],
        pubdata: None,
    }
}

fn busy_run(seed: u128, tx: u16) -> RunRecord {
    RunRecord {
        result: ExecutionResult::Success,
        cycles: 100 + seed as u32,
        gas_used: 30_000,
        events: vec![
            entry(addr(0x10), seed, 1, tx),
            entry(addr(0x10), seed, 2, tx),
            entry(l1_messenger_address(), seed + 1, 3, tx),
        ],
        deduplicated_events_logs: vec![query(seed)],
        l1_messages: vec![message(seed)],
        event_sink_log_queries: 5,
        precompile_timestamps: vec![1, 2],
        storage_log_queries: vec![query(seed), query(seed + 1), query(seed + 2)],
        used_contract_hashes: vec![word(seed)],
        storage_refunds: vec![11],
        published_bytecodes: vec![],
        pubdata: None,
    }
}

fn plain_tx(id: u128) -> Transaction {
    Transaction {
        hash: word(id),
        memory: vec![(id as usize * 10, word(id)), (id as usize * 10 + 1, word(id + 1))],
        factory_deps: vec![],
    }
}

fn tx_with_code(id: u128, code_hash: u128, compressed: Option<Vec<u8>>) -> Transaction {
    Transaction {
        hash: word(id),
        memory: vec![(0, word(id))],
        factory_deps: vec![FactoryDep {
            hash: word(code_hash),
            bytecode: vec![1, 2, 3, 4, 5, 6, 7, 8],
            compressed,
        }],
    }
}

fn everything(vm: &Vm) -> (CurrentExecutionState, Vec<(usize, Word)>, ExecutionPhase, Vec<CompressedBytecodeInfo>, bool) {
    (
        vm.get_current_execution_state(),
        vm.get_bootloader_memory(),
        vm.phase(),
        vm.get_last_tx_compressed_bytecodes(),
        vm.has_unpublished_bytecodes(),
    )
}

#[test]
fn a_new_engine_is_idle_and_empty() {
    let vm = engine();
    assert_eq!(vm.phase(), ExecutionPhase::Idle);
    assert_eq!(vm.cycles_used(), 0);
    assert_eq!(vm.snapshot_count(), 0);
    assert_eq!(vm.get_bootloader_memory(), vec![]);
    assert_eq!(vm.get_last_tx_compressed_bytecodes(), vec![]);
    assert!(!vm.has_unpublished_bytecodes());
    let state = vm.get_current_execution_state();
    assert_eq!(
        state,
        CurrentExecutionState {
            events: vec![],
            deduplicated_events_logs: vec![],
            storage_log_queries: vec![],
            used_contract_hashes: vec![],
            user_l2_to_l1_logs: vec![],
            system_logs: vec![],
            total_log_queries: 0,
            cycles_used: 0,
            storage_refunds: vec![],
        }
    );
    let metrics = vm.record_vm_memory_metrics();
    assert_eq!(metrics.known_bytecodes, 1);
    assert_eq!(metrics.queued_transactions, 0);
    assert_eq!(metrics.snapshots, 0);
}

#[test]
fn pushed_transactions_fill_the_memory_in_push_order() {
    let mut vm = engine();
    vm.push_transaction(plain_tx(1));
    vm.push_transaction(plain_tx(2));
    assert_eq!(
        vm.get_bootloader_memory(),
        vec![(10, word(1)), (11, word(2)), (20, word(2)), (21, word(3))]
    );
    assert_eq!(vm.record_vm_memory_metrics().queued_transactions, 2);
    assert_eq!(vm.record_vm_memory_metrics().bootloader_memory, 4);
    assert_eq!(vm.phase(), ExecutionPhase::Idle);
}

#[test]
fn a_push_asks_for_compression_unless_told_otherwise() {
    let mut vm = engine();
    vm.push_transaction(tx_with_code(1, 0xaaa, Some(vec![9, 9])));
    assert_eq!(
        vm.get_last_tx_compressed_bytecodes(),
        vec![CompressedBytecodeInfo {
            original: vec![1, 2, 3, 4, 5, 6, 7, 8],
            compressed: vec![9, 9],
        }]
    );
    assert!(vm.has_unpublished_bytecodes());
    vm.push_transaction_with_compression(tx_with_code(2, 0xbbb, Some(vec![9, 9])), false);
    assert_eq!(vm.get_last_tx_compressed_bytecodes(), vec![]);
    assert!(!vm.has_unpublished_bytecodes());
}

#[test]
fn artifacts_leave_out_known_code_and_code_without_a_compressed_form() {
    let mut vm = engine();
    let tx = Transaction {
        hash: word(1),
        memory: vec![],
        factory_deps: vec![
            FactoryDep { hash: word(0xc0de), bytecode: vec![1], compressed: Some(vec![2]) },
            FactoryDep { hash: word(0xa), bytecode: vec![3, 3], compressed: None },
            FactoryDep { hash: word(0xb), bytecode: vec![4, 4, 4], compressed: Some(vec![5]) },
            FactoryDep { hash: word(0xc), bytecode: vec![6, 6], compressed: Some(vec![7, 7]) },
        ],
    };
    vm.push_transaction_with_compression(tx, true);
    assert_eq!(
        vm.get_last_tx_compressed_bytecodes(),
        vec![
            CompressedBytecodeInfo { original: vec![4, 4, 4], compressed: vec![5] },
            CompressedBytecodeInfo { original: vec![6, 6], compressed: vec![7, 7] },
        ]
    );
    assert!(vm.has_unpublished_bytecodes());
    let mut run = quiet_run(1);
    run.published_bytecodes = vec![word(0xb), word(0xc)];
    vm.inspect(run, VmExecutionMode::OneTx);
    assert!(vm.has_unpublished_bytecodes());
    let mut run = quiet_run(1);
    run.published_bytecodes = vec![word(0xa)];
    vm.inspect(run, VmExecutionMode::OneTx);
    assert!(!vm.has_unpublished_bytecodes());
}

#[test]
fn a_transaction_stands_under_the_block_that_was_open() {
    let mut bootloader = BootloaderState::new(block(1));
    bootloader.push_transaction(plain_tx(1), true, &vec![]);
    bootloader.start_new_l2_block(block(2));
    bootloader.push_transaction(plain_tx(2), true, &vec![]);
    bootloader.push_transaction(plain_tx(3), false, &vec![]);
    assert_eq!(
        bootloader.transactions,
        vec![
            QueuedTransaction { hash: word(1), l2_block_number: 1, l2_block_timestamp: 1001 },
            QueuedTransaction { hash: word(2), l2_block_number: 2, l2_block_timestamp: 1002 },
            QueuedTransaction { hash: word(3), l2_block_number: 2, l2_block_timestamp: 1002 },
        ]
    );
    assert_eq!(bootloader.l2_blocks, vec![block(1), block(2)]);
    assert_eq!(bootloader.current_l2_block, block(2));
    assert_eq!(bootloader.consumed, 0);
    bootloader.advance(VmExecutionMode::OneTx);
    assert_eq!(bootloader.consumed, 1);
    assert_eq!(bootloader.phase, ExecutionPhase::Executing);
    bootloader.advance(VmExecutionMode::Batch);
    assert_eq!(bootloader.consumed, 3);
    assert_eq!(bootloader.phase, ExecutionPhase::Completed);
    let copy = bootloader.copy();
    assert_eq!(copy.transactions, bootloader.transactions);
    assert_eq!(copy.bootloader_memory(), bootloader.bootloader_memory());
}

#[test]
fn starting_a_block_leaves_the_memory_alone() {
    let mut vm = engine();
    vm.push_transaction(plain_tx(1));
    let before = vm.get_bootloader_memory();
    vm.start_new_l2_block(block(2));
    assert_eq!(vm.get_bootloader_memory(), before);
}

#[test]
fn a_run_reports_its_own_logs_and_the_cycles_so_far() {
    let mut vm = engine();
    vm.push_transaction(plain_tx(1));
    let first = vm.inspect(busy_run(1, 0), VmExecutionMode::OneTx);
    assert_eq!(first.result, ExecutionResult::Success);
    assert_eq!(first.cycles_used, 101);
    assert_eq!(first.gas_used, 30_000);
    assert_eq!(first.contracts_used, 1);
    assert_eq!(
        first.events,
        vec![
            entry(addr(0x10), 1, 2, 0).into_vm_event(42),
            entry(l1_messenger_address(), 2, 3, 0).into_vm_event(42),
        ]
    );
    assert_eq!(
        first.user_l2_to_l1_logs,
        vec![UserL2ToL1Log(L2ToL1Log {
            shard_id: 0,
            tx_number_in_l1_batch: 0,
            sender: l1_messenger_address(),
            key: word(2),
            value: word(3),
        })]
    );
    assert_eq!(first.system_l2_to_l1_logs, vec![SystemL2ToL1Log(message(1))]);
    assert_eq!(first.storage_logs, vec![query(1), query(2), query(3)]);
    assert_eq!(vm.phase(), ExecutionPhase::Executing);
    let mut reverted = quiet_run(7);
    reverted.result = ExecutionResult::Revert;
    let second = vm.inspect(reverted, VmExecutionMode::OneTx);
    assert_eq!(second.result, ExecutionResult::Revert);
    assert_eq!(second.cycles_used, 108);
    assert_eq!(second.events, vec![]);
}

#[test]
fn checkpoints_are_resolved_last_in_first_out() {
    let mut vm = engine();
    vm.push_transaction(plain_tx(1));
    let at_start = everything(&vm);
    vm.make_snapshot();
    vm.inspect(busy_run(1, 0), VmExecutionMode::OneTx);
    vm.push_transaction(plain_tx(2));
    let at_second = everything(&vm);
    vm.make_snapshot();
    assert_eq!(vm.snapshot_count(), 2);
    vm.inspect(busy_run(5, 1), VmExecutionMode::OneTx);
    vm.start_new_l2_block(block(2));
    vm.push_transaction(tx_with_code(3, 0xabc, Some(vec![1])));
    assert_ne!(everything(&vm), at_second);
    vm.rollback_to_the_latest_snapshot();
    assert_eq!(everything(&vm), at_second);
    assert_eq!(vm.snapshot_count(), 1);
    vm.rollback_to_the_latest_snapshot();
    assert_eq!(everything(&vm), at_start);
    assert_eq!(vm.snapshot_count(), 0);
}

#[test]
fn a_checkpoint_made_and_dropped_changes_nothing() {
    let mut vm = engine();
    vm.push_transaction(tx_with_code(1, 0xabc, Some(vec![1])));
    vm.inspect(busy_run(1, 0), VmExecutionMode::OneTx);
    let before = everything(&vm);
    let metrics = vm.record_vm_memory_metrics();
    vm.make_snapshot();
    assert_eq!(vm.snapshot_count(), 1);
    vm.pop_snapshot_no_rollback();
    assert_eq!(everything(&vm), before);
    assert_eq!(vm.record_vm_memory_metrics(), metrics);
    assert_eq!(vm.snapshot_count(), 0);
}

#[test]
fn dropping_a_checkpoint_keeps_what_was_done_since() {
    let mut vm = engine();
    vm.make_snapshot();
    vm.push_transaction(plain_tx(1));
    vm.inspect(busy_run(1, 0), VmExecutionMode::OneTx);
    let after = everything(&vm);
    vm.pop_snapshot_no_rollback();
    assert_eq!(everything(&vm), after);
    assert_eq!(vm.cycles_used(), 101);
    assert_eq!(vm.snapshot_count(), 0);
}

#[test]
fn going_back_restores_the_state_whatever_was_done() {
    let mut vm = engine();
    vm.push_transaction(plain_tx(1));
    vm.inspect(busy_run(1, 0), VmExecutionMode::OneTx);
    let before = everything(&vm);
    let metrics = vm.record_vm_memory_metrics();
    vm.make_snapshot();
    vm.start_new_l2_block(block(2));
    vm.push_transaction(tx_with_code(2, 0xabc, None));
    let mut run = busy_run(9, 1);
    run.published_bytecodes = vec![word(0x1), word(0x2)];
    run.pubdata = Some(PubdataInput {
        l2_to_l1_messages: vec![vec![1]],
        published_bytecodes: vec![],
        state_diffs: vec![],
    });
    vm.inspect(run, VmExecutionMode::OneTx);
    vm.make_snapshot();
    vm.push_transaction(plain_tx(3));
    vm.pop_snapshot_no_rollback();
    vm.finish_batch(busy_run(20, 2));
    assert_eq!(vm.phase(), ExecutionPhase::Completed);
    vm.rollback_to_the_latest_snapshot();
    assert_eq!(everything(&vm), before);
    let mut expected = metrics;
    expected.snapshots = 0;
    assert_eq!(vm.record_vm_memory_metrics(), expected);
    assert_eq!(vm.phase(), ExecutionPhase::Executing);
}

#[test]
fn the_same_pushes_and_runs_give_the_same_aggregate() {
    let batch = |vm: &mut Vm| {
        vm.push_transaction(plain_tx(1));
        vm.push_transaction(tx_with_code(2, 0xabc, Some(vec![4])));
        vm.inspect(busy_run(1, 0), VmExecutionMode::OneTx);
        vm.start_new_l2_block(block(2));
        vm.push_transaction(plain_tx(3));
        vm.inspect(busy_run(2, 1), VmExecutionMode::OneTx);
        vm.finish_batch(busy_run(3, 2))
    };
    let mut a = engine();
    let mut b = engine();
    let finished_a = batch(&mut a);
    let finished_b = batch(&mut b);
    assert_eq!(finished_a, finished_b);
    assert_eq!(a.get_current_execution_state(), b.get_current_execution_state());
    assert_eq!(a.get_bootloader_memory(), b.get_bootloader_memory());
}

#[test]
fn cycles_never_go_down_and_log_queries_add_up() {
    let mut vm = engine();
    let mut last = vm.cycles_used();
    for (i, cycles) in [5u32, 0, 17, 0, 1].iter().enumerate() {
        let mut run = busy_run(i as u128, i as u16);
        run.cycles = *cycles;
        let result = vm.inspect(run, VmExecutionMode::OneTx);
        assert!(result.cycles_used >= last);
        assert_eq!(result.cycles_used, last + *cycles as u64);
        last = result.cycles_used;
    }
    assert_eq!(last, 23);
    let state = vm.get_current_execution_state();
    assert_eq!(state.cycles_used, 23);
    assert_eq!(state.total_log_queries, 5 * 5 + 5 * 2 + 5 * 3);
    assert_eq!(state.storage_log_queries.len(), 15);
    assert_eq!(state.storage_refunds, vec![11; 5]);
}

#[test]
fn the_cycle_count_stops_at_the_largest_value() {
    let mut state = VmState::new(Storage { known_bytecodes: vec![] });
    state.monotonic_cycle_counter = u64::MAX - 3;
    state.event_sink_log_queries = u64::MAX;
    let mut run = quiet_run(10);
    run.event_sink_log_queries = 4;
    run.precompile_timestamps = vec![1, 2, 3];
    state.apply(&run);
    assert_eq!(state.monotonic_cycle_counter, u64::MAX);
    assert_eq!(state.event_sink_log_queries, u64::MAX);
    assert_eq!(state.total_log_queries(), u64::MAX as u128 + 3);
    let copy = state.copy();
    assert_eq!(copy.precompile_timestamps, vec![1, 2, 3]);
    assert_eq!(copy.monotonic_cycle_counter, u64::MAX);
}

#[test]
fn two_transactions_then_the_end_of_the_batch() {
    let mut vm = engine();
    vm.push_transaction(plain_tx(1));
    vm.push_transaction(plain_tx(2));
    let run1 = busy_run(1, 0);
    let run2 = busy_run(1, 1);
    let tip = quiet_run(3);
    let mut raw = run1.events.clone();
    raw.extend(run2.events.clone());
    let first = vm.inspect(run1, VmExecutionMode::OneTx);
    let second = vm.inspect(run2, VmExecutionMode::OneTx);
    assert!(first.cycles_used < second.cycles_used);
    assert_eq!(first.cycles_used, 101);
    assert_eq!(second.cycles_used, 202);
    let memory = vm.get_bootloader_memory();
    let finished = vm.finish_batch(tip);
    assert_eq!(finished.final_bootloader_memory, Some(memory));
    assert_eq!(finished.block_tip_execution_result.cycles_used, 205);
    let events = &finished.final_execution_state.events;
    assert!(events.len() <= raw.len());
    let merged: Vec<_> = merge_events(&raw).into_iter().map(|e| e.into_vm_event(42)).collect();
    assert_eq!(events, &merged);
    assert_eq!(
        merged,
        vec![
            entry(addr(0x10), 1, 2, 0).into_vm_event(42),
            entry(l1_messenger_address(), 2, 3, 0).into_vm_event(42),
            entry(addr(0x10), 1, 2, 1).into_vm_event(42),
            entry(l1_messenger_address(), 2, 3, 1).into_vm_event(42),
        ]
    );
    assert_eq!(finished.final_execution_state.user_l2_to_l1_logs.len(), 2);
    assert_eq!(
        finished.final_execution_state.system_logs,
        vec![SystemL2ToL1Log(message(1)), SystemL2ToL1Log(message(1))]
    );
    assert_eq!(finished.final_execution_state.total_log_queries, 20);
    assert_eq!(finished.final_execution_state.cycles_used, 205);
    assert_eq!(finished.final_execution_state, vm.get_current_execution_state());
    assert_eq!(finished.pubdata_input, Some(vec![0; 16]));
    assert_eq!(vm.phase(), ExecutionPhase::Completed);
}

#[test]
fn events_of_two_runs_merge_across_the_runs() {
    let mut vm = engine();
    let mut run1 = quiet_run(1);
    run1.events = vec![entry(addr(1), 1, 1, 0)];
    let mut run2 = quiet_run(1);
    run2.events = vec![entry(addr(1), 1, 2, 0), entry(addr(2), 1, 3, 0)];
    vm.inspect(run1, VmExecutionMode::OneTx);
    vm.inspect(run2, VmExecutionMode::OneTx);
    assert_eq!(
        vm.get_current_execution_state().events,
        vec![entry(addr(1), 1, 2, 0).into_vm_event(42), entry(addr(2), 1, 3, 0).into_vm_event(42)]
    );
}

#[test]
fn the_batch_payload_frames_messages_and_bytecodes() {
    let mut vm = engine();
    let mut tip = quiet_run(1);
    tip.pubdata = Some(PubdataInput {
        l2_to_l1_messages: vec![vec![0xaa, 0xbb]],
        published_bytecodes: vec![vec![0xcc]],
        state_diffs: vec![vec![0xdd, 0xee, 0xff]],
    });
    let finished = vm.finish_batch(tip);
    assert_eq!(
        finished.pubdata_input,
        Some(vec![
            0, 0, 0, 0, 0, 0, 0, 1, 0, 0, 0, 0, 0, 0, 0, 2, 0xaa, 0xbb, 0, 0, 0, 0, 0, 0, 0, 1, 0,
            0, 0, 0, 0, 0, 0, 1, 0xcc
        ])
    );
}

#[test]
fn the_final_payload_adds_the_state_records() {
    let input = PubdataInput {
        l2_to_l1_messages: vec![],
        published_bytecodes: vec![vec![1]],
        state_diffs: vec![vec![2, 3], vec![4]],
    };
    let open = input.build_pubdata(false);
    let closed = input.build_pubdata(true);
    assert_eq!(open, vec![0, 0, 0, 0, 0, 0, 0, 0, 0, 0, 0, 0, 0, 0, 0, 1, 0, 0, 0, 0, 0, 0, 0, 1, 1]);
    assert_eq!(&closed[..open.len()], &open[..]);
    assert_eq!(
        &closed[open.len()..],
        &[0, 0, 0, 0, 0, 0, 0, 2, 0, 0, 0, 0, 0, 0, 0, 2, 2, 3, 0, 0, 0, 0, 0, 0, 0, 1, 4][..]
    );
    assert_eq!(PubdataInput::empty().build_pubdata(true), vec![0; 24]);
    assert_eq!(input.copy().build_pubdata(true), closed);
}

#[test]
fn a_failed_compression_is_reported_and_its_effects_stay() {
    let mut vm = engine();
    vm.push_transaction(plain_tx(1));
    vm.inspect(busy_run(1, 0), VmExecutionMode::OneTx);
    let baseline = everything(&vm);
    vm.make_snapshot();
    let tx = tx_with_code(2, 0xbad, None);
    let result = vm.inspect_transaction_with_bytecode_compression(busy_run(2, 1), tx, true);
    assert_eq!(result, Err(BytecodeCompressionError::BytecodeCompressionFailed));
    assert_ne!(everything(&vm), baseline);
    assert_eq!(vm.cycles_used(), 203);
    assert_eq!(vm.record_vm_memory_metrics().queued_transactions, 2);
    vm.rollback_to_the_latest_snapshot();
    assert_eq!(everything(&vm), baseline);
    assert_eq!(vm.cycles_used(), 101);
    let retry = tx_with_code(2, 0xbad, None);
    let result = vm.inspect_transaction_with_bytecode_compression(busy_run(2, 1), retry, false);
    assert!(result.is_ok());
}

#[test]
fn a_transaction_whose_code_gets_published_is_accepted() {
    let mut vm = engine();
    let tx = tx_with_code(1, 0xabc, Some(vec![1, 2]));
    let mut run = busy_run(1, 0);
    run.published_bytecodes = vec![word(0xabc)];
    let result = vm.inspect_transaction_with_bytecode_compression(run, tx, true);
    let result = result.expect("the code was published");
    assert_eq!(result.cycles_used, 101);
    assert_eq!(result.events.len(), 2);
    assert!(!vm.has_unpublished_bytecodes());
    let known = tx_with_code(2, 0xc0de, None);
    let result = vm.inspect_transaction_with_bytecode_compression(quiet_run(1), known, true);
    assert!(result.is_ok());
    let unpublished = tx_with_code(3, 0xdef, Some(vec![1]));
    let result = vm.inspect_transaction_with_bytecode_compression(quiet_run(1), unpublished, true);
    assert_eq!(result, Err(BytecodeCompressionError::BytecodeCompressionFailed));
}

#[test]
fn the_aggregate_before_the_end_covers_the_runs_so_far() {
    let mut vm = engine();
    vm.push_transaction(plain_tx(1));
    vm.inspect(busy_run(1, 0), VmExecutionMode::OneTx);
    let state = vm.get_current_execution_state();
    assert_eq!(state.events.len(), 2);
    assert_eq!(state.total_log_queries, 10);
    assert_eq!(state.cycles_used, 101);
    assert_eq!(state.used_contract_hashes, vec![word(1)]);
    assert_eq!(state.deduplicated_events_logs, vec![query(1)]);
    assert_eq!(vm.phase(), ExecutionPhase::Executing);
}

#[test]
fn a_closed_batch_stays_closed() {
    let mut vm = engine();
    vm.inspect(quiet_run(1), VmExecutionMode::Batch);
    assert_eq!(vm.phase(), ExecutionPhase::Completed);
    vm.inspect(quiet_run(1), VmExecutionMode::OneTx);
    assert_eq!(vm.phase(), ExecutionPhase::Completed);
    assert_eq!(vm.cycles_used(), 2);
}

#[test]
fn a_plan_names_what_the_next_run_covers() {
    let mut vm = engine();
    assert_eq!(
        vm.plan_run(VmExecutionMode::OneTx),
        RunPlan { first: 0, count: 0, closes_batch: false }
    );
    vm.push_transaction(plain_tx(1));
    vm.push_transaction(plain_tx(2));
    vm.push_transaction(plain_tx(3));
    assert_eq!(
        vm.plan_run(VmExecutionMode::OneTx),
        RunPlan { first: 0, count: 1, closes_batch: false }
    );
    assert_eq!(
        vm.plan_run(VmExecutionMode::Batch),
        RunPlan { first: 0, count: 3, closes_batch: true }
    );
    vm.inspect(quiet_run(1), VmExecutionMode::OneTx);
    assert_eq!(
        vm.plan_run(VmExecutionMode::OneTx),
        RunPlan { first: 1, count: 1, closes_batch: false }
    );
    assert_eq!(
        vm.plan_run(VmExecutionMode::Batch),
        RunPlan { first: 1, count: 2, closes_batch: true }
    );
    vm.finish_batch(quiet_run(1));
    assert_eq!(
        vm.plan_run(VmExecutionMode::Batch),
        RunPlan { first: 3, count: 0, closes_batch: false }
    );
    assert_eq!(
        vm.plan_run(VmExecutionMode::OneTx),
        RunPlan { first: 3, count: 0, closes_batch: false }
    );
    assert_eq!(
        plan_run(5, 3, ExecutionPhase::Executing, VmExecutionMode::Batch),
        RunPlan { first: 5, count: 0, closes_batch: true }
    );
}
