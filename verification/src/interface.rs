//! What the engine hands out: the result of one run, the aggregate of a
//! batch, the terminal artifact, and the sizes it reports for diagnosis.

use vstd::prelude::*;
use crate::primitives::Word;
use crate::logs::{spec_system_logs, LogQuery, SystemL2ToL1Log, UserL2ToL1Log};
use crate::events::{spec_extract_user_logs, spec_vm_events, VmEvent};
use crate::state::{ExecutionResult, RunRecordView, VmStateView};

verus! {

/// Why a transaction that asked for compression could not be accepted.
#[derive(Clone, Copy, Debug, PartialEq, Eq, Structural)]
pub enum BytecodeCompressionError {
    /// After the run, code of the transaction was still unpublished.
    BytecodeCompressionFailed,
}

/// The result of one run.
#[derive(Clone, Debug, PartialEq, Eq)]
pub struct VmExecutionResultAndLogs {
    pub result: ExecutionResult,
    /// The events of this run, merged.
    pub events: Vec<VmEvent>,
    pub user_l2_to_l1_logs: Vec<UserL2ToL1Log>,
    pub system_l2_to_l1_logs: Vec<SystemL2ToL1Log>,
    pub storage_logs: Vec<LogQuery>,
    /// The cycles used in the batch up to the end of this run.
    pub cycles_used: u64,
    pub gas_used: u32,
    pub contracts_used: usize,
}

/// What a [`VmExecutionResultAndLogs`] holds.
pub struct VmExecutionResultView {
    pub result: ExecutionResult,
    pub events: Seq<VmEvent>,
    pub user_l2_to_l1_logs: Seq<UserL2ToL1Log>,
    pub system_l2_to_l1_logs: Seq<SystemL2ToL1Log>,
    pub storage_logs: Seq<LogQuery>,
    pub cycles_used: u64,
    pub gas_used: u32,
    pub contracts_used: nat,
}

impl View for VmExecutionResultAndLogs {
    type V = VmExecutionResultView;

    open spec fn view(&self) -> VmExecutionResultView {
        VmExecutionResultView {
            result: self.result,
            events: self.events@,
            user_l2_to_l1_logs: self.user_l2_to_l1_logs@,
            system_l2_to_l1_logs: self.system_l2_to_l1_logs@,
            storage_logs: self.storage_logs@,
            cycles_used: self.cycles_used,
            gas_used: self.gas_used,
            contracts_used: self.contracts_used as nat,
        }
    }
}

/// The result of the run `run` of batch `batch_number`, which left the
/// machine in the state `after`: the run's own events, merged, the messages
/// among them, its system messages and storage logs, and the cycle count of
/// the batch so far.
pub open spec fn spec_execution_result(
    after: VmStateView,
    run: RunRecordView,
    batch_number: u32,
) -> VmExecutionResultView {
    VmExecutionResultView {
        result: run.result,
        events: spec_vm_events(run.events, batch_number),
        user_l2_to_l1_logs: spec_extract_user_logs(spec_vm_events(run.events, batch_number)),
        system_l2_to_l1_logs: spec_system_logs(run.l1_messages),
        storage_logs: run.storage_log_queries,
        cycles_used: after.monotonic_cycle_counter,
        gas_used: run.gas_used,
        contracts_used: run.used_contract_hashes.len(),
    }
}

/// The aggregate of a batch.
#[derive(Clone, Debug, PartialEq, Eq)]
pub struct CurrentExecutionState {
    pub events: Vec<VmEvent>,
    pub deduplicated_events_logs: Vec<LogQuery>,
    pub storage_log_queries: Vec<LogQuery>,
    pub used_contract_hashes: Vec<Word>,
    pub user_l2_to_l1_logs: Vec<UserL2ToL1Log>,
    pub system_logs: Vec<SystemL2ToL1Log>,
    pub total_log_queries: u128,
    pub cycles_used: u64,
    pub storage_refunds: Vec<u32>,
}

/// What a [`CurrentExecutionState`] holds.
pub struct CurrentExecutionStateView {
    pub events: Seq<VmEvent>,
    pub deduplicated_events_logs: Seq<LogQuery>,
    pub storage_log_queries: Seq<LogQuery>,
    pub used_contract_hashes: Seq<Word>,
    pub user_l2_to_l1_logs: Seq<UserL2ToL1Log>,
    pub system_logs: Seq<SystemL2ToL1Log>,
    pub total_log_queries: nat,
    pub cycles_used: u64,
    pub storage_refunds: Seq<u32>,
}

impl View for CurrentExecutionState {
    type V = CurrentExecutionStateView;

    open spec fn view(&self) -> CurrentExecutionStateView {
        CurrentExecutionStateView {
            events: self.events@,
            deduplicated_events_logs: self.deduplicated_events_logs@,
            storage_log_queries: self.storage_log_queries@,
            used_contract_hashes: self.used_contract_hashes@,
            user_l2_to_l1_logs: self.user_l2_to_l1_logs@,
            system_logs: self.system_logs@,
            total_log_queries: self.total_log_queries as nat,
            cycles_used: self.cycles_used,
            storage_refunds: self.storage_refunds@,
        }
    }
}

/// The aggregate of batch `batch_number` in the state `state`. The events
/// are the whole raw stream, merged; the user messages are the emissions of
/// the system messenger among them, in their order; the system messages are
/// the raw ones, wrapped; the number of log queries is the sum of the three
/// counts; the rest is copied.
pub open spec fn spec_current_execution_state(
    state: VmStateView,
    batch_number: u32,
) -> CurrentExecutionStateView {
    CurrentExecutionStateView {
        events: spec_vm_events(state.raw_events, batch_number),
        deduplicated_events_logs: state.deduplicated_events_logs,
        storage_log_queries: state.storage_log_queries,
        used_contract_hashes: state.used_contract_hashes,
        user_l2_to_l1_logs: spec_extract_user_logs(spec_vm_events(state.raw_events, batch_number)),
        system_logs: spec_system_logs(state.l1_messages),
        total_log_queries: state.total_log_queries(),
        cycles_used: state.monotonic_cycle_counter,
        storage_refunds: state.storage_refunds,
    }
}

/// What a finished batch leaves behind.
#[derive(Clone, Debug, PartialEq, Eq)]
pub struct FinishedL1Batch {
    pub block_tip_execution_result: VmExecutionResultAndLogs,
    pub final_execution_state: CurrentExecutionState,
    pub final_bootloader_memory: Option<Vec<(usize, Word)>>,
    pub pubdata_input: Option<Vec<u8>>,
}

/// What a [`FinishedL1Batch`] holds.
pub struct FinishedL1BatchView {
    pub block_tip_execution_result: VmExecutionResultView,
    pub final_execution_state: CurrentExecutionStateView,
    pub final_bootloader_memory: Option<Seq<(usize, Word)>>,
    pub pubdata_input: Option<Seq<u8>>,
}

impl View for FinishedL1Batch {
    type V = FinishedL1BatchView;

    open spec fn view(&self) -> FinishedL1BatchView {
        FinishedL1BatchView {
            block_tip_execution_result: self.block_tip_execution_result@,
            final_execution_state: self.final_execution_state@,
            final_bootloader_memory: match self.final_bootloader_memory {
                Some(m) => Some(m@),
                None => None,
            },
            pubdata_input: match self.pubdata_input {
                Some(p) => Some(p@),
                None => None,
            },
        }
    }
}

/// The sizes of what the engine holds, for diagnosis.
#[derive(Clone, Copy, Debug, PartialEq, Eq, Structural)]
pub struct VmMemoryMetrics {
    pub raw_events: usize,
    pub l1_messages: usize,
    pub precompile_timestamps: usize,
    pub storage_log_queries: usize,
    pub used_contract_hashes: usize,
    pub storage_refunds: usize,
    pub known_bytecodes: usize,
    pub bootloader_memory: usize,
    pub queued_transactions: usize,
    pub snapshots: usize,
}

} // verus!
