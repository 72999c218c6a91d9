//! The engine: one instance for one batch.

use vstd::prelude::*;
use crate::primitives::{copy_vec, Word};
use crate::logs::system_logs;
use crate::env::{
    plan_run, spec_plan_run, ExecutionPhase, L1BatchEnv, L2BlockEnv, RunPlan, SystemEnv,
    VmExecutionMode,
};
use crate::events::{extract_user_l2_to_l1_logs, vm_events};
use crate::bootloader::{
    spec_artifacts, spec_build_pubdata, spec_has_unpublished, BootloaderState, BootloaderView,
    CompressedBytecodeInfo, Transaction, TransactionView,
};
use crate::state::{RunRecord, RunRecordView, Storage, VmState, VmStateView};
use crate::interface::{
    spec_current_execution_state, spec_execution_result, BytecodeCompressionError,
    CurrentExecutionState, FinishedL1Batch, VmExecutionResultAndLogs, VmMemoryMetrics,
};

verus! {

/// A checkpoint: the machine's state and the bootloader's, as they were when
/// it was made.
#[derive(Clone, Debug)]
pub struct VmSnapshot {
    pub state: VmState,
    pub bootloader_state: BootloaderState,
}

/// What a [`VmSnapshot`] holds.
pub struct VmSnapshotView {
    pub state: VmStateView,
    pub bootloader_state: BootloaderView,
}

impl View for VmSnapshot {
    type V = VmSnapshotView;

    open spec fn view(&self) -> VmSnapshotView {
        VmSnapshotView { state: self.state@, bootloader_state: self.bootloader_state@ }
    }
}

/// What a stack of checkpoints holds, the latest last.
pub open spec fn spec_snapshots(list: Seq<VmSnapshot>) -> Seq<VmSnapshotView> {
    Seq::new(list.len(), |i: int| list[i]@)
}

/// The engine. It owns the bootloader's state, the machine's state, the two
/// environments of the batch and the stack of checkpoints.
#[derive(Clone, Debug)]
pub struct Vm {
    bootloader_state: BootloaderState,
    state: VmState,
    system_env: SystemEnv,
    batch_env: L1BatchEnv,
    snapshots: Vec<VmSnapshot>,
}

/// What a [`Vm`] holds.
pub struct VmView {
    pub bootloader_state: BootloaderView,
    pub state: VmStateView,
    pub system_env: SystemEnv,
    pub batch_env: L1BatchEnv,
    /// The checkpoints, the latest last.
    pub snapshots: Seq<VmSnapshotView>,
}

impl View for Vm {
    type V = VmView;

    closed spec fn view(&self) -> VmView {
        VmView {
            bootloader_state: self.bootloader_state@,
            state: self.state@,
            system_env: self.system_env,
            batch_env: self.batch_env,
            snapshots: spec_snapshots(self.snapshots@),
        }
    }
}

impl VmView {
    /// The engine of a fresh batch over a storage that knows the bytecodes
    /// `known`: nothing queued, nothing run, no checkpoint.
    pub open spec fn initial(
        batch_env: L1BatchEnv,
        system_env: SystemEnv,
        known: Seq<Word>,
    ) -> VmView {
        VmView {
            bootloader_state: BootloaderView::initial(batch_env.first_l2_block),
            state: VmStateView::initial(known),
            system_env,
            batch_env,
            snapshots: Seq::empty(),
        }
    }

    /// The program has consumed no more than was queued, now and at every
    /// checkpoint.
    pub open spec fn wf(self) -> bool {
        &&& self.bootloader_state.wf()
        &&& forall|i: int|
            0 <= i < self.snapshots.len() ==> (#[trigger] self.snapshots[i]).bootloader_state.wf()
    }

    /// The batch is closed: a run in batch mode has been made.
    pub open spec fn completed(self) -> bool {
        self.bootloader_state.phase == ExecutionPhase::Completed
    }

    /// The engine after `tx` was pushed.
    pub open spec fn push_transaction(self, tx: TransactionView, with_compression: bool) -> VmView {
        VmView {
            bootloader_state: self.bootloader_state.push_transaction(
                tx,
                with_compression,
                self.state.known_bytecodes,
            ),
            ..self
        }
    }

    /// The engine after the block `env` was started.
    pub open spec fn start_new_l2_block(self, env: L2BlockEnv) -> VmView {
        VmView { bootloader_state: self.bootloader_state.start_new_l2_block(env), ..self }
    }

    /// The engine after the run `run` in `mode`: the machine's state has
    /// taken in what the run wrote, the bootloader has taken the public data
    /// where the run assembled it, and the program has moved on as the mode
    /// says.
    pub open spec fn inspect(self, run: RunRecordView, mode: VmExecutionMode) -> VmView {
        let fed = match run.pubdata {
            Some(p) => self.bootloader_state.set_pubdata_input(p),
            None => self.bootloader_state,
        };
        VmView { state: self.state.apply(run), bootloader_state: fed.advance(mode), ..self }
    }

    /// The engine after a checkpoint was made.
    pub open spec fn make_snapshot(self) -> VmView {
        VmView {
            snapshots: self.snapshots.push(
                VmSnapshotView { state: self.state, bootloader_state: self.bootloader_state },
            ),
            ..self
        }
    }

    /// The engine after it went back to the latest checkpoint.
    pub open spec fn rollback_to_the_latest_snapshot(self) -> VmView
        recommends
            self.snapshots.len() > 0,
    {
        VmView {
            state: self.snapshots.last().state,
            bootloader_state: self.snapshots.last().bootloader_state,
            snapshots: self.snapshots.drop_last(),
            ..self
        }
    }

    /// The engine after the latest checkpoint was forgotten.
    pub open spec fn pop_snapshot_no_rollback(self) -> VmView
        recommends
            self.snapshots.len() > 0,
    {
        VmView { snapshots: self.snapshots.drop_last(), ..self }
    }

    /// Code that the last transaction had to get published is still
    /// unpublished.
    pub open spec fn has_unpublished_bytecodes(self) -> bool {
        spec_has_unpublished(
            self.bootloader_state.last_tx_pending_bytecodes,
            self.state.known_bytecodes,
        )
    }
}

impl Vm {
    /// An engine for the batch that `batch_env` describes, over `storage`.
    pub fn new(batch_env: L1BatchEnv, system_env: SystemEnv, storage: Storage) -> (vm: Vm)
        ensures
            vm@ == VmView::initial(batch_env, system_env, storage.known_bytecodes@),
    {
        let vm = Vm {
            bootloader_state: BootloaderState::new(batch_env.first_l2_block),
            state: VmState::new(storage),
            system_env,
            batch_env,
            snapshots: Vec::new(),
        };
        proof {
            assert(spec_snapshots(vm.snapshots@) =~= Seq::empty());
        }
        vm
    }

    /// Queues `tx` for execution, with bytecode compression.
    pub fn push_transaction(&mut self, tx: Transaction)
        requires
            !old(self)@.completed(),
        ensures
            final(self)@ == old(self)@.push_transaction(tx@, true),
    {
        self.push_transaction_with_compression(tx, true);
    }

    /// Queues `tx` for execution. With compression, the transaction has to
    /// get its code published in compressed form.
    pub fn push_transaction_with_compression(&mut self, tx: Transaction, with_compression: bool)
        requires
            !old(self)@.completed(),
        ensures
            final(self)@ == old(self)@.push_transaction(tx@, with_compression),
    {
        self.bootloader_state.push_transaction(tx, with_compression, &self.state.known_bytecodes);
    }

    /// Says what the next run has to cover, if it is made in
    /// `execution_mode`.
    pub fn plan_run(&self, execution_mode: VmExecutionMode) -> (plan: RunPlan)
        ensures
            plan == spec_plan_run(
                self@.bootloader_state.consumed as usize,
                self@.bootloader_state.transactions.len() as usize,
                self@.bootloader_state.phase,
                execution_mode,
            ),
    {
        plan_run(
            self.bootloader_state.consumed,
            self.bootloader_state.transactions.len(),
            self.bootloader_state.phase,
            execution_mode,
        )
    }

    /// Takes in the run `run`, which the interpreter made in
    /// `execution_mode`, and returns its result. The cycle count never
    /// decreases.
    pub fn inspect(
        &mut self,
        run: RunRecord,
        execution_mode: VmExecutionMode,
    ) -> (result: VmExecutionResultAndLogs)
        ensures
            final(self)@ == old(self)@.inspect(run@, execution_mode),
            result@ == spec_execution_result(final(self)@.state, run@, old(self)@.batch_env.number),
            result.cycles_used >= old(self)@.state.monotonic_cycle_counter,
            result.events.len() <= run.events.len(),
    {
        self.state.apply(&run);
        let events = vm_events(&run.events, self.batch_env.number);
        let user_l2_to_l1_logs = extract_user_l2_to_l1_logs(&events);
        let result = VmExecutionResultAndLogs {
            result: run.result,
            events,
            user_l2_to_l1_logs,
            system_l2_to_l1_logs: system_logs(&run.l1_messages),
            storage_logs: copy_vec(&run.storage_log_queries),
            cycles_used: self.state.monotonic_cycle_counter,
            gas_used: run.gas_used,
            contracts_used: run.used_contract_hashes.len(),
        };
        match run.pubdata {
            Some(pubdata) => {
                self.bootloader_state.set_pubdata_input(pubdata);
            },
            None => {},
        }
        self.bootloader_state.advance(execution_mode);
        result
    }

    /// The bootloader's memory image.
    pub fn get_bootloader_memory(&self) -> (memory: Vec<(usize, Word)>)
        ensures
            memory@ == self@.bootloader_state.memory,
    {
        self.bootloader_state.bootloader_memory()
    }

    /// The compression artifacts of the transaction pushed last.
    pub fn get_last_tx_compressed_bytecodes(&self) -> (list: Vec<CompressedBytecodeInfo>)
        ensures
            spec_artifacts(list@) == self@.bootloader_state.last_tx_compressed_bytecodes,
    {
        self.bootloader_state.get_last_tx_compressed_bytecodes()
    }

    /// Starts the L2 block `l2_block_env`.
    pub fn start_new_l2_block(&mut self, l2_block_env: L2BlockEnv)
        ensures
            final(self)@ == old(self)@.start_new_l2_block(l2_block_env),
    {
        self.bootloader_state.start_new_l2_block(l2_block_env);
    }

    /// The aggregate of the batch, from what has been recorded so far. It
    /// is the batch's final one once a run in batch mode has been made;
    /// before that it covers the runs made up to now.
    pub fn get_current_execution_state(&self) -> (current: CurrentExecutionState)
        ensures
            current@ == spec_current_execution_state(self@.state, self@.batch_env.number),
            current@.total_log_queries == self@.state.event_sink_log_queries
                + self@.state.precompile_timestamps.len() + self@.state.storage_log_queries.len(),
            current.events.len() <= self@.state.raw_events.len(),
    {
        let events = vm_events(&self.state.raw_events, self.batch_env.number);
        let user_l2_to_l1_logs = extract_user_l2_to_l1_logs(&events);
        let system_logs = system_logs(&self.state.l1_messages);
        let total_log_queries = self.state.total_log_queries();
        CurrentExecutionState {
            events,
            deduplicated_events_logs: copy_vec(&self.state.deduplicated_events_logs),
            storage_log_queries: copy_vec(&self.state.storage_log_queries),
            used_contract_hashes: copy_vec(&self.state.used_contract_hashes),
            user_l2_to_l1_logs,
            system_logs,
            total_log_queries,
            cycles_used: self.state.monotonic_cycle_counter,
            storage_refunds: copy_vec(&self.state.storage_refunds),
        }
    }

    /// Whether code that the last transaction had to get published is still
    /// unpublished.
    pub fn has_unpublished_bytecodes(&self) -> (missing: bool)
        ensures
            missing == self@.has_unpublished_bytecodes(),
    {
        self.bootloader_state.has_unpublished_bytecodes(&self.state.known_bytecodes)
    }

    /// Queues `tx` and takes in `run`, the run that the interpreter made
    /// for it. Where code of the transaction is still unpublished after the
    /// run, the result is the compression error; the engine keeps what the
    /// run did all the same, and a caller that wants it undone goes back to
    /// a checkpoint made before the call.
    pub fn inspect_transaction_with_bytecode_compression(
        &mut self,
        run: RunRecord,
        tx: Transaction,
        with_compression: bool,
    ) -> (result: Result<VmExecutionResultAndLogs, BytecodeCompressionError>)
        requires
            !old(self)@.completed(),
        ensures
            final(self)@ == old(self)@.push_transaction(tx@, with_compression).inspect(
                run@,
                VmExecutionMode::OneTx,
            ),
            result is Err <==> final(self)@.has_unpublished_bytecodes(),
            result is Err ==> result->Err_0 == BytecodeCompressionError::BytecodeCompressionFailed,
            result is Ok ==> result->Ok_0@ == spec_execution_result(
                final(self)@.state,
                run@,
                old(self)@.batch_env.number,
            ),
    {
        self.push_transaction_with_compression(tx, with_compression);
        let result = self.inspect(run, VmExecutionMode::OneTx);
        if self.has_unpublished_bytecodes() {
            Err(BytecodeCompressionError::BytecodeCompressionFailed)
        } else {
            Ok(result)
        }
    }

    /// The sizes of what the engine holds.
    pub fn record_vm_memory_metrics(&self) -> (metrics: VmMemoryMetrics)
        ensures
            metrics.raw_events == self@.state.raw_events.len(),
            metrics.l1_messages == self@.state.l1_messages.len(),
            metrics.precompile_timestamps == self@.state.precompile_timestamps.len(),
            metrics.storage_log_queries == self@.state.storage_log_queries.len(),
            metrics.used_contract_hashes == self@.state.used_contract_hashes.len(),
            metrics.storage_refunds == self@.state.storage_refunds.len(),
            metrics.known_bytecodes == self@.state.known_bytecodes.len(),
            metrics.bootloader_memory == self@.bootloader_state.memory.len(),
            metrics.queued_transactions == self@.bootloader_state.transactions.len(),
            metrics.snapshots == self@.snapshots.len(),
    {
        VmMemoryMetrics {
            raw_events: self.state.raw_events.len(),
            l1_messages: self.state.l1_messages.len(),
            precompile_timestamps: self.state.precompile_timestamps.len(),
            storage_log_queries: self.state.storage_log_queries.len(),
            used_contract_hashes: self.state.used_contract_hashes.len(),
            storage_refunds: self.state.storage_refunds.len(),
            known_bytecodes: self.state.known_bytecodes.len(),
            bootloader_memory: self.bootloader_state.memory.len(),
            queued_transactions: self.bootloader_state.transactions.len(),
            snapshots: self.snapshots.len(),
        }
    }

    /// Closes the batch: takes in `run`, the run that the interpreter made
    /// in batch mode, and bundles its result with the aggregate of the
    /// batch, the memory image and the payload of the public data, built as
    /// not final.
    pub fn finish_batch(&mut self, run: RunRecord) -> (finished: FinishedL1Batch)
        requires
            !old(self)@.completed(),
        ensures
            final(self)@ == old(self)@.inspect(run@, VmExecutionMode::Batch),
            final(self)@.completed(),
            finished@.block_tip_execution_result == spec_execution_result(
                final(self)@.state,
                run@,
                old(self)@.batch_env.number,
            ),
            finished@.final_execution_state == spec_current_execution_state(
                final(self)@.state,
                old(self)@.batch_env.number,
            ),
            finished@.final_bootloader_memory == Some(old(self)@.bootloader_state.memory),
            finished@.pubdata_input == Some(
                spec_build_pubdata(final(self)@.bootloader_state.pubdata, false),
            ),
    {
        let result = self.inspect(run, VmExecutionMode::Batch);
        let execution_state = self.get_current_execution_state();
        let bootloader_memory = self.get_bootloader_memory();
        FinishedL1Batch {
            block_tip_execution_result: result,
            final_execution_state: execution_state,
            final_bootloader_memory: Some(bootloader_memory),
            pubdata_input: Some(self.bootloader_state.get_pubdata_information().build_pubdata(false)),
        }
    }

    /// Makes a checkpoint of the machine's state and the bootloader's and
    /// puts it on the stack.
    pub fn make_snapshot(&mut self)
        ensures
            final(self)@ == old(self)@.make_snapshot(),
    {
        let snapshot = VmSnapshot {
            state: self.state.copy(),
            bootloader_state: self.bootloader_state.copy(),
        };
        self.snapshots.push(snapshot);
        proof {
            assert(spec_snapshots(self.snapshots@) =~= spec_snapshots(old(self).snapshots@).push(
                snapshot@,
            ));
        }
    }

    /// Goes back to the latest checkpoint and takes it off the stack.
    pub fn rollback_to_the_latest_snapshot(&mut self)
        requires
            old(self)@.snapshots.len() > 0,
        ensures
            final(self)@ == old(self)@.rollback_to_the_latest_snapshot(),
    {
        let snapshot = self.snapshots.pop().unwrap();
        proof {
            assert(spec_snapshots(self.snapshots@) =~= spec_snapshots(
                old(self).snapshots@,
            ).drop_last());
        }
        self.state = snapshot.state;
        self.bootloader_state = snapshot.bootloader_state;
    }

    /// Takes the latest checkpoint off the stack and keeps everything done
    /// since it was made.
    pub fn pop_snapshot_no_rollback(&mut self)
        requires
            old(self)@.snapshots.len() > 0,
        ensures
            final(self)@ == old(self)@.pop_snapshot_no_rollback(),
    {
        let _ = self.snapshots.pop();
        proof {
            assert(spec_snapshots(self.snapshots@) =~= spec_snapshots(
                old(self).snapshots@,
            ).drop_last());
        }
    }

    /// The number of checkpoints on the stack.
    pub fn snapshot_count(&self) -> (count: usize)
        ensures
            count == self@.snapshots.len(),
    {
        self.snapshots.len()
    }

    /// Where the bootloader program stands.
    pub fn phase(&self) -> (phase: ExecutionPhase)
        ensures
            phase == self@.bootloader_state.phase,
    {
        self.bootloader_state.phase
    }

    /// The cycles used in the batch so far.
    pub fn cycles_used(&self) -> (cycles: u64)
        ensures
            cycles == self@.state.monotonic_cycle_counter,
    {
        self.state.monotonic_cycle_counter
    }
}

} // verus!
