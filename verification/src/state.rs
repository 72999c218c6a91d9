//! The low-level state that a batch accumulates, and the record of one run
//! of the interpreter that adds to it.

use vstd::prelude::*;
use crate::primitives::{append_vec, copy_vec, saturating_add, spec_saturating_add, Word};
use crate::logs::{L2ToL1Log, LogQuery};
use crate::events::EventMessage;
use crate::bootloader::{PubdataInput, PubdataView};

verus! {

/// How a run ended.
#[derive(Clone, Copy, Debug, PartialEq, Eq, Structural)]
pub enum ExecutionResult {
    Success,
    Revert,
    Halt,
}

/// What the backing storage holds that the engine itself reads: the hashes
/// of the bytecodes that are published already.
#[derive(Clone, Debug)]
pub struct Storage {
    pub known_bytecodes: Vec<Word>,
}

/// What one run of the interpreter did: how it ended, what it used, and
/// everything it wrote, each list in the order of writing.
#[derive(Clone, Debug)]
pub struct RunRecord {
    pub result: ExecutionResult,
    pub cycles: u32,
    pub gas_used: u32,
    pub events: Vec<EventMessage>,
    pub deduplicated_events_logs: Vec<LogQuery>,
    pub l1_messages: Vec<L2ToL1Log>,
    pub event_sink_log_queries: u32,
    pub precompile_timestamps: Vec<u32>,
    pub storage_log_queries: Vec<LogQuery>,
    pub used_contract_hashes: Vec<Word>,
    pub storage_refunds: Vec<u32>,
    pub published_bytecodes: Vec<Word>,
    /// The public data of the batch, where the run has assembled it.
    pub pubdata: Option<PubdataInput>,
}

/// What a [`RunRecord`] holds.
pub struct RunRecordView {
    pub result: ExecutionResult,
    pub cycles: u32,
    pub gas_used: u32,
    pub events: Seq<EventMessage>,
    pub deduplicated_events_logs: Seq<LogQuery>,
    pub l1_messages: Seq<L2ToL1Log>,
    pub event_sink_log_queries: u32,
    pub precompile_timestamps: Seq<u32>,
    pub storage_log_queries: Seq<LogQuery>,
    pub used_contract_hashes: Seq<Word>,
    pub storage_refunds: Seq<u32>,
    pub published_bytecodes: Seq<Word>,
    pub pubdata: Option<PubdataView>,
}

impl View for RunRecord {
    type V = RunRecordView;

    open spec fn view(&self) -> RunRecordView {
        RunRecordView {
            result: self.result,
            cycles: self.cycles,
            gas_used: self.gas_used,
            events: self.events@,
            deduplicated_events_logs: self.deduplicated_events_logs@,
            l1_messages: self.l1_messages@,
            event_sink_log_queries: self.event_sink_log_queries,
            precompile_timestamps: self.precompile_timestamps@,
            storage_log_queries: self.storage_log_queries@,
            used_contract_hashes: self.used_contract_hashes@,
            storage_refunds: self.storage_refunds@,
            published_bytecodes: self.published_bytecodes@,
            pubdata: match self.pubdata {
                Some(p) => Some(p@),
                None => None,
            },
        }
    }
}

/// The low-level state of the machine, as far as the engine reads it.
#[derive(Clone, Debug)]
pub struct VmState {
    /// The raw event stream, in the order of writing.
    pub raw_events: Vec<EventMessage>,
    pub deduplicated_events_logs: Vec<LogQuery>,
    /// The raw system messages for the settlement layer.
    pub l1_messages: Vec<L2ToL1Log>,
    /// How many queries the event sink has taken.
    pub event_sink_log_queries: u64,
    /// The precompile processor's history of timestamps.
    pub precompile_timestamps: Vec<u32>,
    pub storage_log_queries: Vec<LogQuery>,
    pub used_contract_hashes: Vec<Word>,
    /// The refunds that the storage oracle has returned.
    pub storage_refunds: Vec<u32>,
    /// The cycles used so far. It never decreases.
    pub monotonic_cycle_counter: u64,
    /// The hashes of the published bytecodes.
    pub known_bytecodes: Vec<Word>,
}

/// What a [`VmState`] holds.
pub struct VmStateView {
    pub raw_events: Seq<EventMessage>,
    pub deduplicated_events_logs: Seq<LogQuery>,
    pub l1_messages: Seq<L2ToL1Log>,
    pub event_sink_log_queries: u64,
    pub precompile_timestamps: Seq<u32>,
    pub storage_log_queries: Seq<LogQuery>,
    pub used_contract_hashes: Seq<Word>,
    pub storage_refunds: Seq<u32>,
    pub monotonic_cycle_counter: u64,
    pub known_bytecodes: Seq<Word>,
}

impl View for VmState {
    type V = VmStateView;

    open spec fn view(&self) -> VmStateView {
        VmStateView {
            raw_events: self.raw_events@,
            deduplicated_events_logs: self.deduplicated_events_logs@,
            l1_messages: self.l1_messages@,
            event_sink_log_queries: self.event_sink_log_queries,
            precompile_timestamps: self.precompile_timestamps@,
            storage_log_queries: self.storage_log_queries@,
            used_contract_hashes: self.used_contract_hashes@,
            storage_refunds: self.storage_refunds@,
            monotonic_cycle_counter: self.monotonic_cycle_counter,
            known_bytecodes: self.known_bytecodes@,
        }
    }
}

impl VmStateView {
    /// The state before anything has run, over a storage that knows the
    /// bytecodes `known`.
    pub open spec fn initial(known: Seq<Word>) -> VmStateView {
        VmStateView {
            raw_events: Seq::empty(),
            deduplicated_events_logs: Seq::empty(),
            l1_messages: Seq::empty(),
            event_sink_log_queries: 0,
            precompile_timestamps: Seq::empty(),
            storage_log_queries: Seq::empty(),
            used_contract_hashes: Seq::empty(),
            storage_refunds: Seq::empty(),
            monotonic_cycle_counter: 0,
            known_bytecodes: known,
        }
    }

    /// The state after `run`: every list has grown by what the run wrote,
    /// and the two counters by what it used, without wrapping.
    pub open spec fn apply(self, run: RunRecordView) -> VmStateView {
        VmStateView {
            raw_events: self.raw_events + run.events,
            deduplicated_events_logs: self.deduplicated_events_logs + run.deduplicated_events_logs,
            l1_messages: self.l1_messages + run.l1_messages,
            event_sink_log_queries: spec_saturating_add(
                self.event_sink_log_queries,
                run.event_sink_log_queries as u64,
            ),
            precompile_timestamps: self.precompile_timestamps + run.precompile_timestamps,
            storage_log_queries: self.storage_log_queries + run.storage_log_queries,
            used_contract_hashes: self.used_contract_hashes + run.used_contract_hashes,
            storage_refunds: self.storage_refunds + run.storage_refunds,
            monotonic_cycle_counter: spec_saturating_add(
                self.monotonic_cycle_counter,
                run.cycles as u64,
            ),
            known_bytecodes: self.known_bytecodes + run.published_bytecodes,
        }
    }

    /// The number of log queries: those of the event sink, the length of
    /// the precompile processor's history, and the storage log queries.
    pub open spec fn total_log_queries(self) -> nat {
        (self.event_sink_log_queries + self.precompile_timestamps.len()
            + self.storage_log_queries.len()) as nat
    }
}

impl VmState {
    /// The state at the start of a batch, over `storage`.
    pub fn new(storage: Storage) -> (state: VmState)
        ensures
            state@ == VmStateView::initial(storage.known_bytecodes@),
    {
        let state = VmState {
            raw_events: Vec::new(),
            deduplicated_events_logs: Vec::new(),
            l1_messages: Vec::new(),
            event_sink_log_queries: 0,
            precompile_timestamps: Vec::new(),
            storage_log_queries: Vec::new(),
            used_contract_hashes: Vec::new(),
            storage_refunds: Vec::new(),
            monotonic_cycle_counter: 0,
            known_bytecodes: storage.known_bytecodes,
        };
        proof {
            assert(state.raw_events@ =~= Seq::empty());
            assert(state.deduplicated_events_logs@ =~= Seq::empty());
            assert(state.l1_messages@ =~= Seq::empty());
            assert(state.precompile_timestamps@ =~= Seq::empty());
            assert(state.storage_log_queries@ =~= Seq::empty());
            assert(state.used_contract_hashes@ =~= Seq::empty());
            assert(state.storage_refunds@ =~= Seq::empty());
        }
        state
    }

    /// A copy of the state.
    pub fn copy(&self) -> (state: VmState)
        ensures
            state@ == self@,
    {
        VmState {
            raw_events: copy_vec(&self.raw_events),
            deduplicated_events_logs: copy_vec(&self.deduplicated_events_logs),
            l1_messages: copy_vec(&self.l1_messages),
            event_sink_log_queries: self.event_sink_log_queries,
            precompile_timestamps: copy_vec(&self.precompile_timestamps),
            storage_log_queries: copy_vec(&self.storage_log_queries),
            used_contract_hashes: copy_vec(&self.used_contract_hashes),
            storage_refunds: copy_vec(&self.storage_refunds),
            monotonic_cycle_counter: self.monotonic_cycle_counter,
            known_bytecodes: copy_vec(&self.known_bytecodes),
        }
    }

    /// Takes in what `run` wrote and used.
    pub fn apply(&mut self, run: &RunRecord)
        ensures
            final(self)@ == old(self)@.apply(run@),
            final(self)@.monotonic_cycle_counter >= old(self)@.monotonic_cycle_counter,
    {
        append_vec(&mut self.raw_events, &run.events);
        append_vec(&mut self.deduplicated_events_logs, &run.deduplicated_events_logs);
        append_vec(&mut self.l1_messages, &run.l1_messages);
        self.event_sink_log_queries = saturating_add(
            self.event_sink_log_queries,
            run.event_sink_log_queries as u64,
        );
        append_vec(&mut self.precompile_timestamps, &run.precompile_timestamps);
        append_vec(&mut self.storage_log_queries, &run.storage_log_queries);
        append_vec(&mut self.used_contract_hashes, &run.used_contract_hashes);
        append_vec(&mut self.storage_refunds, &run.storage_refunds);
        self.monotonic_cycle_counter = saturating_add(
            self.monotonic_cycle_counter,
            run.cycles as u64,
        );
        append_vec(&mut self.known_bytecodes, &run.published_bytecodes);
    }

    /// The number of log queries so far.
    pub fn total_log_queries(&self) -> (total: u128)
        ensures
            total == self@.total_log_queries(),
    {
        self.event_sink_log_queries as u128 + self.precompile_timestamps.len() as u128
            + self.storage_log_queries.len() as u128
    }
}

} // verus!
