//! The bootloader's side of a batch: the queue of transactions, the L2-block
//! boundaries, the memory image, the compression artifacts of the last
//! transaction and the public data of the batch.

use vstd::prelude::*;
use crate::primitives::{copy_vec, append_vec, Word};
use crate::bytes::{
    contains_word, copy_bytes_list, push_frame_list, spec_bytes_list, spec_frame_list,
};
use crate::env::{
    next_consumed, next_phase, spec_next_consumed, spec_next_phase, ExecutionPhase, L2BlockEnv,
    VmExecutionMode,
};

verus! {

/// A contract's code that a transaction brings along, with its hash and,
/// where the code could be compressed, its compressed form.
#[derive(Clone, Debug)]
pub struct FactoryDep {
    pub hash: Word,
    pub bytecode: Vec<u8>,
    pub compressed: Option<Vec<u8>>,
}

/// What a [`FactoryDep`] holds.
pub struct FactoryDepView {
    pub hash: Word,
    pub bytecode: Seq<u8>,
    pub compressed: Option<Seq<u8>>,
}

impl View for FactoryDep {
    type V = FactoryDepView;

    open spec fn view(&self) -> FactoryDepView {
        FactoryDepView {
            hash: self.hash,
            bytecode: self.bytecode@,
            compressed: match self.compressed {
                Some(c) => Some(c@),
                None => None,
            },
        }
    }
}

/// A transaction as the bootloader takes it: the memory words that queue
/// it, and the code it brings along.
#[derive(Clone, Debug)]
pub struct Transaction {
    pub hash: Word,
    pub memory: Vec<(usize, Word)>,
    pub factory_deps: Vec<FactoryDep>,
}

/// What a [`Transaction`] holds.
pub struct TransactionView {
    pub hash: Word,
    pub memory: Seq<(usize, Word)>,
    pub factory_deps: Seq<FactoryDepView>,
}

/// The code that a list of factory deps holds.
pub open spec fn spec_deps(deps: Seq<FactoryDep>) -> Seq<FactoryDepView> {
    Seq::new(deps.len(), |i: int| deps[i]@)
}

impl View for Transaction {
    type V = TransactionView;

    open spec fn view(&self) -> TransactionView {
        TransactionView {
            hash: self.hash,
            memory: self.memory@,
            factory_deps: spec_deps(self.factory_deps@),
        }
    }
}

/// A compression artifact: a bytecode and its compressed form.
#[derive(Clone, Debug, PartialEq, Eq)]
pub struct CompressedBytecodeInfo {
    pub original: Vec<u8>,
    pub compressed: Vec<u8>,
}

/// What a [`CompressedBytecodeInfo`] holds.
pub struct CompressedBytecodeView {
    pub original: Seq<u8>,
    pub compressed: Seq<u8>,
}

impl View for CompressedBytecodeInfo {
    type V = CompressedBytecodeView;

    open spec fn view(&self) -> CompressedBytecodeView {
        CompressedBytecodeView { original: self.original@, compressed: self.compressed@ }
    }
}

/// What a list of compression artifacts holds.
pub open spec fn spec_artifacts(list: Seq<CompressedBytecodeInfo>) -> Seq<CompressedBytecodeView> {
    Seq::new(list.len(), |i: int| list[i]@)
}

/// A copy of a list of compression artifacts.
pub fn copy_artifacts(list: &Vec<CompressedBytecodeInfo>) -> (r: Vec<CompressedBytecodeInfo>)
    ensures
        spec_artifacts(r@) == spec_artifacts(list@),
{
    let mut r: Vec<CompressedBytecodeInfo> = Vec::new();
    let mut i: usize = 0;
    while i < list.len()
        invariant
            i <= list.len(),
            spec_artifacts(r@) == spec_artifacts(list@.take(i as int)),
        decreases list.len() - i,
    {
        let item = CompressedBytecodeInfo {
            original: copy_vec(&list[i].original),
            compressed: copy_vec(&list[i].compressed),
        };
        r.push(item);
        proof {
            assert(spec_artifacts(r@) =~= spec_artifacts(list@.take(i as int)).push(
                list@[i as int]@,
            ));
            assert(spec_artifacts(list@.take(i + 1)) =~= spec_artifacts(list@.take(i as int)).push(
                list@[i as int]@,
            ));
        }
        i += 1;
    }
    proof {
        assert(list@.take(list.len() as int) =~= list@);
    }
    r
}

/// A transaction in the queue, with the L2 block it was pushed under.
#[derive(Clone, Copy, Debug, PartialEq, Eq, Structural)]
pub struct QueuedTransaction {
    pub hash: Word,
    pub l2_block_number: u32,
    pub l2_block_timestamp: u64,
}

/// What a batch makes public: the messages for the settlement layer, the
/// bytecodes it published, and the records of the state it changed.
#[derive(Clone, Debug)]
pub struct PubdataInput {
    pub l2_to_l1_messages: Vec<Vec<u8>>,
    pub published_bytecodes: Vec<Vec<u8>>,
    pub state_diffs: Vec<Vec<u8>>,
}

/// What a [`PubdataInput`] holds.
pub struct PubdataView {
    pub l2_to_l1_messages: Seq<Seq<u8>>,
    pub published_bytecodes: Seq<Seq<u8>>,
    pub state_diffs: Seq<Seq<u8>>,
}

impl View for PubdataInput {
    type V = PubdataView;

    open spec fn view(&self) -> PubdataView {
        PubdataView {
            l2_to_l1_messages: spec_bytes_list(self.l2_to_l1_messages@),
            published_bytecodes: spec_bytes_list(self.published_bytecodes@),
            state_diffs: spec_bytes_list(self.state_diffs@),
        }
    }
}

/// The payload of a batch's public data: the framed messages, then the
/// framed bytecodes and, in the final build only, the framed state records.
pub open spec fn spec_build_pubdata(input: PubdataView, is_final: bool) -> Seq<u8> {
    spec_frame_list(input.l2_to_l1_messages) + spec_frame_list(input.published_bytecodes) + (
    if is_final {
        spec_frame_list(input.state_diffs)
    } else {
        Seq::empty()
    })
}

impl PubdataInput {
    /// Public data with nothing in it.
    pub fn empty() -> (input: PubdataInput)
        ensures
            input@ == (PubdataView {
                l2_to_l1_messages: Seq::empty(),
                published_bytecodes: Seq::empty(),
                state_diffs: Seq::empty(),
            }),
    {
        let input = PubdataInput {
            l2_to_l1_messages: Vec::new(),
            published_bytecodes: Vec::new(),
            state_diffs: Vec::new(),
        };
        proof {
            assert(spec_bytes_list(input.l2_to_l1_messages@) =~= Seq::empty());
            assert(spec_bytes_list(input.published_bytecodes@) =~= Seq::empty());
            assert(spec_bytes_list(input.state_diffs@) =~= Seq::empty());
        }
        input
    }

    /// A copy of the public data.
    pub fn copy(&self) -> (input: PubdataInput)
        ensures
            input@ == self@,
    {
        PubdataInput {
            l2_to_l1_messages: copy_bytes_list(&self.l2_to_l1_messages),
            published_bytecodes: copy_bytes_list(&self.published_bytecodes),
            state_diffs: copy_bytes_list(&self.state_diffs),
        }
    }

    /// Assembles the payload: the messages and the bytecodes, each as a
    /// framed list, and after them the state records where `is_final` is
    /// set.
    pub fn build_pubdata(&self, is_final: bool) -> (payload: Vec<u8>)
        ensures
            payload@ == spec_build_pubdata(self@, is_final),
    {
        let mut payload: Vec<u8> = Vec::new();
        push_frame_list(&mut payload, &self.l2_to_l1_messages);
        push_frame_list(&mut payload, &self.published_bytecodes);
        if is_final {
            push_frame_list(&mut payload, &self.state_diffs);
        }
        proof {
            assert(payload@ =~= spec_build_pubdata(self@, is_final));
        }
        payload
    }
}

/// The bootloader's state.
#[derive(Clone, Debug)]
pub struct BootloaderState {
    /// The memory image: every word written for the queue, in the order of
    /// writing.
    pub memory: Vec<(usize, Word)>,
    /// The queue, in push order.
    pub transactions: Vec<QueuedTransaction>,
    /// The L2 blocks started so far, the first one included.
    pub l2_blocks: Vec<L2BlockEnv>,
    /// The block that the next transaction is pushed under.
    pub current_l2_block: L2BlockEnv,
    /// The compression artifacts of the transaction pushed last.
    pub last_tx_compressed_bytecodes: Vec<CompressedBytecodeInfo>,
    /// The hashes of the code that the transaction pushed last has to get
    /// published in compressed form.
    pub last_tx_pending_bytecodes: Vec<Word>,
    /// How many transactions of the queue the program has consumed.
    pub consumed: usize,
    /// Where the program stands.
    pub phase: ExecutionPhase,
    /// The public data of the batch.
    pub pubdata: PubdataInput,
}

/// What a [`BootloaderState`] holds.
pub struct BootloaderView {
    pub memory: Seq<(usize, Word)>,
    pub transactions: Seq<QueuedTransaction>,
    pub l2_blocks: Seq<L2BlockEnv>,
    pub current_l2_block: L2BlockEnv,
    pub last_tx_compressed_bytecodes: Seq<CompressedBytecodeView>,
    pub last_tx_pending_bytecodes: Seq<Word>,
    pub consumed: nat,
    pub phase: ExecutionPhase,
    pub pubdata: PubdataView,
}

impl View for BootloaderState {
    type V = BootloaderView;

    open spec fn view(&self) -> BootloaderView {
        BootloaderView {
            memory: self.memory@,
            transactions: self.transactions@,
            l2_blocks: self.l2_blocks@,
            current_l2_block: self.current_l2_block,
            last_tx_compressed_bytecodes: spec_artifacts(self.last_tx_compressed_bytecodes@),
            last_tx_pending_bytecodes: self.last_tx_pending_bytecodes@,
            consumed: self.consumed as nat,
            phase: self.phase,
            pubdata: self.pubdata@,
        }
    }
}

/// The code of `dep` is not known yet, so the transaction has to get it
/// published.
pub open spec fn is_pending(dep: FactoryDepView, known: Seq<Word>) -> bool {
    !known.contains(dep.hash)
}

/// The code of `dep` is not known yet and has a compressed form.
pub open spec fn has_artifact(dep: FactoryDepView, known: Seq<Word>) -> bool {
    is_pending(dep, known) && dep.compressed is Some
}

/// The compression artifact of `dep`.
pub open spec fn spec_artifact_of(dep: FactoryDepView) -> CompressedBytecodeView {
    CompressedBytecodeView { original: dep.bytecode, compressed: dep.compressed->0 }
}

/// The compression artifacts of a transaction: one for each of its factory
/// deps that is not known yet and has a compressed form, in their order.
pub open spec fn spec_compressed_bytecodes(
    deps: Seq<FactoryDepView>,
    known: Seq<Word>,
) -> Seq<CompressedBytecodeView> {
    deps.filter(|d: FactoryDepView| has_artifact(d, known)).map_values(
        |d: FactoryDepView| spec_artifact_of(d),
    )
}

/// The hashes of a transaction's factory deps that are not known yet, in
/// their order.
pub open spec fn spec_pending_bytecodes(deps: Seq<FactoryDepView>, known: Seq<Word>) -> Seq<Word> {
    deps.filter(|d: FactoryDepView| is_pending(d, known)).map_values(|d: FactoryDepView| d.hash)
}

/// Some pending hash is not among the known ones.
pub open spec fn spec_has_unpublished(pending: Seq<Word>, known: Seq<Word>) -> bool {
    exists|i: int| 0 <= i < pending.len() && !known.contains(#[trigger] pending[i])
}

impl BootloaderView {
    /// The state before anything was pushed, with `first` as the open block.
    pub open spec fn initial(first: L2BlockEnv) -> BootloaderView {
        BootloaderView {
            memory: Seq::empty(),
            transactions: Seq::empty(),
            l2_blocks: seq![first],
            current_l2_block: first,
            last_tx_compressed_bytecodes: Seq::empty(),
            last_tx_pending_bytecodes: Seq::empty(),
            consumed: 0,
            phase: ExecutionPhase::Idle,
            pubdata: PubdataView {
                l2_to_l1_messages: Seq::empty(),
                published_bytecodes: Seq::empty(),
                state_diffs: Seq::empty(),
            },
        }
    }

    /// The state after `tx` was pushed. The transaction joins the end of the
    /// queue under the open block, and its words join the memory image.
    /// With compression, its artifacts and pending hashes are those of its
    /// deps that are not among `known`; without, there are none.
    pub open spec fn push_transaction(
        self,
        tx: TransactionView,
        with_compression: bool,
        known: Seq<Word>,
    ) -> BootloaderView {
        BootloaderView {
            memory: self.memory + tx.memory,
            transactions: self.transactions.push(
                QueuedTransaction {
                    hash: tx.hash,
                    l2_block_number: self.current_l2_block.number,
                    l2_block_timestamp: self.current_l2_block.timestamp,
                },
            ),
            last_tx_compressed_bytecodes: if with_compression {
                spec_compressed_bytecodes(tx.factory_deps, known)
            } else {
                Seq::empty()
            },
            last_tx_pending_bytecodes: if with_compression {
                spec_pending_bytecodes(tx.factory_deps, known)
            } else {
                Seq::empty()
            },
            ..self
        }
    }

    /// The state after the block `env` was started.
    pub open spec fn start_new_l2_block(self, env: L2BlockEnv) -> BootloaderView {
        BootloaderView { l2_blocks: self.l2_blocks.push(env), current_l2_block: env, ..self }
    }

    /// The state after a run in `mode`. In a closed batch nothing moves.
    pub open spec fn advance(self, mode: VmExecutionMode) -> BootloaderView {
        if self.phase == ExecutionPhase::Completed {
            self
        } else {
            BootloaderView {
                consumed: spec_next_consumed(self.consumed, self.transactions.len(), mode),
                phase: spec_next_phase(self.phase, mode),
                ..self
            }
        }
    }

    /// The state with `pubdata` as the batch's public data.
    pub open spec fn set_pubdata_input(self, pubdata: PubdataView) -> BootloaderView {
        BootloaderView { pubdata, ..self }
    }

    /// The program has consumed no more than was queued.
    pub open spec fn wf(self) -> bool {
        self.consumed <= self.transactions.len()
    }
}

impl BootloaderState {
    /// The state at the start of a batch whose first block is `first`.
    pub fn new(first: L2BlockEnv) -> (state: BootloaderState)
        ensures
            state@ == BootloaderView::initial(first),
    {
        let mut l2_blocks: Vec<L2BlockEnv> = Vec::new();
        l2_blocks.push(first);
        let state = BootloaderState {
            memory: Vec::new(),
            transactions: Vec::new(),
            l2_blocks,
            current_l2_block: first,
            last_tx_compressed_bytecodes: Vec::new(),
            last_tx_pending_bytecodes: Vec::new(),
            consumed: 0,
            phase: ExecutionPhase::Idle,
            pubdata: PubdataInput::empty(),
        };
        proof {
            assert(state.l2_blocks@ =~= seq![first]);
            assert(state.memory@ =~= Seq::empty());
            assert(state.transactions@ =~= Seq::empty());
            assert(state.last_tx_pending_bytecodes@ =~= Seq::empty());
            assert(spec_artifacts(state.last_tx_compressed_bytecodes@) =~= Seq::empty());
        }
        state
    }

    /// A copy of the state.
    pub fn copy(&self) -> (state: BootloaderState)
        ensures
            state@ == self@,
    {
        BootloaderState {
            memory: copy_vec(&self.memory),
            transactions: copy_vec(&self.transactions),
            l2_blocks: copy_vec(&self.l2_blocks),
            current_l2_block: self.current_l2_block,
            last_tx_compressed_bytecodes: copy_artifacts(&self.last_tx_compressed_bytecodes),
            last_tx_pending_bytecodes: copy_vec(&self.last_tx_pending_bytecodes),
            consumed: self.consumed,
            phase: self.phase,
            pubdata: self.pubdata.copy(),
        }
    }

    /// Queues `tx` under the open block. `known` holds the hashes of the
    /// code that is published already.
    pub fn push_transaction(&mut self, tx: Transaction, with_compression: bool, known: &Vec<Word>)
        ensures
            final(self)@ == old(self)@.push_transaction(tx@, with_compression, known@),
    {
        let mut artifacts: Vec<CompressedBytecodeInfo> = Vec::new();
        let mut pending: Vec<Word> = Vec::new();
        proof {
            assert(spec_artifacts(artifacts@) =~= Seq::empty());
        }
        if with_compression {
            let ghost deps = spec_deps(tx.factory_deps@);
            let ghost wanted = |d: FactoryDepView| is_pending(d, known@);
            let ghost usable = |d: FactoryDepView| has_artifact(d, known@);
            let ghost hash_of = |d: FactoryDepView| d.hash;
            let ghost artifact_of = |d: FactoryDepView| spec_artifact_of(d);
            proof {
                reveal(Seq::filter);
                assert(deps.take(0).filter(wanted) =~= Seq::empty());
                assert(deps.take(0).filter(usable) =~= Seq::empty());
                assert(deps.take(0).filter(wanted).map_values(hash_of) =~= Seq::empty());
                assert(deps.take(0).filter(usable).map_values(artifact_of) =~= Seq::empty());
            }
            let mut i: usize = 0;
            while i < tx.factory_deps.len()
                invariant
                    i <= tx.factory_deps.len(),
                    deps == spec_deps(tx.factory_deps@),
                    wanted == (|d: FactoryDepView| is_pending(d, known@)),
                    usable == (|d: FactoryDepView| has_artifact(d, known@)),
                    hash_of == (|d: FactoryDepView| d.hash),
                    artifact_of == (|d: FactoryDepView| spec_artifact_of(d)),
                    pending@ == deps.take(i as int).filter(wanted).map_values(hash_of),
                    spec_artifacts(artifacts@) == deps.take(i as int).filter(usable).map_values(
                        artifact_of,
                    ),
                decreases tx.factory_deps.len() - i,
            {
                let dep = &tx.factory_deps[i];
                let ghost seen = deps.take(i as int);
                let ghost before = spec_artifacts(artifacts@);
                proof {
                    assert(deps.take(i + 1) =~= seen.push(dep@));
                    seen.lemma_filter_push(dep@, wanted);
                    seen.lemma_filter_push(dep@, usable);
                }
                if !contains_word(known, dep.hash) {
                    pending.push(dep.hash);
                    proof {
                        assert(seen.filter(wanted).push(dep@).map_values(hash_of) =~= seen.filter(
                            wanted,
                        ).map_values(hash_of).push(dep@.hash));
                    }
                    match &dep.compressed {
                        Some(compressed) => {
                            let item = CompressedBytecodeInfo {
                                original: copy_vec(&dep.bytecode),
                                compressed: copy_vec(compressed),
                            };
                            artifacts.push(item);
                            proof {
                                assert(spec_artifacts(artifacts@) =~= before.push(
                                    spec_artifact_of(dep@),
                                ));
                                assert(seen.filter(usable).push(dep@).map_values(artifact_of)
                                    =~= seen.filter(usable).map_values(artifact_of).push(
                                    spec_artifact_of(dep@),
                                ));
                            }
                        },
                        None => {},
                    }
                }
                i += 1;
            }
            proof {
                assert(deps.take(tx.factory_deps.len() as int) =~= deps);
            }
        }
        append_vec(&mut self.memory, &tx.memory);
        self.transactions.push(
            QueuedTransaction {
                hash: tx.hash,
                l2_block_number: self.current_l2_block.number,
                l2_block_timestamp: self.current_l2_block.timestamp,
            },
        );
        self.last_tx_compressed_bytecodes = artifacts;
        self.last_tx_pending_bytecodes = pending;
    }

    /// Starts the block `env`: transactions pushed from now on stand under
    /// it.
    pub fn start_new_l2_block(&mut self, env: L2BlockEnv)
        ensures
            final(self)@ == old(self)@.start_new_l2_block(env),
    {
        self.l2_blocks.push(env);
        self.current_l2_block = env;
    }

    /// Records that a run in `mode` has ended.
    pub fn advance(&mut self, mode: VmExecutionMode)
        ensures
            final(self)@ == old(self)@.advance(mode),
    {
        match self.phase {
            ExecutionPhase::Completed => {},
            _ => {
                self.consumed = next_consumed(self.consumed, self.transactions.len(), mode);
                self.phase = next_phase(self.phase, mode);
            },
        }
    }

    /// Takes `pubdata` as the batch's public data.
    pub fn set_pubdata_input(&mut self, pubdata: PubdataInput)
        ensures
            final(self)@ == old(self)@.set_pubdata_input(pubdata@),
    {
        self.pubdata = pubdata;
    }

    /// The memory image.
    pub fn bootloader_memory(&self) -> (memory: Vec<(usize, Word)>)
        ensures
            memory@ == self@.memory,
    {
        copy_vec(&self.memory)
    }

    /// The compression artifacts of the transaction pushed last.
    pub fn get_last_tx_compressed_bytecodes(&self) -> (list: Vec<CompressedBytecodeInfo>)
        ensures
            spec_artifacts(list@) == self@.last_tx_compressed_bytecodes,
    {
        copy_artifacts(&self.last_tx_compressed_bytecodes)
    }

    /// The public data of the batch.
    pub fn get_pubdata_information(&self) -> (pubdata: &PubdataInput)
        ensures
            pubdata@ == self@.pubdata,
    {
        &self.pubdata
    }

    /// Whether code that the last transaction had to get published is still
    /// missing from `known`.
    pub fn has_unpublished_bytecodes(&self, known: &Vec<Word>) -> (missing: bool)
        ensures
            missing == spec_has_unpublished(self@.last_tx_pending_bytecodes, known@),
    {
        let mut i: usize = 0;
        while i < self.last_tx_pending_bytecodes.len()
            invariant
                i <= self.last_tx_pending_bytecodes.len(),
                forall|k: int| 0 <= k < i ==> known@.contains(self.last_tx_pending_bytecodes@[k]),
            decreases self.last_tx_pending_bytecodes.len() - i,
        {
            if !contains_word(known, self.last_tx_pending_bytecodes[i]) {
                return true;
            }
            i += 1;
        }
        false
    }
}

} // verus!
