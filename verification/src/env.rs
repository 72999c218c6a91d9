//! The parameters of a batch and the phases of its execution.

use vstd::prelude::*;
use crate::primitives::{Address, Word};

verus! {

/// The boundary of an L2 block inside a batch.
#[derive(Clone, Copy, Debug, PartialEq, Eq, Structural)]
pub struct L2BlockEnv {
    pub number: u32,
    pub timestamp: u64,
    pub prev_block_hash: Word,
    pub max_virtual_blocks_to_create: u32,
}

/// What is fixed for one batch.
#[derive(Clone, Copy, Debug, PartialEq, Eq, Structural)]
pub struct L1BatchEnv {
    pub number: u32,
    pub timestamp: u64,
    pub fee_account: Address,
    pub first_l2_block: L2BlockEnv,
}

/// What is fixed for the machine as a whole.
#[derive(Clone, Copy, Debug, PartialEq, Eq, Structural)]
pub struct SystemEnv {
    pub chain_id: u64,
    pub bootloader_gas_limit: u32,
    pub zk_porter_available: bool,
}

/// How far one run of the bootloader program goes.
#[derive(Clone, Copy, Debug, PartialEq, Eq, Structural)]
pub enum VmExecutionMode {
    /// Until one queued transaction has been processed.
    OneTx,
    /// Until the program's completion marker: every queued transaction and
    /// the sequence that closes the batch.
    Batch,
}

/// Where the bootloader program stands.
#[derive(Clone, Copy, Debug, PartialEq, Eq, Structural)]
pub enum ExecutionPhase {
    /// Nothing has run yet.
    Idle,
    /// At least one run has been made and the batch is still open.
    Executing,
    /// A run in batch mode has reached the completion marker.
    Completed,
}

/// What a run has to cover: `count` transactions of the queue, from the one
/// at `first` on, and the sequence that closes the batch where
/// `closes_batch` is set.
#[derive(Clone, Copy, Debug, PartialEq, Eq, Structural)]
pub struct RunPlan {
    pub first: usize,
    pub count: usize,
    pub closes_batch: bool,
}

/// What a run in `mode` has to cover where `consumed` of `queued`
/// transactions have been consumed and the program stands in `phase`. In a
/// closed batch there is nothing left to run. In an open one, a run for one
/// transaction covers the next pending transaction, if there is one, and a
/// run in batch mode covers all pending ones and closes the batch.
pub open spec fn spec_plan_run(
    consumed: usize,
    queued: usize,
    phase: ExecutionPhase,
    mode: VmExecutionMode,
) -> RunPlan {
    let pending = if consumed < queued {
        (queued - consumed) as usize
    } else {
        0
    };
    match phase {
        ExecutionPhase::Completed => RunPlan { first: consumed, count: 0, closes_batch: false },
        _ => match mode {
            VmExecutionMode::OneTx => RunPlan {
                first: consumed,
                count: if pending > 0 {
                    1
                } else {
                    0
                },
                closes_batch: false,
            },
            VmExecutionMode::Batch => RunPlan { first: consumed, count: pending, closes_batch: true },
        },
    }
}

/// Says what a run in `mode` has to cover.
pub fn plan_run(
    consumed: usize,
    queued: usize,
    phase: ExecutionPhase,
    mode: VmExecutionMode,
) -> (plan: RunPlan)
    ensures
        plan == spec_plan_run(consumed, queued, phase, mode),
{
    let pending: usize = if consumed < queued {
        queued - consumed
    } else {
        0
    };
    match phase {
        ExecutionPhase::Completed => RunPlan { first: consumed, count: 0, closes_batch: false },
        _ => match mode {
            VmExecutionMode::OneTx => RunPlan {
                first: consumed,
                count: if pending > 0 {
                    1
                } else {
                    0
                },
                closes_batch: false,
            },
            VmExecutionMode::Batch => RunPlan { first: consumed, count: pending, closes_batch: true },
        },
    }
}

/// The phase after a run in `mode` that started in `phase`.
pub open spec fn spec_next_phase(phase: ExecutionPhase, mode: VmExecutionMode) -> ExecutionPhase {
    match phase {
        ExecutionPhase::Completed => ExecutionPhase::Completed,
        _ => match mode {
            VmExecutionMode::OneTx => ExecutionPhase::Executing,
            VmExecutionMode::Batch => ExecutionPhase::Completed,
        },
    }
}

/// The number of queued transactions consumed after a run in `mode`, where
/// `consumed` of `queued` had been consumed before it.
pub open spec fn spec_next_consumed(consumed: nat, queued: nat, mode: VmExecutionMode) -> nat {
    match mode {
        VmExecutionMode::OneTx => if consumed < queued {
            consumed + 1
        } else {
            consumed
        },
        VmExecutionMode::Batch => if consumed < queued {
            queued
        } else {
            consumed
        },
    }
}

/// The phase that a run in `mode` leads to. A completed batch stays
/// completed; a run for one transaction keeps the batch open; a run in batch
/// mode completes it.
pub fn next_phase(phase: ExecutionPhase, mode: VmExecutionMode) -> (next: ExecutionPhase)
    ensures
        next == spec_next_phase(phase, mode),
{
    match phase {
        ExecutionPhase::Completed => ExecutionPhase::Completed,
        _ => match mode {
            VmExecutionMode::OneTx => ExecutionPhase::Executing,
            VmExecutionMode::Batch => ExecutionPhase::Completed,
        },
    }
}

/// How many queued transactions have been consumed once a run in `mode` has
/// ended: one more for a single-transaction run, if one was pending, and all
/// of them for a run in batch mode.
pub fn next_consumed(consumed: usize, queued: usize, mode: VmExecutionMode) -> (next: usize)
    ensures
        next == spec_next_consumed(consumed as nat, queued as nat, mode),
{
    match mode {
        VmExecutionMode::OneTx => if consumed < queued {
            consumed + 1
        } else {
            consumed
        },
        VmExecutionMode::Batch => if consumed < queued {
            queued
        } else {
            consumed
        },
    }
}

} // verus!
