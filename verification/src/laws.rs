//! What holds of the engine over whole sequences of operations.
//!
//! Every method of the engine takes its view to the view that the matching
//! function on [`VmView`] gives. The laws here are stated over those
//! functions, so they hold of every engine, whatever was done to it.

use vstd::prelude::*;
use crate::primitives::Word;
use crate::env::{spec_plan_run, ExecutionPhase, L1BatchEnv, L2BlockEnv, SystemEnv, VmExecutionMode};
use crate::bootloader::TransactionView;
use crate::state::RunRecordView;
use crate::interface::spec_current_execution_state;
use crate::vm::VmView;

verus! {

/// One call on the engine.
pub enum Operation {
    PushTransaction { tx: TransactionView, with_compression: bool },
    StartNewL2Block { env: L2BlockEnv },
    Inspect { run: RunRecordView, mode: VmExecutionMode },
    MakeSnapshot,
    Rollback,
    PopSnapshot,
}

/// The engine in the state `vm` may be asked for `op`.
pub open spec fn spec_permits(vm: VmView, op: Operation) -> bool {
    match op {
        Operation::PushTransaction { .. } => !vm.completed(),
        Operation::Rollback => vm.snapshots.len() > 0,
        Operation::PopSnapshot => vm.snapshots.len() > 0,
        _ => true,
    }
}

/// The engine after `op`.
pub open spec fn spec_step(vm: VmView, op: Operation) -> VmView {
    match op {
        Operation::PushTransaction { tx, with_compression } => vm.push_transaction(
            tx,
            with_compression,
        ),
        Operation::StartNewL2Block { env } => vm.start_new_l2_block(env),
        Operation::Inspect { run, mode } => vm.inspect(run, mode),
        Operation::MakeSnapshot => vm.make_snapshot(),
        Operation::Rollback => vm.rollback_to_the_latest_snapshot(),
        Operation::PopSnapshot => vm.pop_snapshot_no_rollback(),
    }
}

/// The engine after the operations `ops`, the first one first.
pub open spec fn spec_run(vm: VmView, ops: Seq<Operation>) -> VmView
    decreases ops.len(),
{
    if ops.len() == 0 {
        vm
    } else {
        spec_step(spec_run(vm, ops.drop_last()), ops.last())
    }
}

/// Each of `ops` is permitted where it is asked for, and the stack of
/// checkpoints never holds fewer than `floor` of them.
pub open spec fn spec_legal(vm: VmView, ops: Seq<Operation>, floor: nat) -> bool
    decreases ops.len(),
{
    if ops.len() == 0 {
        vm.snapshots.len() >= floor
    } else {
        &&& spec_legal(vm, ops.drop_last(), floor)
        &&& spec_permits(spec_run(vm, ops.drop_last()), ops.last())
        &&& spec_run(vm, ops).snapshots.len() >= floor
    }
}

/// Operations that never take the stack below `floor` leave its lowest
/// `floor` checkpoints, and the two environments, as they were.
pub proof fn lemma_floor_is_kept(vm: VmView, ops: Seq<Operation>, floor: nat)
    requires
        spec_legal(vm, ops, floor),
    ensures
        spec_run(vm, ops).snapshots.len() >= floor,
        spec_run(vm, ops).snapshots.take(floor as int) == vm.snapshots.take(floor as int),
        spec_run(vm, ops).batch_env == vm.batch_env,
        spec_run(vm, ops).system_env == vm.system_env,
    decreases ops.len(),
{
    if ops.len() > 0 {
        lemma_floor_is_kept(vm, ops.drop_last(), floor);
        let before = spec_run(vm, ops.drop_last());
        let after = spec_run(vm, ops);
        assert(after.snapshots.take(floor as int) =~= before.snapshots.take(floor as int));
    }
}

/// A fresh engine has consumed nothing, and no permitted operation lets the
/// program get ahead of the queue, now or at any checkpoint.
pub proof fn lemma_wf_is_kept(vm: VmView, ops: Seq<Operation>)
    requires
        vm.wf(),
        spec_legal(vm, ops, 0),
    ensures
        spec_run(vm, ops).wf(),
    decreases ops.len(),
{
    if ops.len() > 0 {
        lemma_wf_is_kept(vm, ops.drop_last());
        let before = spec_run(vm, ops.drop_last());
        let after = spec_run(vm, ops);
        assert forall|i: int| 0 <= i < after.snapshots.len() implies (
        #[trigger] after.snapshots[i]).bootloader_state.wf() by {
            if i < before.snapshots.len() {
                assert(after.snapshots[i] == before.snapshots[i]);
            }
        }
        match ops.last() {
            Operation::Rollback => {
                assert(before.snapshots.last() == before.snapshots[before.snapshots.len() - 1]);
            },
            _ => {},
        }
    }
}

/// A fresh engine is well formed.
pub proof fn lemma_initial_is_wf(batch_env: L1BatchEnv, system_env: SystemEnv, known: Seq<Word>)
    ensures
        VmView::initial(batch_env, system_env, known).wf(),
        VmView::initial(batch_env, system_env, known).bootloader_state.phase
            == ExecutionPhase::Idle,
        !VmView::initial(batch_env, system_env, known).completed(),
{
}

/// A run does what was planned for it. After a run in `mode`, the program
/// has consumed the transactions that the plan named, and the batch is
/// closed if and only if it was closed before or the plan closed it.
pub proof fn lemma_run_follows_plan(vm: VmView, run: RunRecordView, mode: VmExecutionMode)
    requires
        vm.wf(),
        vm.bootloader_state.transactions.len() <= usize::MAX,
    ensures
        ({
            let plan = spec_plan_run(
                vm.bootloader_state.consumed as usize,
                vm.bootloader_state.transactions.len() as usize,
                vm.bootloader_state.phase,
                mode,
            );
            let after = vm.inspect(run, mode);
            &&& plan.first == vm.bootloader_state.consumed
            &&& after.bootloader_state.consumed == plan.first + plan.count
            &&& after.completed() <==> vm.completed() || plan.closes_batch
            &&& after.bootloader_state.transactions == vm.bootloader_state.transactions
            &&& after.bootloader_state.memory == vm.bootloader_state.memory
        }),
{
}

/// A checkpoint that is taken off again without going back changes nothing:
/// the engine is what it was before the checkpoint was made.
pub proof fn lemma_snapshot_then_pop(vm: VmView)
    ensures
        vm.make_snapshot().snapshots.len() > 0,
        vm.make_snapshot().pop_snapshot_no_rollback() == vm,
{
    assert(vm.make_snapshot().snapshots.drop_last() =~= vm.snapshots);
}

/// Going back restores everything. Let a checkpoint be made, and then any
/// operations that never touch that checkpoint and leave it the latest:
/// going back then gives the engine as it was before the checkpoint was
/// made, whatever the operations were.
pub proof fn lemma_rollback_fidelity(vm: VmView, ops: Seq<Operation>)
    requires
        spec_legal(vm.make_snapshot(), ops, vm.snapshots.len() + 1),
        spec_run(vm.make_snapshot(), ops).snapshots.len() == vm.snapshots.len() + 1,
    ensures
        spec_run(vm.make_snapshot(), ops).rollback_to_the_latest_snapshot() == vm,
{
    let made = vm.make_snapshot();
    let end = spec_run(made, ops);
    let depth = vm.snapshots.len() + 1;
    lemma_floor_is_kept(made, ops, depth);
    assert(end.snapshots =~= end.snapshots.take(depth as int));
    assert(made.snapshots =~= made.snapshots.take(depth as int));
    assert(end.snapshots.drop_last() =~= vm.snapshots);
}

/// Checkpoints are resolved last in, first out. Let a first checkpoint be
/// made, then operations `first`, then a second checkpoint, then operations
/// `second`, where neither run of operations touches the checkpoints made
/// before it. Going back once gives the engine as it was when the second
/// checkpoint was made; going back again gives it as it was when the first
/// was made; and where the stack was empty at the start, it is empty then,
/// so that going back a third time is not permitted.
pub proof fn lemma_lifo(vm: VmView, first: Seq<Operation>, second: Seq<Operation>)
    requires
        spec_legal(vm.make_snapshot(), first, vm.snapshots.len() + 1),
        spec_run(vm.make_snapshot(), first).snapshots.len() == vm.snapshots.len() + 1,
        spec_legal(
            spec_run(vm.make_snapshot(), first).make_snapshot(),
            second,
            vm.snapshots.len() + 2,
        ),
        spec_run(spec_run(vm.make_snapshot(), first).make_snapshot(), second).snapshots.len()
            == vm.snapshots.len() + 2,
    ensures
        ({
            let middle = spec_run(vm.make_snapshot(), first);
            let end = spec_run(middle.make_snapshot(), second);
            &&& end.rollback_to_the_latest_snapshot() == middle
            &&& end.rollback_to_the_latest_snapshot().rollback_to_the_latest_snapshot() == vm
            &&& vm.snapshots.len() == 0 ==> !spec_permits(
                end.rollback_to_the_latest_snapshot().rollback_to_the_latest_snapshot(),
                Operation::Rollback,
            )
        }),
{
    let middle = spec_run(vm.make_snapshot(), first);
    lemma_rollback_fidelity(middle, second);
    lemma_rollback_fidelity(vm, first);
}

/// A batch is determined by what is put into it. Two engines that start
/// from the same environments and the same storage and are asked for the
/// same operations end in the same state, and so give the same aggregate.
pub proof fn lemma_replay_is_determined(
    a: VmView,
    b: VmView,
    batch_env: L1BatchEnv,
    system_env: SystemEnv,
    known: Seq<Word>,
    ops: Seq<Operation>,
)
    requires
        a == VmView::initial(batch_env, system_env, known),
        b == VmView::initial(batch_env, system_env, known),
    ensures
        spec_run(a, ops) == spec_run(b, ops),
        spec_current_execution_state(spec_run(a, ops).state, spec_run(a, ops).batch_env.number)
            == spec_current_execution_state(
            spec_run(b, ops).state,
            spec_run(b, ops).batch_env.number,
        ),
{
}

/// No operation is a return to a checkpoint.
pub open spec fn spec_no_rollback(ops: Seq<Operation>) -> bool {
    forall|i: int| 0 <= i < ops.len() ==> #[trigger] ops[i] != Operation::Rollback
}

/// The cycle count never decreases, whatever is done, as long as the engine
/// does not go back to a checkpoint.
pub proof fn lemma_cycles_never_decrease(vm: VmView, ops: Seq<Operation>)
    requires
        spec_no_rollback(ops),
    ensures
        spec_run(vm, ops).state.monotonic_cycle_counter >= vm.state.monotonic_cycle_counter,
    decreases ops.len(),
{
    if ops.len() > 0 {
        assert(spec_no_rollback(ops.drop_last())) by {
            assert forall|i: int| 0 <= i < ops.drop_last().len() implies #[trigger] ops.drop_last()[i]
                != Operation::Rollback by {
                assert(ops.drop_last()[i] == ops[i]);
            }
        }
        lemma_cycles_never_decrease(vm, ops.drop_last());
        assert(ops.last() == ops[ops.len() - 1]);
    }
}

/// Of two runs taken in one after the other, the second reports at least
/// the cycles of the first.
pub proof fn lemma_successive_runs(
    vm: VmView,
    first: RunRecordView,
    first_mode: VmExecutionMode,
    second: RunRecordView,
    second_mode: VmExecutionMode,
)
    ensures
        vm.inspect(first, first_mode).inspect(second, second_mode).state.monotonic_cycle_counter
            >= vm.inspect(first, first_mode).state.monotonic_cycle_counter,
        vm.inspect(first, first_mode).state.monotonic_cycle_counter
            >= vm.state.monotonic_cycle_counter,
{
}

/// A closed batch stays closed, whatever is done, as long as the engine does
/// not go back to a checkpoint; and a run in batch mode closes it.
pub proof fn lemma_completed_stays(vm: VmView, ops: Seq<Operation>)
    requires
        spec_no_rollback(ops),
        vm.completed(),
    ensures
        spec_run(vm, ops).completed(),
    decreases ops.len(),
{
    if ops.len() > 0 {
        assert(spec_no_rollback(ops.drop_last())) by {
            assert forall|i: int| 0 <= i < ops.drop_last().len() implies #[trigger] ops.drop_last()[i]
                != Operation::Rollback by {
                assert(ops.drop_last()[i] == ops[i]);
            }
        }
        lemma_completed_stays(vm, ops.drop_last());
        assert(ops.last() == ops[ops.len() - 1]);
    }
}

} // verus!
