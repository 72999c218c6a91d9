//! From the raw event stream to the events of a batch.
//!
//! The event sink records every write of an event slot. A slot is a pair of
//! an emitting contract and a key; a run of consecutive writes to one slot
//! stands for one event, whose content is the last of these writes.

use vstd::prelude::*;
use crate::primitives::{Address, Word, l1_messenger_address, spec_l1_messenger_address};
use crate::logs::{L2ToL1Log, UserL2ToL1Log};

verus! {

/// One entry of the raw event stream.
#[derive(Clone, Copy, Debug, PartialEq, Eq, Structural)]
pub struct EventMessage {
    pub shard_id: u8,
    pub tx_number_in_block: u16,
    pub address: Address,
    pub key: Word,
    pub value: Word,
}

/// An event of the batch, with the place where it was emitted.
#[derive(Clone, Copy, Debug, PartialEq, Eq, Structural)]
pub struct VmEvent {
    pub batch_number: u32,
    pub tx_number_in_block: u16,
    pub shard_id: u8,
    pub address: Address,
    pub key: Word,
    pub value: Word,
}

/// Two entries write the same slot: same contract, same key.
pub open spec fn same_slot(a: EventMessage, b: EventMessage) -> bool {
    a.address == b.address && a.key == b.key
}

/// The entry at `i` is the last of its run: the next entry, if there is one,
/// writes another slot.
pub open spec fn is_run_end(raw: Seq<EventMessage>, i: int) -> bool {
    0 <= i < raw.len() && (i + 1 < raw.len() ==> !same_slot(raw[i], raw[i + 1]))
}

/// The merged stream: of every maximal run of consecutive entries that write
/// one slot, the last entry, in the order of the runs.
pub open spec fn spec_merge_events(raw: Seq<EventMessage>) -> Seq<EventMessage>
    decreases raw.len(),
{
    if raw.len() == 0 {
        Seq::empty()
    } else {
        let before = spec_merge_events(raw.drop_last());
        if raw.len() >= 2 && same_slot(raw[raw.len() - 2], raw.last()) {
            before.drop_last().push(raw.last())
        } else {
            before.push(raw.last())
        }
    }
}

/// The positions in `raw` of the entries that `spec_merge_events` keeps.
pub open spec fn spec_run_ends(raw: Seq<EventMessage>) -> Seq<int>
    decreases raw.len(),
{
    if raw.len() == 0 {
        Seq::empty()
    } else {
        let before = spec_run_ends(raw.drop_last());
        if raw.len() >= 2 && same_slot(raw[raw.len() - 2], raw.last()) {
            before.drop_last().push(raw.len() - 1)
        } else {
            before.push(raw.len() - 1)
        }
    }
}

/// If the entries at `i` and `j` write one slot, the entry at `k` writes it
/// too.
pub open spec fn slot_spans(raw: Seq<EventMessage>, i: int, k: int, j: int) -> bool {
    same_slot(raw[i], raw[j]) ==> same_slot(raw[i], raw[k])
}

/// Every slot is written in one run only: between two writes of a slot
/// there is no write of another.
pub open spec fn grouped(raw: Seq<EventMessage>) -> bool {
    forall|i: int, k: int, j: int|
        0 <= i <= k <= j < raw.len() ==> #[trigger] slot_spans(raw, i, k, j)
}

/// The merged stream is no longer than the raw one, and empty only if the
/// raw one is.
pub proof fn lemma_merge_len(raw: Seq<EventMessage>)
    ensures
        spec_merge_events(raw).len() <= raw.len(),
        raw.len() > 0 ==> spec_merge_events(raw).len() > 0,
        raw.len() > 0 ==> spec_merge_events(raw).last() == raw.last(),
    decreases raw.len(),
{
    if raw.len() > 0 {
        lemma_merge_len(raw.drop_last());
    }
}

/// The merged stream is the raw stream at the ends of its runs: the kept
/// positions increase strictly, each is the end of a run, the last one is
/// the last position of the stream, and every end of a run is kept.
pub proof fn lemma_merge_is_run_ends(raw: Seq<EventMessage>)
    ensures
        spec_run_ends(raw).len() == spec_merge_events(raw).len(),
        forall|j: int|
            0 <= j < spec_run_ends(raw).len() ==> is_run_end(raw, #[trigger] spec_run_ends(raw)[j])
                && spec_merge_events(raw)[j] == raw[spec_run_ends(raw)[j]],
        forall|j: int, k: int|
            0 <= j < k < spec_run_ends(raw).len() ==> #[trigger] spec_run_ends(raw)[j]
                < #[trigger] spec_run_ends(raw)[k],
        forall|i: int|
            is_run_end(raw, i) ==> exists|j: int|
                0 <= j < spec_run_ends(raw).len() && #[trigger] spec_run_ends(raw)[j] == i,
    decreases raw.len(),
{
    if raw.len() > 0 {
        let init = raw.drop_last();
        let n = raw.len() - 1;
        lemma_merge_is_run_ends(init);
        lemma_merge_len(init);
        let ends0 = spec_run_ends(init);
        let ends = spec_run_ends(raw);
        let merged0 = spec_merge_events(init);
        let merged = spec_merge_events(raw);
        assert forall|j: int| 0 <= j < ends0.len() implies 0 <= #[trigger] ends0[j] < n by {
            assert(is_run_end(init, ends0[j]));
        }
        if raw.len() >= 2 && same_slot(raw[raw.len() - 2], raw.last()) {
            // The last run grows by one entry.
            assert(is_run_end(init, n - 1));
            let w = choose|j: int| 0 <= j < ends0.len() && #[trigger] ends0[j] == n - 1;
            assert(w == ends0.len() - 1) by {
                if w < ends0.len() - 1 {
                    assert(ends0[w] < ends0[ends0.len() - 1]);
                }
            }
            assert forall|j: int| 0 <= j < ends.len() implies is_run_end(raw, #[trigger] ends[j])
                && merged[j] == raw[ends[j]] by {
                if j < ends.len() - 1 {
                    assert(ends[j] == ends0[j]);
                    assert(ends0[j] < ends0[ends0.len() - 1]);
                    assert(is_run_end(init, ends0[j]));
                    assert(init[ends0[j]] == raw[ends0[j]]);
                    assert(init[ends0[j] + 1] == raw[ends0[j] + 1]);
                }
            }
            assert forall|j: int, k: int| 0 <= j < k < ends.len() implies #[trigger] ends[j]
                < #[trigger] ends[k] by {
                assert(ends[j] == ends0[j]);
                if k < ends.len() - 1 {
                    assert(ends[k] == ends0[k]);
                }
            }
            assert forall|i: int| is_run_end(raw, i) implies exists|j: int|
                0 <= j < ends.len() && #[trigger] ends[j] == i by {
                if i == n {
                    assert(ends[ends.len() - 1] == i);
                } else {
                    assert(i != n - 1);
                    assert(init[i] == raw[i]);
                    assert(init[i + 1] == raw[i + 1]);
                    assert(is_run_end(init, i));
                    let j = choose|j: int| 0 <= j < ends0.len() && #[trigger] ends0[j] == i;
                    assert(j != ends0.len() - 1);
                    assert(ends[j] == i);
                }
            }
        } else {
            // The last entry starts a run of its own.
            assert forall|j: int| 0 <= j < ends.len() implies is_run_end(raw, #[trigger] ends[j])
                && merged[j] == raw[ends[j]] by {
                if j < ends.len() - 1 {
                    assert(ends[j] == ends0[j]);
                    assert(is_run_end(init, ends0[j]));
                    assert(init[ends0[j]] == raw[ends0[j]]);
                    if ends0[j] + 1 < n {
                        assert(init[ends0[j] + 1] == raw[ends0[j] + 1]);
                    }
                }
            }
            assert forall|j: int, k: int| 0 <= j < k < ends.len() implies #[trigger] ends[j]
                < #[trigger] ends[k] by {
                assert(ends[j] == ends0[j]);
                if k < ends.len() - 1 {
                    assert(ends[k] == ends0[k]);
                }
            }
            assert forall|i: int| is_run_end(raw, i) implies exists|j: int|
                0 <= j < ends.len() && #[trigger] ends[j] == i by {
                if i == n {
                    assert(ends[ends.len() - 1] == i);
                } else {
                    assert(init[i] == raw[i]);
                    if i + 1 < n {
                        assert(init[i + 1] == raw[i + 1]);
                    }
                    assert(is_run_end(init, i));
                    let j = choose|j: int| 0 <= j < ends0.len() && #[trigger] ends0[j] == i;
                    assert(ends[j] == i);
                }
            }
        }
    }
}

/// No two neighbours in the merged stream write the same slot.
pub proof fn lemma_merge_neighbours_differ(raw: Seq<EventMessage>)
    ensures
        forall|j: int|
            0 <= j && j + 1 < spec_merge_events(raw).len() ==> !same_slot(
                #[trigger] spec_merge_events(raw)[j],
                spec_merge_events(raw)[j + 1],
            ),
{
    lemma_merge_is_run_ends(raw);
    let ends = spec_run_ends(raw);
    let merged = spec_merge_events(raw);
    assert forall|j: int| 0 <= j && j + 1 < merged.len() implies !same_slot(
        #[trigger] merged[j],
        merged[j + 1],
    ) by {
        let a = ends[j];
        let b = ends[j + 1];
        assert(is_run_end(raw, a));
        assert(a < b);
        if a + 1 < b {
            // Nothing between two kept positions ends a run, so all of it
            // belongs to the run that ends at `b`.
            lemma_run_reaches_back(raw, j, a + 1);
        }
    }
}

/// A stream in which no two neighbours write the same slot is its own
/// merged stream.
pub proof fn lemma_merge_of_settled(raw: Seq<EventMessage>)
    requires
        forall|i: int| 0 <= i && i + 1 < raw.len() ==> !same_slot(#[trigger] raw[i], raw[i + 1]),
    ensures
        spec_merge_events(raw) == raw,
    decreases raw.len(),
{
    if raw.len() > 0 {
        let init = raw.drop_last();
        assert forall|i: int| 0 <= i && i + 1 < init.len() implies !same_slot(
            #[trigger] init[i],
            init[i + 1],
        ) by {
            assert(init[i] == raw[i]);
            assert(init[i + 1] == raw[i + 1]);
        }
        lemma_merge_of_settled(init);
        if raw.len() >= 2 {
            assert(!same_slot(raw[raw.len() - 2], raw[raw.len() - 2 + 1]));
        }
        assert(init.push(raw.last()) =~= raw);
    } else {
        assert(spec_merge_events(raw) =~= raw);
    }
}

/// Merging a merged stream changes nothing.
pub proof fn lemma_merge_idempotent(raw: Seq<EventMessage>)
    ensures
        spec_merge_events(spec_merge_events(raw)) == spec_merge_events(raw),
{
    lemma_merge_neighbours_differ(raw);
    lemma_merge_of_settled(spec_merge_events(raw));
}

/// Between the kept position before `ends[j + 1]` and that position, every
/// entry writes the slot of the entry at `ends[j + 1]`.
proof fn lemma_run_reaches_back(raw: Seq<EventMessage>, j: int, i: int)
    requires
        0 <= j,
        j + 1 < spec_run_ends(raw).len(),
        spec_run_ends(raw)[j] < i <= spec_run_ends(raw)[j + 1],
    ensures
        same_slot(raw[i], raw[spec_run_ends(raw)[j + 1]]),
    decreases spec_run_ends(raw)[j + 1] - i,
{
    lemma_merge_is_run_ends(raw);
    let ends = spec_run_ends(raw);
    let b = ends[j + 1];
    assert(is_run_end(raw, b));
    if i < b {
        if is_run_end(raw, i) {
            let w = choose|w: int| 0 <= w < ends.len() && #[trigger] ends[w] == i;
            if w <= j {
                if w < j {
                    assert(ends[w] < ends[j]);
                }
            } else {
                if w > j + 1 {
                    assert(ends[j + 1] < ends[w]);
                }
            }
            assert(false);
        }
        lemma_run_reaches_back(raw, j, i + 1);
    }
}

/// Where every slot is written in one run only, the merged stream holds
/// exactly one entry for each slot that the raw stream writes: the last
/// write of that slot, and the entries stand in the order in which their
/// slots first occur.
pub proof fn lemma_merge_grouped(raw: Seq<EventMessage>)
    requires
        grouped(raw),
    ensures
        // One entry for each slot, and no slot twice.
        forall|i: int|
            #![trigger raw[i]]
            0 <= i < raw.len() ==> exists|j: int|
                0 <= j < spec_merge_events(raw).len() && same_slot(
                    #[trigger] spec_merge_events(raw)[j],
                    raw[i],
                ),
        forall|a: int, b: int|
            0 <= a < b < spec_merge_events(raw).len() ==> !same_slot(
                #[trigger] spec_merge_events(raw)[a],
                #[trigger] spec_merge_events(raw)[b],
            ),
        // Each entry is the last write of its slot.
        forall|j: int|
            0 <= j < spec_merge_events(raw).len() ==> exists|i: int|
                0 <= i < raw.len() && #[trigger] spec_merge_events(raw)[j] == raw[i] && forall|
                    k: int,
                |
                    i < k < raw.len() ==> !same_slot(#[trigger] raw[k], raw[i]),
        // The order is that of the slots' first occurrences: every write of
        // an earlier entry's slot comes before every write of a later one's.
        forall|a: int, b: int, i: int, k: int|
            0 <= a < b < spec_merge_events(raw).len() && 0 <= i < raw.len() && 0 <= k < raw.len()
                && #[trigger] same_slot(raw[i], spec_merge_events(raw)[a]) && #[trigger] same_slot(
                raw[k],
                spec_merge_events(raw)[b],
            ) ==> i < k,
{
    let merged = spec_merge_events(raw);
    assert forall|a: int, b: int| 0 <= a < b < merged.len() implies !same_slot(
        #[trigger] merged[a],
        #[trigger] merged[b],
    ) by {
        lemma_grouped_runs_differ(raw, a, b);
    }
    assert forall|i: int| #![trigger raw[i]] 0 <= i < raw.len() implies exists|j: int|
        0 <= j < merged.len() && same_slot(#[trigger] merged[j], raw[i]) by {
        lemma_slot_is_kept(raw, i);
    }
    assert forall|j: int| 0 <= j < merged.len() implies exists|i: int|
        0 <= i < raw.len() && #[trigger] merged[j] == raw[i] && forall|k: int|
            i < k < raw.len() ==> !same_slot(#[trigger] raw[k], raw[i]) by {
        lemma_grouped_keeps_last_write(raw, j);
    }
    assert forall|a: int, b: int, i: int, k: int|
        0 <= a < b < merged.len() && 0 <= i < raw.len() && 0 <= k < raw.len()
            && #[trigger] same_slot(raw[i], merged[a]) && #[trigger] same_slot(
            raw[k],
            merged[b],
        ) implies i < k by {
        lemma_grouped_order(raw, a, b, i, k);
    }
}

/// Where every slot is written in one run only, a kept entry is followed by
/// no write of its slot.
proof fn lemma_grouped_keeps_last_write(raw: Seq<EventMessage>, j: int)
    requires
        grouped(raw),
        0 <= j < spec_merge_events(raw).len(),
    ensures
        exists|i: int|
            0 <= i < raw.len() && #[trigger] spec_merge_events(raw)[j] == raw[i] && forall|k: int|
                i < k < raw.len() ==> !same_slot(#[trigger] raw[k], raw[i]),
{
    lemma_merge_is_run_ends(raw);
    let i = spec_run_ends(raw)[j];
    assert(is_run_end(raw, i));
    assert forall|k: int| i < k < raw.len() implies !same_slot(#[trigger] raw[k], raw[i]) by {
        if same_slot(raw[k], raw[i]) {
            assert(slot_spans(raw, i, i + 1, k));
        }
    }
    assert(spec_merge_events(raw)[j] == raw[i]);
}

/// Where every slot is written in one run only, the writes of an earlier
/// kept entry's slot all come before those of a later one's.
proof fn lemma_grouped_order(raw: Seq<EventMessage>, a: int, b: int, i: int, k: int)
    requires
        grouped(raw),
        0 <= a < b < spec_merge_events(raw).len(),
        0 <= i < raw.len(),
        0 <= k < raw.len(),
        same_slot(raw[i], spec_merge_events(raw)[a]),
        same_slot(raw[k], spec_merge_events(raw)[b]),
    ensures
        i < k,
{
    lemma_grouped_runs_differ(raw, a, b);
    lemma_merge_is_run_ends(raw);
    let ea = spec_run_ends(raw)[a];
    let eb = spec_run_ends(raw)[b];
    assert(is_run_end(raw, ea));
    assert(is_run_end(raw, eb));
    assert(ea < eb);
    if k <= i {
        if k < ea {
            // `ea` lies between two writes of the later entry's slot.
            assert(slot_spans(raw, k, ea, eb));
        } else {
            // `k` lies between two writes of the earlier entry's slot.
            assert(slot_spans(raw, ea, k, i));
        }
        assert(false);
    }
}

/// Where every slot is written in one run only, two kept entries write
/// different slots.
proof fn lemma_grouped_runs_differ(raw: Seq<EventMessage>, a: int, b: int)
    requires
        grouped(raw),
        0 <= a < b < spec_merge_events(raw).len(),
    ensures
        !same_slot(spec_merge_events(raw)[a], spec_merge_events(raw)[b]),
{
    lemma_merge_is_run_ends(raw);
    let ends = spec_run_ends(raw);
    let ea = ends[a];
    let eb = ends[b];
    assert(is_run_end(raw, ea));
    assert(is_run_end(raw, eb));
    assert(ea < eb);
    if same_slot(raw[ea], raw[eb]) {
        assert(slot_spans(raw, ea, ea + 1, eb));
    }
}

/// The slot of every raw entry is the slot of some kept entry.
proof fn lemma_slot_is_kept(raw: Seq<EventMessage>, i: int)
    requires
        0 <= i < raw.len(),
    ensures
        exists|j: int|
            0 <= j < spec_merge_events(raw).len() && same_slot(
                #[trigger] spec_merge_events(raw)[j],
                raw[i],
            ),
    decreases raw.len() - i,
{
    lemma_merge_is_run_ends(raw);
    let ends = spec_run_ends(raw);
    let merged = spec_merge_events(raw);
    if is_run_end(raw, i) {
        let j = choose|j: int| 0 <= j < ends.len() && #[trigger] ends[j] == i;
        assert(same_slot(merged[j], raw[i]));
    } else {
        lemma_slot_is_kept(raw, i + 1);
        let j = choose|j: int|
            0 <= j < merged.len() && same_slot(#[trigger] merged[j], raw[i + 1]);
        assert(same_slot(merged[j], raw[i]));
    }
}

/// Folds the raw event stream: each run of consecutive entries that write
/// one slot becomes one entry, the last of the run, and the runs keep their
/// order.
pub fn merge_events(raw: &Vec<EventMessage>) -> (merged: Vec<EventMessage>)
    ensures
        merged@ == spec_merge_events(raw@),
        merged.len() <= raw.len(),
{
    let mut merged: Vec<EventMessage> = Vec::new();
    let mut i: usize = 0;
    while i < raw.len()
        invariant
            i <= raw.len(),
            merged@ == spec_merge_events(raw@.take(i as int)),
        decreases raw.len() - i,
    {
        let entry = raw[i];
        proof {
            assert(raw@.take(i + 1).drop_last() =~= raw@.take(i as int));
            lemma_merge_len(raw@.take(i as int));
        }
        if i > 0 && raw[i - 1].address == entry.address && raw[i - 1].key == entry.key {
            let last: usize = merged.len() - 1;
            merged.set(last, entry);
            proof {
                let before = spec_merge_events(raw@.take(i as int));
                assert(before.update(last as int, entry) =~= before.drop_last().push(entry));
            }
        } else {
            merged.push(entry);
        }
        i += 1;
    }
    proof {
        assert(raw@.take(raw.len() as int) =~= raw@);
        lemma_merge_len(raw@);
    }
    merged
}

impl EventMessage {
    /// This entry as an event of batch `batch_number`.
    pub open spec fn spec_into_vm_event(self, batch_number: u32) -> VmEvent {
        VmEvent {
            batch_number,
            tx_number_in_block: self.tx_number_in_block,
            shard_id: self.shard_id,
            address: self.address,
            key: self.key,
            value: self.value,
        }
    }

    /// Places the entry in batch `batch_number`; nothing else changes.
    pub fn into_vm_event(self, batch_number: u32) -> (event: VmEvent)
        ensures
            event == self.spec_into_vm_event(batch_number),
    {
        VmEvent {
            batch_number,
            tx_number_in_block: self.tx_number_in_block,
            shard_id: self.shard_id,
            address: self.address,
            key: self.key,
            value: self.value,
        }
    }
}

/// The events of a batch: the merged stream, each entry placed in the batch.
pub open spec fn spec_vm_events(raw: Seq<EventMessage>, batch_number: u32) -> Seq<VmEvent> {
    spec_merge_events(raw).map_values(|e: EventMessage| e.spec_into_vm_event(batch_number))
}

/// Merges the raw stream and places each merged entry in batch
/// `batch_number`.
pub fn vm_events(raw: &Vec<EventMessage>, batch_number: u32) -> (events: Vec<VmEvent>)
    ensures
        events@ == spec_vm_events(raw@, batch_number),
        events.len() <= raw.len(),
{
    let merged = merge_events(raw);
    let mut events: Vec<VmEvent> = Vec::new();
    let mut i: usize = 0;
    while i < merged.len()
        invariant
            i <= merged.len(),
            events@ == merged@.take(i as int).map_values(
                |e: EventMessage| e.spec_into_vm_event(batch_number),
            ),
        decreases merged.len() - i,
    {
        events.push(merged[i].into_vm_event(batch_number));
        proof {
            assert(merged@.take(i + 1).map_values(
                |e: EventMessage| e.spec_into_vm_event(batch_number),
            ) =~= merged@.take(i as int).map_values(
                |e: EventMessage| e.spec_into_vm_event(batch_number),
            ).push(merged@[i as int].spec_into_vm_event(batch_number)));
        }
        i += 1;
    }
    proof {
        assert(merged@.take(merged.len() as int) =~= merged@);
    }
    events
}

/// The event was emitted by the system messenger.
pub open spec fn is_messenger_emission(event: VmEvent) -> bool {
    event.address == spec_l1_messenger_address()
}

/// The cross-layer message that an emission of the system messenger carries.
pub open spec fn spec_user_log(event: VmEvent) -> UserL2ToL1Log {
    UserL2ToL1Log(
        L2ToL1Log {
            shard_id: event.shard_id,
            tx_number_in_l1_batch: event.tx_number_in_block,
            sender: event.address,
            key: event.key,
            value: event.value,
        },
    )
}

/// The user-originated cross-layer messages among `events`: one for each
/// emission of the system messenger, in the order of emission.
pub open spec fn spec_extract_user_logs(events: Seq<VmEvent>) -> Seq<UserL2ToL1Log> {
    events.filter(|e: VmEvent| is_messenger_emission(e)).map_values(|e: VmEvent| spec_user_log(e))
}

/// Scans `events` for emissions of the system messenger and returns the
/// message of each, in the order of emission. Other events give nothing.
pub fn extract_user_l2_to_l1_logs(events: &Vec<VmEvent>) -> (logs: Vec<UserL2ToL1Log>)
    ensures
        logs@ == spec_extract_user_logs(events@),
        logs.len() <= events.len(),
{
    let messenger = l1_messenger_address();
    let mut logs: Vec<UserL2ToL1Log> = Vec::new();
    let mut i: usize = 0;
    while i < events.len()
        invariant
            i <= events.len(),
            messenger == spec_l1_messenger_address(),
            logs@ == spec_extract_user_logs(events@.take(i as int)),
            logs.len() <= i,
        decreases events.len() - i,
    {
        let event = events[i];
        proof {
            let seen = events@.take(i as int);
            let pred = |e: VmEvent| is_messenger_emission(e);
            let conv = |e: VmEvent| spec_user_log(e);
            assert(events@.take(i + 1) =~= seen.push(event));
            seen.lemma_filter_push(event, pred);
            if is_messenger_emission(event) {
                assert(seen.filter(pred).push(event).map_values(conv) =~= seen.filter(
                    pred,
                ).map_values(conv).push(spec_user_log(event)));
            }
        }
        if event.address == messenger {
            logs.push(
                UserL2ToL1Log(
                    L2ToL1Log {
                        shard_id: event.shard_id,
                        tx_number_in_l1_batch: event.tx_number_in_block,
                        sender: event.address,
                        key: event.key,
                        value: event.value,
                    },
                ),
            );
        }
        i += 1;
    }
    proof {
        assert(events@.take(events.len() as int) =~= events@);
    }
    logs
}

} // verus!
