use batch_vm::bytes::{contains_word, copy_bytes_list, push_be64, push_frame_list};
use batch_vm::env::{next_consumed, next_phase, ExecutionPhase, VmExecutionMode};
use batch_vm::events::{
    extract_user_l2_to_l1_logs, merge_events, vm_events, EventMessage, VmEvent,
};
use batch_vm::logs::{system_logs, L2ToL1Log, SystemL2ToL1Log, UserL2ToL1Log};
use batch_vm::primitives::{
    append_vec, copy_vec, l1_messenger_address, saturating_add, Address, Word,
};

fn addr(n: u128) -> Address {
    Address { high: 0, low: n }
}

fn word(n: u128) -> Word {
    Word { high: 0, low: n }
}

fn entry(contract: u128, key: u128, value: u128, tx: u16) -> EventMessage {
    EventMessage {
        shard_id: 0,
        tx_number_in_block: tx,
        address: addr(contract),
        key: word(key),
        value: word(value),
    }
}

#[test]
fn merge_of_nothing_is_nothing() {
    assert_eq!(merge_events(&vec![]), vec![]);
}

#[test]
fn merge_keeps_a_single_entry() {
    let raw = vec![entry(1, 10, 100, 0)];
    assert_eq!(merge_events(&raw), raw);
}

#[test]
fn merge_keeps_the_last_write_of_each_run() {
    let raw = vec![
        entry(1, 10, 100, 0),
        entry(1, 10, 101, 0),
        entry(1, 10, 102, 1),
        entry(2, 20, 200, 1),
        entry(3, 30, 300, 2),
        entry(3, 30, 301, 2),
    ];
    let merged = merge_events(&raw);
    assert_eq!(
        merged,
        vec![entry(1, 10, 102, 1), entry(2, 20, 200, 1), entry(3, 30, 301, 2)]
    );
}

#[test]
fn merge_has_one_entry_per_slot_in_first_occurrence_order() {
    let raw = vec![
        entry(7, 1, 1, 0),
        entry(7, 1, 2, 0),
        entry(5, 1, 3, 0),
        entry(5, 2, 4, 0),
        entry(5, 2, 5, 0),
        entry(5, 2, 6, 0),
    ];
    let merged = merge_events(&raw);
    assert_eq!(merged.len(), 3);
    let slots: Vec<(Address, Word)> = merged.iter().map(|e| (e.address, e.key)).collect();
    assert_eq!(
        slots,
        vec![(addr(7), word(1)), (addr(5), word(1)), (addr(5), word(2))]
    );
    let values: Vec<Word> = merged.iter().map(|e| e.value).collect();
    assert_eq!(values, vec![word(2), word(3), word(6)]);
}

#[test]
fn merge_does_not_join_runs_that_are_apart() {
    let raw = vec![
        entry(1, 10, 100, 0),
        entry(2, 20, 200, 0),
        entry(1, 10, 101, 0),
    ];
    assert_eq!(merge_events(&raw), raw);
}

#[test]
fn merge_tells_contracts_and_keys_apart() {
    let raw = vec![
        entry(1, 10, 100, 0),
        entry(2, 10, 101, 0),
        entry(2, 11, 102, 0),
        entry(2, 11, 103, 0),
    ];
    assert_eq!(
        merge_events(&raw),
        vec![entry(1, 10, 100, 0), entry(2, 10, 101, 0), entry(2, 11, 103, 0)]
    );
}

#[test]
fn merge_tells_the_high_halves_apart() {
    let a = EventMessage {
        shard_id: 0,
        tx_number_in_block: 0,
        address: Address { high: 1, low: 5 },
        key: Word { high: 0, low: 9 },
        value: word(1),
    };
    let b = EventMessage { address: Address { high: 2, low: 5 }, ..a };
    let c = EventMessage { key: Word { high: 3, low: 9 }, ..b };
    assert_eq!(merge_events(&vec![a, b, c]), vec![a, b, c]);
}

#[test]
fn merge_is_never_longer_than_the_raw_stream() {
    let raw = vec![
        entry(1, 1, 1, 0),
        entry(1, 1, 2, 0),
        entry(1, 2, 3, 0),
        entry(1, 1, 4, 0),
        entry(1, 1, 5, 0),
    ];
    let merged = merge_events(&raw);
    assert!(merged.len() <= raw.len());
    assert_eq!(merged, vec![entry(1, 1, 2, 0), entry(1, 2, 3, 0), entry(1, 1, 5, 0)]);
}

#[test]
fn an_entry_becomes_an_event_of_its_batch() {
    let e = EventMessage {
        shard_id: 3,
        tx_number_in_block: 9,
        address: addr(4),
        key: word(5),
        value: word(6),
    };
    assert_eq!(
        e.into_vm_event(77),
        VmEvent {
            batch_number: 77,
            tx_number_in_block: 9,
            shard_id: 3,
            address: addr(4),
            key: word(5),
            value: word(6),
        }
    );
}

#[test]
fn events_are_the_merged_stream_in_the_batch() {
    let raw = vec![entry(1, 10, 100, 0), entry(1, 10, 101, 1), entry(2, 20, 200, 1)];
    let events = vm_events(&raw, 12);
    assert_eq!(
        events,
        vec![entry(1, 10, 101, 1).into_vm_event(12), entry(2, 20, 200, 1).into_vm_event(12)]
    );
}

#[test]
fn the_messenger_has_its_address() {
    assert_eq!(l1_messenger_address(), Address { high: 0, low: 0x8008 });
}

#[test]
fn user_logs_are_the_messenger_emissions_in_order() {
    let messenger = l1_messenger_address();
    let from_messenger = |key: u128, value: u128, tx: u16| VmEvent {
        batch_number: 1,
        tx_number_in_block: tx,
        shard_id: 2,
        address: messenger,
        key: word(key),
        value: word(value),
    };
    let other = VmEvent {
        batch_number: 1,
        tx_number_in_block: 0,
        shard_id: 0,
        address: addr(0x1234),
        key: word(1),
        value: word(2),
    };
    let events = vec![other, from_messenger(5, 50, 0), other, from_messenger(6, 60, 1)];
    let logs = extract_user_l2_to_l1_logs(&events);
    assert_eq!(
        logs,
        vec![
            UserL2ToL1Log(L2ToL1Log {
                shard_id: 2,
                tx_number_in_l1_batch: 0,
                sender: messenger,
                key: word(5),
                value: word(50),
            }),
            UserL2ToL1Log(L2ToL1Log {
                shard_id: 2,
                tx_number_in_l1_batch: 1,
                sender: messenger,
                key: word(6),
                value: word(60),
            }),
        ]
    );
}

#[test]
fn no_user_logs_without_the_messenger() {
    let other = VmEvent {
        batch_number: 1,
        tx_number_in_block: 0,
        shard_id: 0,
        address: Address { high: 1, low: 0x8008 },
        key: word(1),
        value: word(2),
    };
    assert_eq!(extract_user_l2_to_l1_logs(&vec![other, other]), vec![]);
    assert_eq!(extract_user_l2_to_l1_logs(&vec![]), vec![]);
}

#[test]
fn system_logs_are_wrapped_one_for_one() {
    let a = L2ToL1Log {
        shard_id: 0,
        tx_number_in_l1_batch: 1,
        sender: addr(0x800b),
        key: word(1),
        value: word(2),
    };
    let b = L2ToL1Log { key: word(3), ..a };
    assert_eq!(
        system_logs(&vec![a, b, a]),
        vec![SystemL2ToL1Log(a), SystemL2ToL1Log(b), SystemL2ToL1Log(a)]
    );
}

#[test]
fn phases_follow_the_modes() {
    let (idle, executing, completed) =
        (ExecutionPhase::Idle, ExecutionPhase::Executing, ExecutionPhase::Completed);
    assert_eq!(next_phase(idle, VmExecutionMode::OneTx), executing);
    assert_eq!(next_phase(executing, VmExecutionMode::OneTx), executing);
    assert_eq!(next_phase(idle, VmExecutionMode::Batch), completed);
    assert_eq!(next_phase(executing, VmExecutionMode::Batch), completed);
    assert_eq!(next_phase(completed, VmExecutionMode::OneTx), completed);
    assert_eq!(next_phase(completed, VmExecutionMode::Batch), completed);
}

#[test]
fn a_run_consumes_one_transaction_or_all() {
    assert_eq!(next_consumed(0, 3, VmExecutionMode::OneTx), 1);
    assert_eq!(next_consumed(2, 3, VmExecutionMode::OneTx), 3);
    assert_eq!(next_consumed(3, 3, VmExecutionMode::OneTx), 3);
    assert_eq!(next_consumed(0, 0, VmExecutionMode::OneTx), 0);
    assert_eq!(next_consumed(1, 3, VmExecutionMode::Batch), 3);
    assert_eq!(next_consumed(3, 3, VmExecutionMode::Batch), 3);
    assert_eq!(next_consumed(0, 0, VmExecutionMode::Batch), 0);
}

#[test]
fn counters_stop_at_the_largest_value() {
    assert_eq!(saturating_add(1, 2), 3);
    assert_eq!(saturating_add(u64::MAX - 1, 1), u64::MAX);
    assert_eq!(saturating_add(u64::MAX - 1, 2), u64::MAX);
    assert_eq!(saturating_add(u64::MAX, u64::MAX), u64::MAX);
    assert_eq!(saturating_add(0, 0), 0);
}

#[test]
fn vectors_are_copied_and_appended() {
    let v = vec![word(1), word(2)];
    assert_eq!(copy_vec(&v), v);
    let mut dst = vec![word(0)];
    append_vec(&mut dst, &v);
    assert_eq!(dst, vec![word(0), word(1), word(2)]);
    append_vec(&mut dst, &vec![]);
    assert_eq!(dst.len(), 3);
    let list = vec![vec![1u8, 2], vec![], vec![3]];
    assert_eq!(copy_bytes_list(&list), list);
    assert!(contains_word(&v, word(2)));
    assert!(!contains_word(&v, word(3)));
    assert!(!contains_word(&v, Word { high: 1, low: 2 }));
}

#[test]
fn a_length_is_eight_bytes_most_significant_first() {
    let mut out = vec![0xaa];
    push_be64(&mut out, 0x0102_0304_0506_0708);
    assert_eq!(out, vec![0xaa, 1, 2, 3, 4, 5, 6, 7, 8]);
    let mut out = vec![];
    push_be64(&mut out, u64::MAX);
    assert_eq!(out, vec![0xff; 8]);
    let mut out = vec![];
    push_be64(&mut out, 256);
    assert_eq!(out, vec![0, 0, 0, 0, 0, 0, 1, 0]);
}

#[test]
fn a_framed_list_counts_and_measures_its_items() {
    let mut out = vec![9];
    push_frame_list(&mut out, &vec![vec![0xde, 0xad], vec![], vec![0xbe]]);
    assert_eq!(
        out,
        vec![
            9, 0, 0, 0, 0, 0, 0, 0, 3, 0, 0, 0, 0, 0, 0, 0, 2, 0xde, 0xad, 0, 0, 0, 0, 0, 0, 0, 0,
            0, 0, 0, 0, 0, 0, 0, 1, 0xbe
        ]
    );
    let mut out = vec![];
    push_frame_list(&mut out, &vec![]);
    assert_eq!(out, vec![0; 8]);
}

#[test]
fn merging_twice_is_merging_once() {
    let raw = vec![
        entry(1, 1, 1, 0),
        entry(1, 1, 2, 0),
        entry(2, 1, 3, 0),
        entry(1, 1, 4, 0),
        entry(1, 1, 5, 0),
        entry(1, 1, 6, 0),
    ];
    let once = merge_events(&raw);
    assert_eq!(once.len(), 3);
    assert_eq!(merge_events(&once), once);
}
