//! Records that the low-level machine writes and the engine carries.

use vstd::prelude::*;
use crate::primitives::{Address, Word};

verus! {

/// One access to keyed storage or to the event sink.
#[derive(Clone, Copy, Debug, PartialEq, Eq, Structural)]
pub struct LogQuery {
    pub timestamp: u32,
    pub tx_number_in_block: u16,
    pub shard_id: u8,
    pub address: Address,
    pub key: Word,
    pub read_value: Word,
    pub written_value: Word,
    pub rw_flag: bool,
    pub rollback: bool,
}

/// A message for the settlement layer.
#[derive(Clone, Copy, Debug, PartialEq, Eq, Structural)]
pub struct L2ToL1Log {
    pub shard_id: u8,
    pub tx_number_in_l1_batch: u16,
    pub sender: Address,
    pub key: Word,
    pub value: Word,
}

/// A cross-layer message that a contract sent through the system messenger.
#[derive(Clone, Copy, Debug, PartialEq, Eq, Structural)]
pub struct UserL2ToL1Log(pub L2ToL1Log);

/// A cross-layer message written by the machine's privileged logging path.
#[derive(Clone, Copy, Debug, PartialEq, Eq, Structural)]
pub struct SystemL2ToL1Log(pub L2ToL1Log);

/// Every message of `raw`, wrapped and otherwise untouched.
pub open spec fn spec_system_logs(raw: Seq<L2ToL1Log>) -> Seq<SystemL2ToL1Log> {
    Seq::new(raw.len(), |i: int| SystemL2ToL1Log(raw[i]))
}

/// Wraps the raw system messages, one for one and in order.
pub fn system_logs(raw: &Vec<L2ToL1Log>) -> (r: Vec<SystemL2ToL1Log>)
    ensures
        r@ == spec_system_logs(raw@),
{
    let mut r: Vec<SystemL2ToL1Log> = Vec::new();
    let mut i: usize = 0;
    while i < raw.len()
        invariant
            i <= raw.len(),
            r@ == spec_system_logs(raw@.take(i as int)),
        decreases raw.len() - i,
    {
        r.push(SystemL2ToL1Log(raw[i]));
        proof {
            assert(spec_system_logs(raw@.take(i + 1)) =~= spec_system_logs(
                raw@.take(i as int),
            ).push(SystemL2ToL1Log(raw@[i as int])));
        }
        i += 1;
    }
    proof {
        assert(raw@.take(raw.len() as int) =~= raw@);
    }
    r
}

} // verus!
