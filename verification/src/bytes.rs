//! Byte strings, lists of them, and the framing of such lists.

use vstd::prelude::*;
use crate::primitives::{copy_vec, Word};

verus! {

/// The byte strings of a list, as sequences.
pub open spec fn spec_bytes_list(list: Seq<Vec<u8>>) -> Seq<Seq<u8>> {
    Seq::new(list.len(), |i: int| list[i]@)
}

/// A copy of a list of byte strings.
pub fn copy_bytes_list(list: &Vec<Vec<u8>>) -> (r: Vec<Vec<u8>>)
    ensures
        spec_bytes_list(r@) == spec_bytes_list(list@),
{
    let mut r: Vec<Vec<u8>> = Vec::new();
    let mut i: usize = 0;
    while i < list.len()
        invariant
            i <= list.len(),
            spec_bytes_list(r@) == spec_bytes_list(list@.take(i as int)),
        decreases list.len() - i,
    {
        let item = copy_vec(&list[i]);
        r.push(item);
        proof {
            assert(spec_bytes_list(r@) =~= spec_bytes_list(list@.take(i as int)).push(
                list@[i as int]@,
            ));
            assert(spec_bytes_list(list@.take(i + 1)) =~= spec_bytes_list(
                list@.take(i as int),
            ).push(list@[i as int]@));
        }
        i += 1;
    }
    proof {
        assert(list@.take(list.len() as int) =~= list@);
    }
    r
}

/// Whether `word` occurs in `words`.
pub fn contains_word(words: &Vec<Word>, word: Word) -> (found: bool)
    ensures
        found == words@.contains(word),
{
    let mut i: usize = 0;
    while i < words.len()
        invariant
            i <= words.len(),
            forall|k: int| 0 <= k < i ==> words@[k] != word,
        decreases words.len() - i,
    {
        if words[i] == word {
            return true;
        }
        i += 1;
    }
    false
}

/// The eight bytes of `n`, most significant first.
pub open spec fn spec_be64(n: u64) -> Seq<u8> {
    seq![
        (n / 0x100_0000_0000_0000) as u8,
        ((n / 0x1_0000_0000_0000) % 0x100) as u8,
        ((n / 0x100_0000_0000) % 0x100) as u8,
        ((n / 0x1_0000_0000) % 0x100) as u8,
        ((n / 0x100_0000) % 0x100) as u8,
        ((n / 0x1_0000) % 0x100) as u8,
        ((n / 0x100) % 0x100) as u8,
        (n % 0x100) as u8,
    ]
}

/// The items of a list one after another, each behind its length in eight
/// bytes.
pub open spec fn spec_frame_items(items: Seq<Seq<u8>>) -> Seq<u8>
    decreases items.len(),
{
    if items.len() == 0 {
        Seq::empty()
    } else {
        spec_frame_items(items.drop_last()) + spec_be64(items.last().len() as u64) + items.last()
    }
}

/// A framed list: the number of items in eight bytes, then the items, each
/// behind its length.
pub open spec fn spec_frame_list(items: Seq<Seq<u8>>) -> Seq<u8> {
    spec_be64(items.len() as u64) + spec_frame_items(items)
}

/// Appends the eight bytes of `n` to `out`, most significant first.
pub fn push_be64(out: &mut Vec<u8>, n: u64)
    ensures
        final(out)@ == old(out)@ + spec_be64(n),
{
    out.push((n / 0x100_0000_0000_0000) as u8);
    out.push(((n / 0x1_0000_0000_0000) % 0x100) as u8);
    out.push(((n / 0x100_0000_0000) % 0x100) as u8);
    out.push(((n / 0x1_0000_0000) % 0x100) as u8);
    out.push(((n / 0x100_0000) % 0x100) as u8);
    out.push(((n / 0x1_0000) % 0x100) as u8);
    out.push(((n / 0x100) % 0x100) as u8);
    out.push((n % 0x100) as u8);
    proof {
        assert(out@ =~= old(out)@ + spec_be64(n));
    }
}

/// Appends the framed list `items` to `out`.
pub fn push_frame_list(out: &mut Vec<u8>, items: &Vec<Vec<u8>>)
    ensures
        final(out)@ == old(out)@ + spec_frame_list(spec_bytes_list(items@)),
{
    push_be64(out, items.len() as u64);
    let ghost start = out@;
    let mut i: usize = 0;
    while i < items.len()
        invariant
            i <= items.len(),
            out@ == start + spec_frame_items(spec_bytes_list(items@.take(i as int))),
        decreases items.len() - i,
    {
        let item = &items[i];
        let ghost before = out@;
        push_be64(out, item.len() as u64);
        let mut k: usize = 0;
        while k < item.len()
            invariant
                k <= item.len(),
                out@ == before + spec_be64(item.len() as u64) + item@.take(k as int),
            decreases item.len() - k,
        {
            out.push(item[k]);
            proof {
                assert(item@.take(k + 1) =~= item@.take(k as int).push(item@[k as int]));
                assert(before + spec_be64(item.len() as u64) + item@.take(k + 1) =~= (before
                    + spec_be64(item.len() as u64) + item@.take(k as int)).push(item@[k as int]));
            }
            k += 1;
        }
        proof {
            let seen = spec_bytes_list(items@.take(i as int));
            let next = spec_bytes_list(items@.take(i + 1));
            assert(item@.take(item.len() as int) =~= item@);
            assert(next.drop_last() =~= seen);
            assert(next.last() == item@);
            assert(out@ =~= start + spec_frame_items(next));
        }
        i += 1;
    }
    proof {
        assert(items@.take(items.len() as int) =~= items@);
        assert(out@ =~= old(out)@ + spec_frame_list(spec_bytes_list(items@)));
    }
}

} // verus!
