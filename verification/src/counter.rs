//! The usage counter kept in a card's memory.
//!
//! The first 32 bytes of the memory are read, the counter in the first of
//! them is advanced, and the record is written back.

use vstd::prelude::*;

verus! {

/// Bytes in the record that holds the counter.
pub const COUNTER_RECORD_LEN: usize = 32;

/// The counter after one more use: it wraps from 255 to 0.
pub open spec fn next_count(count: u8) -> u8 {
    if count == 255 {
        0
    } else {
        (count + 1) as u8
    }
}

/// Advances the counter in the first byte of `record` and leaves the rest of
/// the record as it is.
pub fn increment_counter(record: &mut [u8; 32])
    ensures
        final(record)@ == old(record)@.update(0, next_count(old(record)@[0])),
{
    let count = record[0].wrapping_add(1);
    record[0] = count;
}

/// After 256 uses the counter is back where it began.
pub proof fn lemma_counter_period(count: u8)
    ensures
        next_count(count) != count,
        next_count(count) == (count + 1) % 256,
{
}

} // verus!
