//! Byte frequencies, the integer part of a Shannon entropy figure. The
//! figure itself, a sum of floating-point logarithms, is left to the caller.

use vstd::prelude::*;

verus! {

/// How many times the byte `b` occurs in `s`.
pub open spec fn count_of(s: Seq<u8>, b: u8) -> nat
    decreases s.len(),
{
    if s.len() == 0 {
        0
    } else {
        count_of(s.drop_last(), b) + if s.last() == b { 1nat } else { 0nat }
    }
}

/// A byte occurs no more often than the sequence is long.
pub proof fn count_at_most_len(s: Seq<u8>, b: u8)
    ensures
        count_of(s, b) <= s.len(),
    decreases s.len(),
{
    if s.len() > 0 {
        count_at_most_len(s.drop_last(), b);
    }
}

/// The number of occurrences of each of the 256 byte values in `data`,
/// indexed by the value.
pub fn byte_histogram(data: &[u8]) -> (counts: Vec<u64>)
    ensures
        counts@.len() == 256,
        forall|b: int| 0 <= b < 256 ==> #[trigger] counts@[b] == count_of(data@, b as u8),
{
    let mut counts: Vec<u64> = Vec::new();
    let mut k: usize = 0;
    while k < 256
        invariant
            k <= 256,
            counts@.len() == k,
            forall|b: int| 0 <= b < k ==> #[trigger] counts@[b] == 0,
        decreases 256 - k,
    {
        counts.push(0);
        k += 1;
    }
    proof {
        assert(data@.take(0) =~= Seq::<u8>::empty());
    }
    let mut i: usize = 0;
    while i < data.len()
        invariant
            i <= data@.len(),
            counts@.len() == 256,
            forall|b: int| 0 <= b < 256 ==> #[trigger] counts@[b] == count_of(data@.take(i as int), b as u8),
        decreases data@.len() - i,
    {
        let v = data[i];
        let slot = v as usize;
        proof {
            let t = data@.take(i as int + 1);
            assert(t.drop_last() =~= data@.take(i as int));
            assert(t.last() == v);
            count_at_most_len(data@.take(i as int), v);
            assert forall|b: int| 0 <= b < 256 implies
                #[trigger] count_of(t, b as u8) == count_of(data@.take(i as int), b as u8)
                    + if v == b as u8 { 1nat } else { 0nat } by {}
        }
        let c = counts[slot];
        counts.set(slot, c + 1);
        i += 1;
    }
    proof {
        assert(data@.take(data@.len() as int) =~= data@);
    }
    counts
}

} // verus!
