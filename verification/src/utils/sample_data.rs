use vstd::prelude::*;

verus! {

/// The byte at the position `i` of the sample data: the positions count
/// from 0 to 254 and start over.
pub open spec fn arb_byte(i: int) -> u8 {
    (i % 255) as u8
}

/// Makes `range` bytes of sample data: the byte at each position is
/// [`arb_byte`] of the position.
pub fn create_arb_data(range: usize) -> (data: Vec<u8>)
    ensures
        data@.len() == range,
        forall|i: int| 0 <= i < range ==> #[trigger] data@[i] == arb_byte(i),
{
    let mut data: Vec<u8> = Vec::with_capacity(range);
    let mut i: usize = 0;
    while i < range
        invariant
            i <= range,
            data@.len() == i,
            forall|j: int| 0 <= j < i ==> #[trigger] data@[j] == arb_byte(j),
        decreases range - i,
    {
        data.push((i % 255) as u8);
        i = i + 1;
    }
    data
}

} // verus!
