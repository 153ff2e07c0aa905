use vstd::prelude::*;

verus! {

/// A chunk of raw samples is silent when every byte of it is zero.
pub open spec fn all_zero(data: Seq<u8>) -> bool {
    forall|i: int| 0 <= i < data.len() ==> data[i] == 0
}

/// Tells whether a chunk of recorded bytes holds nothing but zeros.
/// An empty chunk is silent.
pub fn is_silent(data: &[u8]) -> (r: bool)
    ensures
        r == all_zero(data@),
{
    let mut i: usize = 0;
    while i < data.len()
        invariant
            0 <= i <= data@.len(),
            all_zero(data@.subrange(0, i as int)),
        decreases data@.len() - i,
    {
        if data[i] != 0 {
            return false;
        }
        i = i + 1;
    }
    assert(data@.subrange(0, i as int) =~= data@);
    true
}

} // verus!
