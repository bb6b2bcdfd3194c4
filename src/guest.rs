use vstd::prelude::*;
use crate::codec::{Memory, wire_of};

verus! {

/// Writes a fixed six-byte sample payload into guest memory as a wire buffer
/// and returns its offset.
pub fn example(mem: &mut Memory) -> (r: usize)
    requires
        old(mem).wf(),
        old(mem).bytes_view().len() + 10 <= usize::MAX,
    ensures
        final(mem).wf(),
        r == old(mem).bytes_view().len(),
        final(mem).bytes_view() == old(mem).bytes_view() + wire_of(seq![0u8, 100, 250, 0, 1, 2]),
        final(mem).blocks_view() == old(mem).blocks_view().push((r, 10usize)),
{
    let dummy: Vec<u8> = vec![0, 100, 250, 0, 1, 2];
    let ptr = mem.new(dummy.len(), dummy.as_slice());
    assert(dummy@ =~= seq![0u8, 100, 250, 0, 1, 2]);
    ptr
}

} // verus!
