//! Image relocation and start-up memory initialization.
//!
//! The program is linked assuming it executes at one address but the
//! boot firmware places it at another, so before initialization the
//! image moves itself to the link address, and the zero-initialized
//! section is cleared. Physical memory is modeled as one array of
//! machine words; the routine that runs against real memory hands its
//! word range in and applies the same moves.

use vstd::prelude::*;

verus! {

/// Copies the image to its link address: moves `code_end - code_start`
/// words, reading forward from `old_base` and writing forward from
/// `code_start`, both pointers advancing in lock-step.
///
/// The forward order is the only supported one: when the write range
/// overlaps the read range it is safe exactly because the writes stay
/// below every word not yet read, which is what the precondition that
/// the destination precedes the source (or is disjoint from it)
/// guarantees. The caller owes that precondition; with it, every copied
/// word is the source word as it stood before the move.
pub fn rebase_image(mem: &mut Vec<u64>, code_start: usize, code_end: usize, old_base: usize)
    requires
        code_start <= code_end,
        code_end <= old(mem)@.len(),
        old_base + (code_end - code_start) <= old(mem)@.len(),
        code_start <= old_base || old_base + (code_end - code_start) <= code_start,
    ensures
        final(mem)@.len() == old(mem)@.len(),
        forall|i: int|
            code_start <= i < code_end ==> #[trigger] final(mem)@[i] == old(mem)@[old_base + (i
                - code_start)],
        forall|j: int|
            0 <= j < old(mem)@.len() && !(code_start <= j < code_end)
                ==> #[trigger] final(mem)@[j] == old(mem)@[j],
{
    let len: usize = code_end - code_start;
    let total: usize = mem.len();
    let mut i: usize = 0;
    while i < len
        invariant
            i <= len,
            len == code_end - code_start,
            code_end <= mem@.len(),
            mem@.len() == old(mem)@.len(),
            total == mem@.len(),
            old_base + len <= total,
            code_start <= old_base || old_base + len <= code_start,
            forall|k: int|
                code_start <= k < code_start + i ==> #[trigger] mem@[k] == old(mem)@[old_base + (k
                    - code_start)],
            forall|j: int|
                0 <= j < mem@.len() && !(code_start <= j < code_start + i) ==> #[trigger] mem@[j]
                    == old(mem)@[j],
        decreases len - i,
    {
        let w: u64 = mem[old_base + i];
        mem.set(code_start + i, w);
        i += 1;
    }
}

/// Zeroes the words of `[start, end)`: the clearing of the
/// zero-initialized section that runs once before the program proper.
pub fn zero_range(mem: &mut Vec<u64>, start: usize, end: usize)
    requires
        start <= end,
        end <= old(mem)@.len(),
    ensures
        final(mem)@.len() == old(mem)@.len(),
        forall|i: int| start <= i < end ==> #[trigger] final(mem)@[i] == 0u64,
        forall|j: int|
            0 <= j < old(mem)@.len() && !(start <= j < end)
                ==> #[trigger] final(mem)@[j] == old(mem)@[j],
{
    let mut i: usize = start;
    while i < end
        invariant
            start <= i <= end,
            end <= mem@.len(),
            mem@.len() == old(mem)@.len(),
            forall|k: int| start <= k < i ==> #[trigger] mem@[k] == 0u64,
            forall|j: int|
                0 <= j < mem@.len() && !(start <= j < i) ==> #[trigger] mem@[j] == old(mem)@[j],
        decreases end - i,
    {
        mem.set(i, 0);
        i += 1;
    }
}

} // verus!
