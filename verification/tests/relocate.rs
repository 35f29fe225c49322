use raspboot::relocate::{rebase_image, zero_range};

#[test]
fn relocation_copies_disjoint_ranges_in_order() {
    // Eight words at [8, 16) move down to [0, 8).
    let mut mem: Vec<u64> = vec![0; 16];
    for i in 0..8 {
        mem[8 + i] = 100 + i as u64;
    }
    rebase_image(&mut mem, 0, 8, 8);
    for i in 0..8 {
        assert_eq!(mem[i], 100 + i as u64);
        assert_eq!(mem[8 + i], 100 + i as u64);
    }
}

#[test]
fn relocation_is_safe_when_destination_precedes_source() {
    // Write range [0, 8) overlaps read range [4, 12): the forward copy
    // reads every source word before overwriting it.
    let mut mem: Vec<u64> = vec![0; 12];
    for i in 0..12 {
        mem[i] = i as u64;
    }
    rebase_image(&mut mem, 0, 8, 4);
    for i in 0..8 {
        assert_eq!(mem[i], 4 + i as u64);
    }
    for i in 8..12 {
        assert_eq!(mem[i], i as u64);
    }
}

#[test]
fn reversed_copy_order_corrupts_overlapping_ranges() {
    // The same overlapping move done highest word first: by the time the
    // low source words are read they were already overwritten, so the
    // result differs from a true copy. Only the documented forward order
    // is safe.
    let mut forward: Vec<u64> = (0..12u64).collect();
    rebase_image(&mut forward, 0, 8, 4);

    let mut backward: Vec<u64> = (0..12u64).collect();
    for i in (0..8usize).rev() {
        backward[i] = backward[4 + i];
    }
    assert_ne!(&backward[0..8], &forward[0..8]);
    // The first source word was clobbered before it was read.
    assert_eq!(forward[0], 4);
    assert_ne!(backward[0], 4);
}

#[test]
fn zero_range_clears_exactly_the_given_words() {
    let mut mem: Vec<u64> = (1..=10u64).collect();
    zero_range(&mut mem, 2, 7);
    assert_eq!(mem, vec![1, 2, 0, 0, 0, 0, 0, 8, 9, 10]);
}
