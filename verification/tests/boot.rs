use raspboot::boot::{entry_decision, fixup_entry, EntryDecision};
use raspboot::boot::{CHAIN_IMAGE_OFFSET, KERNEL_LOAD_ADDR, STACK_START};

#[test]
fn secondary_cores_are_parked_and_never_reach_initialization() {
    // Every non-zero core id parks; nothing else may happen on it. The
    // production entry loops on a wait-for-event instruction whenever
    // the decision is Park, so it never returns.
    for mpidr in [1u64, 2, 3, 0x8000_0001, 0x8000_0002, 0xFFFF_FFFF_FFFF_FFFF] {
        assert_eq!(entry_decision(mpidr), EntryDecision::Park);
    }
}

#[test]
fn the_boot_core_proceeds() {
    assert_eq!(entry_decision(0), EntryDecision::Boot);
    // Only the low core-id bits select; higher affinity bits are masked.
    assert_eq!(entry_decision(4), EntryDecision::Boot);
    assert_eq!(entry_decision(0x8000_0000), EntryDecision::Boot);
}

#[test]
fn stale_entry_addresses_are_moved_down_by_the_link_offset() {
    assert_eq!(fixup_entry(0x81_000), 0x80_000);
    assert_eq!(fixup_entry(0x80_001), 0x7F_001);
    assert_eq!(fixup_entry(0x80_000), 0x80_000);
    assert_eq!(fixup_entry(0x7F_000), 0x7F_000);
}

#[test]
fn the_addressing_scheme_is_consistent() {
    assert_eq!(KERNEL_LOAD_ADDR, 0x80_000);
    assert_eq!(CHAIN_IMAGE_OFFSET, 0x1000);
    assert_eq!(STACK_START, KERNEL_LOAD_ADDR - CHAIN_IMAGE_OFFSET);
}
