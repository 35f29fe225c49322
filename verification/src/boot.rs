//! Reset-time entry dispatch.
//!
//! At reset every core runs the same entry routine. Only core 0 may boot;
//! all other cores are parked in a low-power wait forever. Core 0 places
//! its stack below the chainload target so the stack cannot collide with
//! the code about to be copied there, and corrects a stale entry address
//! captured before relocation. The routine that reads the core-identifier
//! register and performs the jump hands the raw values to the functions
//! here and acts on the returned decision.

use vstd::prelude::*;

verus! {

/// Offset between the address the image is linked at and the address the
/// boot firmware actually loads it to.
pub const CHAIN_IMAGE_OFFSET: u64 = 0x1000;

/// Fixed physical address the boot firmware loads a kernel image to, and
/// the address a chainloaded payload is placed at.
pub const KERNEL_LOAD_ADDR: u64 = 0x80_000;

/// Top of the boot stack: directly below the relocated image, so the
/// stack cannot collide with code that is about to be copied in.
pub const STACK_START: u64 = 0x80_000 - 0x1000;

/// Low bits of the core-identifier register that name the core.
pub const CORE_ID_MASK: u64 = 0x3;

/// What the reset entry point must do on a given core.
#[derive(Clone, Copy, Debug, PartialEq, Eq, Structural)]
pub enum EntryDecision {
    /// Not the boot core: wait for events forever; never reached again.
    Park,
    /// The boot core: set the stack, relocate if configured, initialize.
    Boot,
}

/// Decides, from the raw core-identifier register value, whether this
/// core boots or parks. Exactly the cores whose id bits are zero boot.
pub fn entry_decision(mpidr: u64) -> (d: EntryDecision)
    ensures
        d is Boot <==> mpidr & CORE_ID_MASK == 0,
        d is Park <==> mpidr & CORE_ID_MASK != 0,
{
    if mpidr & CORE_ID_MASK == 0 {
        EntryDecision::Boot
    } else {
        EntryDecision::Park
    }
}

/// Corrects an entry address captured while still executing at the
/// pre-relocation base: a pointer resolved through the indirect location
/// table still encodes the load address, which lies above the chainload
/// target, and must be moved down by the link offset before it is called.
pub fn fixup_entry(addr: u64) -> (r: u64)
    ensures
        addr > KERNEL_LOAD_ADDR ==> r == addr - CHAIN_IMAGE_OFFSET,
        addr <= KERNEL_LOAD_ADDR ==> r == addr,
{
    if addr > KERNEL_LOAD_ADDR {
        addr - CHAIN_IMAGE_OFFSET
    } else {
        addr
    }
}

} // verus!
