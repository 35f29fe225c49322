//! First-stage loader logic for an ARM64 single-board computer.
//!
//! The crate verifies the decision-making core of the firmware: the
//! mailbox property-protocol client, the serial chainload state machine,
//! the image relocation copy, and the reset-time entry dispatch. Hardware
//! register access itself lives outside the library and hands plain
//! values in and out.

pub mod boot;
pub mod chainload;
pub mod interface;
pub mod mbox;
pub mod relocate;
pub mod serial;
