//! Trait definitions coupling kernel code to the board support code.

use vstd::prelude::*;

verus! {

/// Console read capability: blocking receipt of one character. The
/// production console implements it over a hardware FIFO; nothing is
/// promised of what arrives, so callers must treat every byte as
/// untrusted input.
pub trait Read {
    /// Receives the next character from the console.
    fn read_char(&mut self) -> char;
}

} // verus!
