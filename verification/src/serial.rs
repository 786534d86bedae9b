//! The write capability the toggle loop needs from a serial transmitter.

use vstd::prelude::*;

verus! {

/// A blocking-write-capable serial transmitter.
///
/// One operation: hand a byte sequence to the hardware, synchronously.
/// `Ok(())` means every byte was accepted; `Err(())` is a transmission fault.
/// Status lines are best-effort diagnostics, so callers may discard the
/// result, and nothing is promised about it here: the toggle loop is proved
/// to keep its schedule whatever a transmitter answers. The driver implements
/// this for its concrete transmitter.
pub trait WriteBlocking {
    fn blocking_write(&mut self, bytes: &[u8]) -> Result<(), ()>;
}

} // verus!
