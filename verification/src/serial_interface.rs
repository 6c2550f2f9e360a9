//! SI: the serial interface. Only the status register is mapped; it reads as
//! 0 and its write (an interrupt acknowledge) is discarded.

use vstd::prelude::*;

verus! {

#[derive(Debug, Clone, Copy, PartialEq, Eq, Structural)]
pub struct SerialInterface;

impl Default for SerialInterface {
    fn default() -> (r: SerialInterface)
        ensures
            r == SerialInterface,
    {
        SerialInterface
    }
}

impl SerialInterface {
    pub fn read_status_reg(&self) -> (r: u32)
        ensures
            r == 0u32,
    {
        0
    }

    /// The write would clear pending serial interrupts; the value is
    /// discarded in this core.
    pub fn write_status_reg(&mut self, value: u32)
        ensures
            *final(self) == *old(self),
    {
        let _ = value;
    }
}

} // verus!
