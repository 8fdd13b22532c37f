use vstd::prelude::*;

verus! {

/// Read / write access to memory mapped registers, separate from the bus.
#[allow(clippy::upper_case_acronyms)]
pub trait MMIO {
    /// Whether the component answers a read of `address` in its current state.
    spec fn read_ok(&self, address: u16) -> bool;

    /// Whether the component accepts a write of `value` to `address` in its current state.
    spec fn write_ok(&self, address: u16, value: u8) -> bool;

    fn read(&mut self, address: u16) -> u8
        requires
            old(self).read_ok(address),
    ;

    fn write(&mut self, address: u16, value: u8)
        requires
            old(self).write_ok(address, value),
    ;
}

} // verus!
