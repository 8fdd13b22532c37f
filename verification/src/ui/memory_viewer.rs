use vstd::prelude::*;
use crate::memory::copy_of;

verus! {

/// A hex view of a block of memory, sixteen bytes per row.
pub struct MemoryViewer {
    pub open: bool,
    pub memory: Vec<u8>,
    pub show_ascii: bool,
}

impl MemoryViewer {
    /// A closed viewer of no memory.
    pub fn new() -> (r: Self)
        ensures
            !r.open,
            r.memory@ == Seq::<u8>::empty(),
            !r.show_ascii,
    {
        MemoryViewer { open: false, memory: Vec::new(), show_ascii: false }
    }

    /// A closed viewer of a copy of `memory`.
    pub fn new_with_memory(memory: &[u8], show_ascii: bool) -> (r: Self)
        ensures
            !r.open,
            r.memory@ == memory@,
            r.show_ascii == show_ascii,
    {
        MemoryViewer { open: false, memory: copy_of(memory), show_ascii }
    }
}

} // verus!
