pub mod bus;
pub mod hdma_transfer;
pub mod mmio;
pub mod serial;
pub mod timer;
