pub mod alu;
pub mod cpu;
pub mod interrupts;
pub mod registers;
pub mod step;
pub mod debug;
