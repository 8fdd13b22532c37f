pub mod memory_viewer;
pub mod palette_picker;
